//! The enumeration state of the device, as the protocol layer reports it, and
//! the rule that decides when report traffic is allowed.

use vstd::prelude::*;

verus! {

/// Vendor id of the device descriptor.
pub const VENDOR_ID: u16 = 0x1209;

/// Product id of the device descriptor.
pub const PRODUCT_ID: u16 = 0x0001;

/// Manufacturer string of the device descriptor.
pub const MANUFACTURER: &'static str = "Fake company";

/// Product string of the device descriptor.
pub const PRODUCT: &'static str = "Wio Terminal GamePad";

/// Serial number string of the device descriptor.
pub const SERIAL_NUMBER: &'static str = "TEST";

/// Polling interval of the interrupt endpoint in milliseconds.
pub const POLL_INTERVAL_MS: u8 = 10;

/// The stage of enumeration that the device has reached on the bus.
#[derive(Debug, Clone, Copy, PartialEq, Eq, Structural)]
pub enum EnumerationState {
    /// The device has just been created or reset.
    Default,
    /// The host has given the device an address.
    Addressed,
    /// The host has configured the device.
    Configured,
    /// The host has suspended the device.
    Suspended,
}

/// Whether reports are sampled and pushed in a state: only once the device
/// is configured, suspended or not.
pub open spec fn reports_enabled(state: EnumerationState) -> bool {
    state == EnumerationState::Configured || state == EnumerationState::Suspended
}

/// Whether the protocol layer moves a device from `from` to `to` in one
/// step: up through enumeration, into suspension from an addressed or
/// configured device, and back out of it to a configured one.
pub open spec fn is_transition(from: EnumerationState, to: EnumerationState) -> bool {
    match (from, to) {
        (EnumerationState::Default, EnumerationState::Addressed) => true,
        (EnumerationState::Addressed, EnumerationState::Configured) => true,
        (EnumerationState::Addressed, EnumerationState::Suspended) => true,
        (EnumerationState::Configured, EnumerationState::Suspended) => true,
        (EnumerationState::Suspended, EnumerationState::Configured) => true,
        _ => false,
    }
}

impl EnumerationState {
    /// Whether reports are sampled and pushed in this state.
    pub fn reports_enabled(self) -> (b: bool)
        ensures
            b == reports_enabled(self),
    {
        match self {
            EnumerationState::Configured | EnumerationState::Suspended => true,
            EnumerationState::Default | EnumerationState::Addressed => false,
        }
    }

    /// Whether `next` can follow this state in one step of the protocol
    /// layer.
    pub fn can_become(self, next: EnumerationState) -> (b: bool)
        ensures
            b == is_transition(self, next),
    {
        match self {
            EnumerationState::Default => next == EnumerationState::Addressed,
            EnumerationState::Addressed => next == EnumerationState::Configured || next
                == EnumerationState::Suspended,
            EnumerationState::Configured => next == EnumerationState::Suspended,
            EnumerationState::Suspended => next == EnumerationState::Configured,
        }
    }
}

} // verus!
