//! The decisions of one tick of the main loop.
//!
//! The main loop owns a [`Scheduler`]. On every expiry of the tick timer it
//! hands over the enumeration state it observed and the button events it
//! drained from the queue, and learns from the [`TickPlan`] what to do next.
//! Where reports are due it reads the accelerometer and hands the reading
//! over, and gets back the bytes to push to the host.

use crate::buttons::{apply_all, apply_events, ButtonEvent};
use crate::gamepad_descriptor::{wire_bytes, GamepadReport, REPORT_LEN};
use crate::sensor::{sampled, update_hid_report_via_accelerometer, IoError, RawVector};
use crate::usb::{reports_enabled, EnumerationState};
use vstd::prelude::*;

verus! {

/// Period of the tick timer in milliseconds.
pub const TICK_PERIOD_MS: u32 = 10;

/// The state that the main loop carries from tick to tick.
#[derive(Debug, Clone, Copy, PartialEq, Eq, Structural)]
pub struct Scheduler {
    /// The report as it was last built.
    pub report: GamepadReport,
    /// The enumeration state seen at the last tick.
    pub state: EnumerationState,
}

/// What the main loop has to do in the rest of a tick.
#[derive(Debug, Clone, Copy, PartialEq, Eq, Structural)]
pub struct TickPlan {
    /// The enumeration state differs from that of the tick before.
    pub state_changed: bool,
    /// The sensor is to be sampled and the report pushed.
    pub report_due: bool,
}

impl Scheduler {
    /// The scheduler at startup: the report at rest, and the enumeration
    /// state as first observed.
    pub fn new(state: EnumerationState) -> (s: Self)
        ensures
            s.state == state,
            s.report == (GamepadReport { buttons: 0, x: 0, y: 0, z: 0 }),
    {
        Scheduler { report: GamepadReport::new(), state }
    }

    /// Opens a tick: takes note of the observed enumeration state and
    /// applies the drained button events to the report, in the order of
    /// their arrival. Reports are due exactly where the observed state
    /// allows report traffic.
    pub fn begin_tick(&mut self, observed: EnumerationState, events: &[ButtonEvent]) -> (plan:
        TickPlan)
        ensures
            final(self).state == observed,
            final(self).report == apply_events(old(self).report, events@),
            plan.state_changed == (old(self).state != observed),
            plan.report_due == reports_enabled(observed),
    {
        let state_changed = self.state != observed;
        self.state = observed;
        apply_all(&mut self.report, events);
        TickPlan { state_changed, report_due: observed.reports_enabled() }
    }

    /// Closes a tick in which reports are due: copies the reading of the
    /// sensor into the report and returns the bytes to push. Where the state
    /// allows no report traffic, the report stays as it is and there is
    /// nothing to push.
    pub fn finish_tick(&mut self, reading: Result<RawVector, IoError>) -> (bytes: Option<
        [u8; REPORT_LEN],
    >)
        ensures
            final(self).state == old(self).state,
            final(self).report == if reports_enabled(old(self).state) {
                sampled(old(self).report, reading)
            } else {
                old(self).report
            },
            (bytes is Some) == reports_enabled(old(self).state),
            bytes matches Some(b) ==> b@ == wire_bytes(final(self).report),
    {
        if self.state.reports_enabled() {
            update_hid_report_via_accelerometer(reading, &mut self.report);
            Some(self.report.serialize())
        } else {
            None
        }
    }
}

} // verus!
