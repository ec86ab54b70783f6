//! Report pipeline of a USB HID gamepad: the report and its wire format, the
//! report descriptor, the button event queue, sensor sampling and the
//! per-tick scheduling decisions.

pub mod buttons;
pub mod gamepad_descriptor;
pub mod hid_items;
pub mod scheduler;
pub mod sensor;
pub mod status;
pub mod terminal;
pub mod usb;
