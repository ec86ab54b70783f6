//! Sampling the accelerometer into the report.

use crate::gamepad_descriptor::GamepadReport;
use vstd::prelude::*;

verus! {

/// One raw reading of the accelerometer, in the counts of the sensor.
#[derive(Debug, Clone, Copy, PartialEq, Eq, Structural)]
pub struct RawVector {
    pub x: i16,
    pub y: i16,
    pub z: i16,
}

/// A reading that failed on the bus or in the sensor.
#[derive(Debug, Clone, Copy, PartialEq, Eq, Structural)]
pub struct IoError;

/// The report after a sample: a reading is copied to the axes as it is, and
/// a failed reading leaves the report as it was.
pub open spec fn sampled(r: GamepadReport, reading: Result<RawVector, IoError>) -> GamepadReport {
    match reading {
        Ok(v) => GamepadReport { x: v.x as i32, y: v.y as i32, z: v.z as i32, buttons: r.buttons },
        Err(_) => r,
    }
}

/// Copies a reading of the accelerometer into the axes of the report, with
/// no scaling. A failed reading changes nothing.
pub fn update_hid_report_via_accelerometer(
    reading: Result<RawVector, IoError>,
    report: &mut GamepadReport,
)
    ensures
        *final(report) == sampled(*old(report), reading),
{
    if let Ok(vec3) = reading {
        report.x = vec3.x as i32;
        report.y = vec3.y as i32;
        report.z = vec3.z as i32;
    }
}

} // verus!
