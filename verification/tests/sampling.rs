use hid_gamepad::gamepad_descriptor::GamepadReport;
use hid_gamepad::sensor::{update_hid_report_via_accelerometer, IoError, RawVector};

#[test]
fn reading_passes_through_unscaled() {
    let mut r = GamepadReport::new();
    update_hid_report_via_accelerometer(Ok(RawVector { x: 100, y: -50, z: 16000 }), &mut r);
    assert_eq!((r.x, r.y, r.z), (100, -50, 16000));
    assert_eq!(r.buttons, 0);
}

#[test]
fn reading_keeps_the_buttons() {
    let mut r = GamepadReport { buttons: 1, x: 127, y: -127, z: 3 };
    update_hid_report_via_accelerometer(Ok(RawVector { x: -4, y: 5, z: -6 }), &mut r);
    assert_eq!(r, GamepadReport { buttons: 1, x: -4, y: 5, z: -6 });
}

#[test]
fn extreme_readings_keep_their_sign() {
    let mut r = GamepadReport::new();
    update_hid_report_via_accelerometer(
        Ok(RawVector { x: i16::MIN, y: i16::MAX, z: -1 }),
        &mut r,
    );
    assert_eq!((r.x, r.y, r.z), (-32768, 32767, -1));
}

#[test]
fn failed_reading_carries_the_old_values_forward() {
    let before = GamepadReport { buttons: 1, x: 100, y: -50, z: 16000 };
    let mut r = before;
    update_hid_report_via_accelerometer(Err(IoError), &mut r);
    assert_eq!(r, before);
}
