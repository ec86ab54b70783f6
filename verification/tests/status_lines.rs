use hid_gamepad::gamepad_descriptor::GamepadReport;
use hid_gamepad::status::{
    display_report, display_usb_state, sensor_mode_line, sensor_range_line, usb_state_name,
    SensorMode, SensorRange,
};
use hid_gamepad::usb::EnumerationState;

fn report(x: i32, y: i32, z: i32, buttons: u8) -> GamepadReport {
    GamepadReport { buttons, x, y, z }
}

#[test]
fn usb_state_names() {
    assert_eq!(usb_state_name(EnumerationState::Default), "Default");
    assert_eq!(usb_state_name(EnumerationState::Addressed), "Addressed");
    assert_eq!(usb_state_name(EnumerationState::Configured), "Configured");
    assert_eq!(usb_state_name(EnumerationState::Suspended), "Suspended");
}

#[test]
fn usb_state_lines() {
    assert_eq!(display_usb_state(EnumerationState::Default), "USB state: Default\n");
    assert_eq!(display_usb_state(EnumerationState::Addressed), "USB state: Addressed\n");
    assert_eq!(display_usb_state(EnumerationState::Configured), "USB state: Configured\n");
    assert_eq!(display_usb_state(EnumerationState::Suspended), "USB state: Suspended\n");
}

#[test]
fn report_line_shows_every_field() {
    assert_eq!(
        display_report(&report(100, -50, 16000, 1)),
        Some(String::from("x: 100, y: -50, y: 16000, button: 1\n"))
    );
    assert_eq!(
        display_report(&report(0, 0, 0, 0)),
        Some(String::from("x: 0, y: 0, y: 0, button: 0\n"))
    );
    assert_eq!(
        display_report(&report(-32768, 32767, -1, 255)),
        Some(String::from("x: -32768, y: 32767, y: -1, button: 255\n"))
    );
}

#[test]
fn report_line_takes_six_characters_an_axis() {
    assert_eq!(
        display_report(&report(999_999, -99_999, 10, 9)),
        Some(String::from("x: 999999, y: -99999, y: 10, button: 9\n"))
    );
    assert_eq!(display_report(&report(1_000_000, 0, 0, 0)), None);
    assert_eq!(display_report(&report(0, -100_000, 0, 0)), None);
    assert_eq!(display_report(&report(0, 0, i32::MAX, 0)), None);
    assert_eq!(display_report(&report(i32::MIN, 0, 0, 0)), None);
}

#[test]
fn sensor_mode_lines() {
    assert_eq!(sensor_mode_line(SensorMode::LowPower), "Mode: LowPower\n");
    assert_eq!(sensor_mode_line(SensorMode::Normal), "Mode: Normal\n");
    assert_eq!(sensor_mode_line(SensorMode::HighResolution), "Mode: HighResolution\n");
}

#[test]
fn sensor_range_lines() {
    assert_eq!(sensor_range_line(SensorRange::G2), "Range: 2G\n");
    assert_eq!(sensor_range_line(SensorRange::G4), "Range: 4G\n");
    assert_eq!(sensor_range_line(SensorRange::G8), "Range: 8G\n");
    assert_eq!(sensor_range_line(SensorRange::G16), "Range: 16G\n");
}
