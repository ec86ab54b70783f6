use hid_gamepad::gamepad_descriptor::{GamepadReport, DESCRIPTOR_LEN, REPORT_DESCRIPTOR, REPORT_LEN};
use hid_gamepad::hid_items::{input_bits, input_items, InputItem};

#[test]
fn desc_is_the_constant_descriptor() {
    let d = GamepadReport::desc();
    assert_eq!(d.len(), DESCRIPTOR_LEN);
    assert_eq!(d, &REPORT_DESCRIPTOR[..]);
    assert_eq!(GamepadReport::desc(), d);
    assert_eq!(&d[..6], &[0x05, 0x01, 0x09, 0x05, 0xa1, 0x01]);
    assert_eq!(d[DESCRIPTOR_LEN - 1], 0xc0);
}

#[test]
fn descriptor_declares_the_report_layout() {
    let items = input_items(GamepadReport::desc()).unwrap();
    assert_eq!(
        items,
        vec![InputItem { size: 32, count: 3 }, InputItem { size: 1, count: 8 }]
    );
}

#[test]
fn descriptor_bits_match_the_serialized_report() {
    let bits = input_bits(GamepadReport::desc()).unwrap();
    assert_eq!(bits, 104);
    assert_eq!(bits, 8 * REPORT_LEN as u64);
    assert_eq!(bits, 8 * GamepadReport::new().serialize().len() as u64);
}

#[test]
fn empty_descriptor_declares_nothing() {
    assert_eq!(input_items(&[]), Some(vec![]));
    assert_eq!(input_bits(&[]), Some(0));
}

#[test]
fn report_size_stays_in_force_until_it_is_set_again() {
    let d = [0x75, 0x08, 0x95, 0x02, 0x81, 0x02, 0x95, 0x03, 0x81, 0x02];
    assert_eq!(
        input_items(&d),
        Some(vec![InputItem { size: 8, count: 2 }, InputItem { size: 8, count: 3 }])
    );
    assert_eq!(input_bits(&d), Some(40));
}

#[test]
fn input_before_any_layout_declares_no_bits() {
    let d = [0x81, 0x02];
    assert_eq!(input_items(&d), Some(vec![InputItem { size: 0, count: 0 }]));
    assert_eq!(input_bits(&d), Some(0));
}

#[test]
fn item_data_is_read_low_byte_first() {
    let d = [0x76, 0x34, 0x12, 0x97, 0x04, 0x03, 0x02, 0x01, 0x80];
    assert_eq!(
        input_items(&d),
        Some(vec![InputItem { size: 0x1234, count: 0x0102_0304 }])
    );
    assert_eq!(input_bits(&d), Some(0x1234 * 0x0102_0304));
}

#[test]
fn item_without_data_is_zero() {
    let d = [0x75, 0x08, 0x95, 0x01, 0x74, 0x81, 0x00];
    assert_eq!(input_items(&d), Some(vec![InputItem { size: 0, count: 1 }]));
}

#[test]
fn output_and_feature_items_are_not_counted() {
    let d = [0x75, 0x08, 0x95, 0x01, 0x91, 0x02, 0xb1, 0x02];
    assert_eq!(input_items(&d), Some(vec![]));
    assert_eq!(input_bits(&d), Some(0));
}

#[test]
fn truncated_item_is_refused() {
    assert_eq!(input_items(&[0x75]), None);
    assert_eq!(input_items(&[0x75, 0x08, 0x96, 0x01]), None);
    assert_eq!(input_items(&[0x97, 0x01, 0x02, 0x03]), None);
    assert_eq!(input_bits(&[0x75, 0x08, 0x95]), None);
}

#[test]
fn push_and_pop_are_refused() {
    assert_eq!(input_items(&[0x75, 0x08, 0xa4]), None);
    assert_eq!(input_items(&[0xb4]), None);
    assert_eq!(input_bits(&[0xa4]), None);
}

#[test]
fn long_item_is_skipped() {
    let d = [0x75, 0x08, 0x95, 0x01, 0xfe, 0x03, 0x10, 0x81, 0x81, 0x81, 0x81, 0x02];
    assert_eq!(input_items(&d), Some(vec![InputItem { size: 8, count: 1 }]));
}

#[test]
fn truncated_long_item_is_refused() {
    assert_eq!(input_items(&[0xfe]), None);
    assert_eq!(input_items(&[0xfe, 0x00]), None);
    assert_eq!(input_items(&[0xfe, 0x02, 0x10, 0x00]), None);
    assert_eq!(input_items(&[0xfe, 0x00, 0x10]), Some(vec![]));
}

#[test]
fn bits_beyond_the_result_are_refused() {
    let mut d = vec![0x77, 0xff, 0xff, 0xff, 0xff, 0x97, 0xff, 0xff, 0xff, 0xff];
    d.extend_from_slice(&[0x81, 0x02]);
    assert_eq!(input_bits(&d), Some(0xffff_ffffu64 * 0xffff_ffffu64));
    d.extend_from_slice(&[0x81, 0x02]);
    assert_eq!(input_bits(&d), None);
    assert_eq!(input_items(&d).map(|v| v.len()), Some(2));
}
