//! The input report of the gamepad and its wire format.
//!
//! A report carries three signed 32-bit axes and a byte of button bits. On
//! the wire every axis is sent as two 16-bit words, the high word first, and
//! every word as two bytes, the low byte first. The button byte comes last.

use crate::hid_items::{declared_bits, input_bits_of, input_items_from, input_items_of, InputItem};
use vstd::prelude::*;

verus! {

/// Number of bytes in one serialized report.
pub const REPORT_LEN: usize = 13;

/// Number of bytes in the report descriptor.
pub const DESCRIPTOR_LEN: usize = 43;

/// The report descriptor that the host reads at enumeration.
pub const REPORT_DESCRIPTOR: [u8; DESCRIPTOR_LEN] = [
    0x05, 0x01,         // Usage Page (Generic Desktop Controls)
    0x09, 0x05,         // Usage (Game Pad)
    0xa1, 0x01,         // Collection (Application)
    0x09, 0x01,         //   Usage (Pointer)
    0xa1, 0x00,         //   Collection (Physical)
    0x05, 0x01,         //     Usage Page (Generic Desktop Controls)
    0x16, 0xff, 0xff,   //     Logical Minimum (-1)
    0x25, 0x01,         //     Logical Maximum (1)
    0x09, 0x30,         //     Usage (X)
    0x09, 0x31,         //     Usage (Y)
    0x09, 0x32,         //     Usage (Z)
    0x75, 0x20,         //     Report Size (32)
    0x95, 0x03,         //     Report Count (3)
    0x81, 0x02,         //     Input (Data, Variable, Absolute)
    0xc0,               //   End Collection
    0x05, 0x09,         //   Usage Page (Button)
    0x19, 0x00,         //   Usage Minimum (0)
    0x29, 0x08,         //   Usage Maximum (8)
    0x75, 0x01,         //   Report Size (1)
    0x95, 0x08,         //   Report Count (8)
    0x81, 0x02,         //   Input (Data, Variable, Absolute)
    0xc0,               // End Collection
];

/// The layout of a serialized report: three axes of 32 bits each, then eight
/// buttons of one bit each.
pub open spec fn report_layout() -> Seq<InputItem> {
    seq![InputItem { size: 32, count: 3 }, InputItem { size: 1, count: 8 }]
}

/// The current input state that is sent to the host.
#[derive(Debug, Clone, Copy, PartialEq, Eq, Structural)]
pub struct GamepadReport {
    pub buttons: u8,
    pub x: i32,
    pub y: i32,
    pub z: i32,
}

/// The high wire word of an axis value: the value shifted right
/// arithmetically by 16 bits, of which the low 16 bits are kept.
pub open spec fn high_word(v: i32) -> u16 {
    ((v as int / 0x1_0000) % 0x1_0000) as u16
}

/// The low wire word of an axis value: its low 16 bits.
pub open spec fn low_word(v: i32) -> u16 {
    (v as int % 0x1_0000) as u16
}

/// The axis value that a pair of wire words stands for, the high word read
/// as a two's complement number.
pub open spec fn axis_value(hi: u16, lo: u16) -> i32 {
    ((if hi >= 0x8000 {
        hi - 0x1_0000
    } else {
        hi as int
    }) * 0x1_0000 + lo) as i32
}

/// The two bytes of a wire word, low byte first.
pub open spec fn word_bytes(w: u16) -> Seq<u8> {
    seq![(w % 0x100) as u8, (w / 0x100) as u8]
}

/// The wire word made of a low and a high byte.
pub open spec fn word_of(lo: u8, hi: u8) -> u16 {
    (hi * 0x100 + lo) as u16
}

/// The four bytes of an axis value on the wire.
pub open spec fn axis_bytes(v: i32) -> Seq<u8> {
    word_bytes(high_word(v)) + word_bytes(low_word(v))
}

/// The serialized form of a report: x, y and z, then the buttons.
pub open spec fn wire_bytes(r: GamepadReport) -> Seq<u8> {
    axis_bytes(r.x) + axis_bytes(r.y) + axis_bytes(r.z) + seq![r.buttons]
}

/// The axis value held by the four bytes of `b` that start at `at`.
pub open spec fn axis_at(b: Seq<u8>, at: int) -> i32 {
    axis_value(word_of(b[at], b[at + 1]), word_of(b[at + 2], b[at + 3]))
}

/// The report that a sequence of `REPORT_LEN` wire bytes stands for.
pub open spec fn report_of(b: Seq<u8>) -> GamepadReport
    recommends
        b.len() == REPORT_LEN,
{
    GamepadReport { buttons: b[12], x: axis_at(b, 0), y: axis_at(b, 4), z: axis_at(b, 8) }
}

/// Splits an axis value into its high and low wire words.
pub fn split_axis(v: i32) -> (w: (u16, u16))
    ensures
        w.0 == high_word(v),
        w.1 == low_word(v),
{
    let hi = (v >> 16) as u16;
    let lo = v as u16;
    proof {
        assert((v >> 16u32) as u16 == ((v as int / 0x1_0000) % 0x1_0000) as u16) by (bit_vector);
        assert(v as u16 == (v as int % 0x1_0000) as u16) by (bit_vector);
    }
    (hi, lo)
}

/// Joins a high and a low wire word into the axis value they stand for.
pub fn join_axis(hi: u16, lo: u16) -> (v: i32)
    ensures
        v == axis_value(hi, lo),
{
    let h: i32 = if hi >= 0x8000 {
        hi as i32 - 0x1_0000
    } else {
        hi as i32
    };
    h * 0x1_0000 + lo as i32
}

fn low_byte(w: u16) -> (b: u8)
    ensures
        b == word_bytes(w)[0],
{
    (w % 0x100) as u8
}

fn high_byte(w: u16) -> (b: u8)
    ensures
        b == word_bytes(w)[1],
{
    (w / 0x100) as u8
}

fn join_word(lo: u8, hi: u8) -> (w: u16)
    ensures
        w == word_of(lo, hi),
{
    hi as u16 * 0x100 + lo as u16
}

impl GamepadReport {
    /// The report at rest: no button down, every axis at zero.
    pub fn new() -> (r: Self)
        ensures
            r == (GamepadReport { buttons: 0, x: 0, y: 0, z: 0 }),
    {
        GamepadReport { buttons: 0, x: 0, y: 0, z: 0 }
    }

    /// The report descriptor. Its Input items declare the layout of a
    /// serialized report, field for field, and as many bits as a serialized
    /// report has.
    pub fn desc() -> (d: &'static [u8])
        ensures
            d@ == REPORT_DESCRIPTOR@,
            input_items_of(d@) == Some(report_layout()),
            input_bits_of(d@) == Some((8 * REPORT_LEN) as nat),
    {
        proof {
            lemma_descriptor_layout();
            lemma_descriptor_bits(GamepadReport { buttons: 0, x: 0, y: 0, z: 0 });
        }
        &REPORT_DESCRIPTOR
    }

    /// Serializes the report into the bytes that are sent to the host.
    pub fn serialize(&self) -> (bytes: [u8; REPORT_LEN])
        ensures
            bytes@ == wire_bytes(*self),
    {
        let (xh, xl) = split_axis(self.x);
        let (yh, yl) = split_axis(self.y);
        let (zh, zl) = split_axis(self.z);
        let bytes = [
            low_byte(xh),
            high_byte(xh),
            low_byte(xl),
            high_byte(xl),
            low_byte(yh),
            high_byte(yh),
            low_byte(yl),
            high_byte(yl),
            low_byte(zh),
            high_byte(zh),
            low_byte(zl),
            high_byte(zl),
            self.buttons,
        ];
        assert(bytes@ =~= wire_bytes(*self));
        bytes
    }

    /// Reads a report back from its wire bytes. Any other number of bytes
    /// than `REPORT_LEN` is no report.
    pub fn deserialize(bytes: &[u8]) -> (r: Option<Self>)
        ensures
            r == if bytes@.len() == REPORT_LEN {
                Some(report_of(bytes@))
            } else {
                None
            },
    {
        if bytes.len() != REPORT_LEN {
            return None;
        }
        let x = join_axis(join_word(bytes[0], bytes[1]), join_word(bytes[2], bytes[3]));
        let y = join_axis(join_word(bytes[4], bytes[5]), join_word(bytes[6], bytes[7]));
        let z = join_axis(join_word(bytes[8], bytes[9]), join_word(bytes[10], bytes[11]));
        Some(GamepadReport { buttons: bytes[12], x, y, z })
    }
}

/// The Input items of the report descriptor declare the layout of a
/// serialized report, field for field.
pub proof fn lemma_descriptor_layout()
    ensures
        input_items_of(REPORT_DESCRIPTOR@) == Some(report_layout()),
{
    reveal_with_fuel(input_items_from, 24);
}

/// The report descriptor declares as many input bits as a serialized report
/// has: eight for each of its bytes.
pub proof fn lemma_descriptor_bits(r: GamepadReport)
    ensures
        input_bits_of(REPORT_DESCRIPTOR@) == Some(8 * wire_bytes(r).len()),
        wire_bytes(r).len() == REPORT_LEN,
{
    lemma_descriptor_layout();
    let axes = seq![InputItem { size: 32, count: 3 }];
    assert(axes.drop_last() =~= Seq::empty());
    assert(report_layout().drop_last() =~= axes);
    assert(declared_bits(report_layout()) == 32 * 3 + 1 * 8) by {
        reveal_with_fuel(declared_bits, 3);
    }
}

/// Decoding the wire words of an axis value gives the value back, for every
/// value of the axis type.
pub proof fn lemma_axis_round_trip(v: i32)
    ensures
        axis_value(high_word(v), low_word(v)) == v,
{
}

/// Every pair of wire words is the encoding of the value it decodes to, so
/// no two values share an encoding and no pair of words is left unused.
pub proof fn lemma_words_round_trip(hi: u16, lo: u16)
    ensures
        high_word(axis_value(hi, lo)) == hi,
        low_word(axis_value(hi, lo)) == lo,
{
}

/// A serialized report has `REPORT_LEN` bytes and deserializes to the report
/// it was made from.
pub proof fn lemma_report_round_trip(r: GamepadReport)
    ensures
        wire_bytes(r).len() == REPORT_LEN,
        report_of(wire_bytes(r)) == r,
{
    lemma_axis_round_trip(r.x);
    lemma_axis_round_trip(r.y);
    lemma_axis_round_trip(r.z);
}

/// Every sequence of `REPORT_LEN` bytes is the serialized form of the report
/// it deserializes to.
pub proof fn lemma_bytes_round_trip(b: Seq<u8>)
    requires
        b.len() == REPORT_LEN,
    ensures
        wire_bytes(report_of(b)) == b,
{
    lemma_words_round_trip(word_of(b[0], b[1]), word_of(b[2], b[3]));
    lemma_words_round_trip(word_of(b[4], b[5]), word_of(b[6], b[7]));
    lemma_words_round_trip(word_of(b[8], b[9]), word_of(b[10], b[11]));
    assert(wire_bytes(report_of(b)) =~= b);
}

} // verus!
