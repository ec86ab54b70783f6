//! The status lines that the firmware shows on its screen.

use crate::gamepad_descriptor::GamepadReport;
use crate::usb::EnumerationState;
use vstd::prelude::*;
use vstd::string::*;

verus! {

/// Number of characters that the text of an axis value may take.
pub const AXIS_TEXT_LEN: usize = 6;

/// Number of characters that the text of the button byte may take.
pub const BUTTONS_TEXT_LEN: usize = 4;

/// The operating mode of the accelerometer.
#[derive(Debug, Clone, Copy, PartialEq, Eq, Structural)]
pub enum SensorMode {
    LowPower,
    Normal,
    HighResolution,
}

/// The measuring range of the accelerometer.
#[derive(Debug, Clone, Copy, PartialEq, Eq, Structural)]
pub enum SensorRange {
    G2,
    G4,
    G8,
    G16,
}

/// The character of a decimal digit.
pub open spec fn digit(d: int) -> char
    recommends
        0 <= d < 10,
{
    ('0' as int + d) as char
}

/// The decimal digits of a natural number, without leading zeros.
pub open spec fn digits(n: nat) -> Seq<char>
    decreases n,
{
    if n < 10 {
        seq![digit(n as int)]
    } else {
        digits(n / 10).push(digit((n % 10) as int))
    }
}

/// The decimal text of an integer: a minus sign where it is negative, then
/// the digits of its magnitude.
pub open spec fn decimal(v: int) -> Seq<char> {
    if v < 0 {
        seq!['-'] + digits((-v) as nat)
    } else {
        digits(v as nat)
    }
}

/// Whether the decimal text of an axis value takes no more than
/// `AXIS_TEXT_LEN` characters.
pub open spec fn axis_fits(v: i32) -> bool {
    -99_999 <= v <= 999_999
}

/// The name of an enumeration state.
pub open spec fn state_name(state: EnumerationState) -> Seq<char> {
    match state {
        EnumerationState::Default => "Default"@,
        EnumerationState::Addressed => "Addressed"@,
        EnumerationState::Configured => "Configured"@,
        EnumerationState::Suspended => "Suspended"@,
    }
}

/// The line that shows an enumeration state.
pub open spec fn usb_state_line(state: EnumerationState) -> Seq<char> {
    "USB state: "@ + state_name(state) + "\n"@
}

/// The line that shows a report: `x: `, `, y: `, `, y: ` and `, button: `,
/// each followed by the decimal text of the x axis, the y axis, the z axis
/// and the button byte in turn, and a newline.
pub open spec fn report_line(r: GamepadReport) -> Seq<char> {
    "x: "@ + decimal(r.x as int) + ", y: "@ + decimal(r.y as int) + ", y: "@ + decimal(r.z as int)
        + ", button: "@ + decimal(r.buttons as int) + "\n"@
}

/// Calls `heapless::String::<6>::try_from` on an `i32`, which writes the
/// number with `{}` into a string of six bytes: the result is the decimal
/// text of the number where that takes no more than six characters, and
/// nothing where it takes more.
#[verifier::external_body]
fn axis_text(v: i32) -> (r: Option<String>)
    ensures
        match r {
            Some(text) => text@ == decimal(v as int) && decimal(v as int).len() <= AXIS_TEXT_LEN,
            None => decimal(v as int).len() > AXIS_TEXT_LEN,
        },
{
    match heapless::String::<6>::try_from(v) {
        Ok(text) => Some(String::from(text.as_str())),
        Err(_) => None,
    }
}

/// Calls `heapless::String::<4>::try_from` on a `u8`, which writes the
/// number with `{}` into a string of four bytes: the result is the decimal
/// text of the number where that takes no more than four characters, and
/// nothing where it takes more.
#[verifier::external_body]
fn buttons_text(v: u8) -> (r: Option<String>)
    ensures
        match r {
            Some(text) => text@ == decimal(v as int) && decimal(v as int).len()
                <= BUTTONS_TEXT_LEN,
            None => decimal(v as int).len() > BUTTONS_TEXT_LEN,
        },
{
    match heapless::String::<4>::try_from(v) {
        Ok(text) => Some(String::from(text.as_str())),
        Err(_) => None,
    }
}

/// The decimal text of an axis value takes no more than `AXIS_TEXT_LEN`
/// characters exactly where the value is of at most six digits, or of at
/// most five and a sign.
pub proof fn lemma_axis_text_len(v: i32)
    ensures
        decimal(v as int).len() <= AXIS_TEXT_LEN <==> axis_fits(v),
{
    reveal_with_fuel(digits, 8);
}

/// The decimal text of a byte takes no more than three characters.
pub proof fn lemma_byte_text_len(v: u8)
    ensures
        decimal(v as int).len() <= 3,
{
    reveal_with_fuel(digits, 4);
}

/// The name of an enumeration state.
pub fn usb_state_name(state: EnumerationState) -> (name: &'static str)
    ensures
        name@ == state_name(state),
{
    match state {
        EnumerationState::Default => "Default",
        EnumerationState::Addressed => "Addressed",
        EnumerationState::Configured => "Configured",
        EnumerationState::Suspended => "Suspended",
    }
}

/// The line that shows an enumeration state on the screen.
pub fn display_usb_state(state: EnumerationState) -> (line: String)
    ensures
        line@ == usb_state_line(state),
{
    let mut line = String::from_str("USB state: ");
    line.append(usb_state_name(state));
    line.append("\n");
    line
}

/// The line that shows a report on the screen, or nothing where an axis
/// value is too long to show.
pub fn display_report(report: &GamepadReport) -> (line: Option<String>)
    ensures
        match line {
            Some(text) => text@ == report_line(*report),
            None => true,
        },
        line is Some <==> axis_fits(report.x) && axis_fits(report.y) && axis_fits(report.z),
{
    proof {
        lemma_axis_text_len(report.x);
        lemma_axis_text_len(report.y);
        lemma_axis_text_len(report.z);
        lemma_byte_text_len(report.buttons);
    }
    let x = match axis_text(report.x) {
        Some(text) => text,
        None => {
            return None;
        },
    };
    let y = match axis_text(report.y) {
        Some(text) => text,
        None => {
            return None;
        },
    };
    let z = match axis_text(report.z) {
        Some(text) => text,
        None => {
            return None;
        },
    };
    let buttons = match buttons_text(report.buttons) {
        Some(text) => text,
        None => {
            return None;
        },
    };
    let mut line = String::from_str("x: ");
    line.append(x.as_str());
    line.append(", y: ");
    line.append(y.as_str());
    line.append(", y: ");
    line.append(z.as_str());
    line.append(", button: ");
    line.append(buttons.as_str());
    line.append("\n");
    Some(line)
}

/// The line that shows the operating mode of the accelerometer at startup.
pub fn sensor_mode_line(mode: SensorMode) -> (line: &'static str)
    ensures
        line@ == match mode {
            SensorMode::LowPower => "Mode: LowPower\n"@,
            SensorMode::Normal => "Mode: Normal\n"@,
            SensorMode::HighResolution => "Mode: HighResolution\n"@,
        },
{
    match mode {
        SensorMode::LowPower => "Mode: LowPower\n",
        SensorMode::Normal => "Mode: Normal\n",
        SensorMode::HighResolution => "Mode: HighResolution\n",
    }
}

/// The line that shows the measuring range of the accelerometer at startup.
pub fn sensor_range_line(range: SensorRange) -> (line: &'static str)
    ensures
        line@ == match range {
            SensorRange::G2 => "Range: 2G\n"@,
            SensorRange::G4 => "Range: 4G\n"@,
            SensorRange::G8 => "Range: 8G\n"@,
            SensorRange::G16 => "Range: 16G\n"@,
        },
{
    match range {
        SensorRange::G2 => "Range: 2G\n",
        SensorRange::G4 => "Range: 4G\n",
        SensorRange::G8 => "Range: 8G\n",
        SensorRange::G16 => "Range: 16G\n",
    }
}

} // verus!
