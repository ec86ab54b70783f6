use hid_gamepad::buttons::{Button, ButtonEvent};
use hid_gamepad::gamepad_descriptor::GamepadReport;
use hid_gamepad::scheduler::{Scheduler, TickPlan, TICK_PERIOD_MS};
use hid_gamepad::sensor::{IoError, RawVector};
use hid_gamepad::usb::EnumerationState;

const READING: RawVector = RawVector { x: 100, y: -50, z: 16000 };

#[test]
fn reports_are_pushed_only_once_configured() {
    let script = [
        EnumerationState::Default,
        EnumerationState::Addressed,
        EnumerationState::Configured,
        EnumerationState::Suspended,
        EnumerationState::Configured,
    ];
    let mut s = Scheduler::new(EnumerationState::Default);
    let mut pushes = Vec::new();
    for state in script {
        let plan = s.begin_tick(state, &[]);
        let pushed = s.finish_tick(Ok(READING)).is_some();
        assert_eq!(plan.report_due, pushed);
        pushes.push(pushed);
    }
    assert_eq!(pushes, vec![false, false, true, true, true]);
}

#[test]
fn gate_follows_the_state() {
    assert!(!EnumerationState::Default.reports_enabled());
    assert!(!EnumerationState::Addressed.reports_enabled());
    assert!(EnumerationState::Configured.reports_enabled());
    assert!(EnumerationState::Suspended.reports_enabled());
}

#[test]
fn transitions_of_the_protocol_layer() {
    let states = [
        EnumerationState::Default,
        EnumerationState::Addressed,
        EnumerationState::Configured,
        EnumerationState::Suspended,
    ];
    let allowed = [
        (EnumerationState::Default, EnumerationState::Addressed),
        (EnumerationState::Addressed, EnumerationState::Configured),
        (EnumerationState::Addressed, EnumerationState::Suspended),
        (EnumerationState::Configured, EnumerationState::Suspended),
        (EnumerationState::Suspended, EnumerationState::Configured),
    ];
    for from in states {
        for to in states {
            assert_eq!(from.can_become(to), allowed.contains(&(from, to)));
        }
    }
}

#[test]
fn scheduler_starts_at_rest() {
    let s = Scheduler::new(EnumerationState::Addressed);
    assert_eq!(s.state, EnumerationState::Addressed);
    assert_eq!(s.report, GamepadReport { buttons: 0, x: 0, y: 0, z: 0 });
    assert_eq!(TICK_PERIOD_MS, 10);
}

#[test]
fn begin_tick_reports_a_change_of_state() {
    let mut s = Scheduler::new(EnumerationState::Default);
    assert_eq!(
        s.begin_tick(EnumerationState::Default, &[]),
        TickPlan { state_changed: false, report_due: false }
    );
    assert_eq!(
        s.begin_tick(EnumerationState::Addressed, &[]),
        TickPlan { state_changed: true, report_due: false }
    );
    assert_eq!(
        s.begin_tick(EnumerationState::Configured, &[]),
        TickPlan { state_changed: true, report_due: true }
    );
    assert_eq!(
        s.begin_tick(EnumerationState::Configured, &[]),
        TickPlan { state_changed: false, report_due: true }
    );
    assert_eq!(s.state, EnumerationState::Configured);
}

#[test]
fn begin_tick_applies_events_whatever_the_state() {
    let mut s = Scheduler::new(EnumerationState::Default);
    let events = [
        ButtonEvent { button: Button::Up, pressed: true },
        ButtonEvent { button: Button::Click, pressed: true },
    ];
    s.begin_tick(EnumerationState::Default, &events);
    assert_eq!(s.report, GamepadReport { buttons: 1, x: 0, y: 127, z: 0 });
    s.begin_tick(EnumerationState::Default, &[ButtonEvent { button: Button::Up, pressed: false }]);
    assert_eq!(s.report, GamepadReport { buttons: 1, x: 0, y: 0, z: 0 });
}

#[test]
fn finish_tick_samples_and_serializes() {
    let mut s = Scheduler::new(EnumerationState::Default);
    s.begin_tick(
        EnumerationState::Configured,
        &[ButtonEvent { button: Button::Click, pressed: true }],
    );
    let bytes = s.finish_tick(Ok(READING)).unwrap();
    assert_eq!(s.report, GamepadReport { buttons: 1, x: 100, y: -50, z: 16000 });
    assert_eq!(bytes, s.report.serialize());
    assert_eq!(bytes, [0, 0, 100, 0, 0xff, 0xff, 0xce, 0xff, 0, 0, 0x80, 0x3e, 1]);
}

#[test]
fn finish_tick_pushes_the_old_axes_when_the_sensor_fails() {
    let mut s = Scheduler::new(EnumerationState::Configured);
    s.begin_tick(EnumerationState::Configured, &[]);
    s.finish_tick(Ok(READING));
    s.begin_tick(EnumerationState::Configured, &[]);
    let bytes = s.finish_tick(Err(IoError)).unwrap();
    assert_eq!(s.report, GamepadReport { buttons: 0, x: 100, y: -50, z: 16000 });
    assert_eq!(bytes, s.report.serialize());
}

#[test]
fn finish_tick_does_nothing_while_the_gate_is_closed() {
    let mut s = Scheduler::new(EnumerationState::Default);
    s.begin_tick(EnumerationState::Addressed, &[]);
    assert_eq!(s.finish_tick(Ok(READING)), None);
    assert_eq!(s.report, GamepadReport::new());
    assert_eq!(s.state, EnumerationState::Addressed);
}
