use gamepad_core::gamepad::{GamepadAxis, GamepadButton, OutputMapping};
use gamepad_core::wiimote::{
    KeyState, NunchukKey, Polled, WiimoteKey, XWiiEvent, XWiiHandler, XWiiInput,
};

fn stick(x: i32, y: i32) -> XWiiEvent {
    XWiiEvent::NunchukMove { x, y, x_acceleration: 0, y_acceleration: 0 }
}

fn value(input: &XWiiInput, axis: GamepadAxis) -> u64 {
    *input.to_gamepad().get_axis(axis).get_value()
}

#[test]
fn events_are_equal_when_they_name_the_same_control() {
    let a_up = XWiiEvent::Key(WiimoteKey::A, KeyState::Up);
    let a_down = XWiiEvent::Key(WiimoteKey::A, KeyState::Down);
    let b_up = XWiiEvent::Key(WiimoteKey::B, KeyState::Up);
    let z_up = XWiiEvent::NunchukKey(NunchukKey::Z, KeyState::Up);
    let z_down = XWiiEvent::NunchukKey(NunchukKey::Z, KeyState::AutoRepeat);
    let c_up = XWiiEvent::NunchukKey(NunchukKey::C, KeyState::Up);
    assert!(a_up == a_down);
    assert!(a_up != b_up);
    assert!(z_up == z_down);
    assert!(z_up != c_up);
    assert!(a_up != z_up);
    assert!(stick(0, 0) == stick(5, -7));
    assert!(stick(0, 0) != a_up);
    assert!(XWiiEvent::Other != XWiiEvent::Other);
    assert!(XWiiEvent::Other != a_up);
}

#[test]
fn a_key_counts_as_pressed_unless_it_is_up() {
    assert!(!KeyState::Up.is_pressed());
    assert!(KeyState::Down.is_pressed());
    assert!(KeyState::AutoRepeat.is_pressed());
}

#[test]
fn a_new_table_routes_nothing() {
    let _handler = XWiiHandler::new();
    let mut input = XWiiInput::new();
    input.map_event_to_gamepad(XWiiEvent::Key(WiimoteKey::A, KeyState::Down));
    input.map_event_to_gamepad(stick(10, 10));
    for button in GamepadButton::all() {
        assert!(!input.to_gamepad().get_button(button));
    }
    for axis in GamepadAxis::all() {
        assert_eq!(value(&input, axis), 0);
    }
}

#[test]
fn a_key_bound_to_a_button_sets_it() {
    let mut input = XWiiInput::new();
    input.map_event(
        XWiiEvent::Key(WiimoteKey::A, KeyState::Up),
        OutputMapping::Button(GamepadButton::South),
    );
    input.map_event(
        XWiiEvent::NunchukKey(NunchukKey::C, KeyState::Up),
        OutputMapping::Button(GamepadButton::West),
    );
    input.map_event_to_gamepad(XWiiEvent::Key(WiimoteKey::A, KeyState::Down));
    assert!(input.to_gamepad().get_button(GamepadButton::South));
    assert!(!input.to_gamepad().get_button(GamepadButton::West));
    input.map_event_to_gamepad(XWiiEvent::Key(WiimoteKey::B, KeyState::Down));
    assert!(!input.to_gamepad().get_button(GamepadButton::West));
    input.map_event_to_gamepad(XWiiEvent::NunchukKey(NunchukKey::C, KeyState::AutoRepeat));
    assert!(input.to_gamepad().get_button(GamepadButton::West));
    input.map_event_to_gamepad(XWiiEvent::Key(WiimoteKey::A, KeyState::Up));
    assert!(!input.to_gamepad().get_button(GamepadButton::South));
    assert!(input.to_gamepad().get_button(GamepadButton::West));
}

#[test]
fn a_key_bound_to_an_axis_snaps_it_to_its_limits() {
    let mut input = XWiiInput::new();
    input.map_event(
        XWiiEvent::Key(WiimoteKey::B, KeyState::Up),
        OutputMapping::Axis(GamepadAxis::RightTrigger),
    );
    input.map_event_to_gamepad(XWiiEvent::Key(WiimoteKey::B, KeyState::Down));
    assert_eq!(value(&input, GamepadAxis::RightTrigger), u64::MAX);
    assert_eq!(value(&input, GamepadAxis::LeftTrigger), 0);
    input.map_event_to_gamepad(XWiiEvent::Key(WiimoteKey::B, KeyState::Up));
    assert_eq!(value(&input, GamepadAxis::RightTrigger), 0);
}

#[test]
fn every_binding_of_a_control_takes_effect() {
    let mut input = XWiiInput::new();
    let z = XWiiEvent::NunchukKey(NunchukKey::Z, KeyState::Up);
    input.map_event(z, OutputMapping::Axis(GamepadAxis::LeftTrigger));
    input.map_event(z, OutputMapping::Button(GamepadButton::LeftShoulderButton));
    input.map_event(z, OutputMapping::Button(GamepadButton::Start));
    input.map_event_to_gamepad(XWiiEvent::NunchukKey(NunchukKey::Z, KeyState::Down));
    assert_eq!(value(&input, GamepadAxis::LeftTrigger), u64::MAX);
    assert!(input.to_gamepad().get_button(GamepadButton::LeftShoulderButton));
    assert!(input.to_gamepad().get_button(GamepadButton::Start));
}

#[test]
fn the_stick_calibrates_itself_from_the_first_sample_on() {
    let mut input = XWiiInput::new();
    input.map_event(stick(0, 0), OutputMapping::Axis(GamepadAxis::LeftJoystickX));
    input.map_event(stick(0, 0), OutputMapping::Axis(GamepadAxis::LeftJoystickY));

    // The first sample is the whole range: a range of zero width maps to the minimum.
    input.map_event_to_gamepad(stick(10, 0));
    assert_eq!(value(&input, GamepadAxis::LeftJoystickX), 0);
    assert_eq!(value(&input, GamepadAxis::LeftJoystickY), 0);
    // The range is now 10..=20 and 0..=100.
    input.map_event_to_gamepad(stick(20, 100));
    assert_eq!(value(&input, GamepadAxis::LeftJoystickX), u64::MAX);
    assert_eq!(value(&input, GamepadAxis::LeftJoystickY), u64::MAX);
    // -100..=100 on the vertical axis.
    input.map_event_to_gamepad(stick(20, -100));
    assert_eq!(value(&input, GamepadAxis::LeftJoystickY), 0);
    // At rest: within five hundredths of the range around zero.
    input.map_event_to_gamepad(stick(20, 2));
    assert_eq!(value(&input, GamepadAxis::LeftJoystickY), 9223372036854775807);
    input.map_event_to_gamepad(stick(20, -5));
    assert_eq!(value(&input, GamepadAxis::LeftJoystickY), 9223372036854775807);
    // Outside the deadzone: linear.
    input.map_event_to_gamepad(stick(20, 50));
    assert_eq!(value(&input, GamepadAxis::LeftJoystickY), 13835058055282163711);
    input.map_event_to_gamepad(stick(20, 30));
    assert_eq!(value(&input, GamepadAxis::LeftJoystickY), 11990383647911208549);
    // The range never narrows.
    input.map_event_to_gamepad(stick(20, 100));
    assert_eq!(value(&input, GamepadAxis::LeftJoystickY), u64::MAX);
    assert_eq!(value(&input, GamepadAxis::LeftJoystickX), u64::MAX);
    assert_eq!(value(&input, GamepadAxis::RightJoystickX), 0);
}

#[test]
fn the_stick_feeds_stick_axes_only() {
    let mut input = XWiiInput::new();
    input.map_event(stick(0, 0), OutputMapping::Axis(GamepadAxis::LeftTrigger));
    input.map_event(stick(0, 0), OutputMapping::Button(GamepadButton::North));
    input.map_event(stick(0, 0), OutputMapping::Axis(GamepadAxis::RightJoystickX));
    input.map_event(stick(0, 0), OutputMapping::Axis(GamepadAxis::RightJoystickY));
    input.map_event_to_gamepad(stick(0, 0));
    input.map_event_to_gamepad(stick(100, -100));
    assert_eq!(value(&input, GamepadAxis::LeftTrigger), 0);
    assert!(!input.to_gamepad().get_button(GamepadButton::North));
    assert_eq!(value(&input, GamepadAxis::RightJoystickX), u64::MAX);
    assert_eq!(value(&input, GamepadAxis::RightJoystickY), 0);
    assert_eq!(value(&input, GamepadAxis::LeftJoystickX), 0);
}

#[test]
fn the_deadzone_percentage_can_be_set() {
    let mut input = XWiiInput::new();
    input.set_deadzone_percentage(50);
    input.map_event(stick(0, 0), OutputMapping::Axis(GamepadAxis::LeftJoystickX));
    input.map_event_to_gamepad(stick(0, 0));
    input.map_event_to_gamepad(stick(100, 0));
    input.map_event_to_gamepad(stick(-100, 0));
    assert_eq!(value(&input, GamepadAxis::LeftJoystickX), 0);
    // The deadzone now spans the whole range: it is an edge zone.
    input.map_event_to_gamepad(stick(2, 0));
    assert_eq!(value(&input, GamepadAxis::LeftJoystickX), u64::MAX);
    input.set_deadzone_percentage(0);
    input.map_event_to_gamepad(stick(2, 0));
    assert_eq!(value(&input, GamepadAxis::LeftJoystickX), 9407839477591871323);
}

#[test]
fn events_that_no_binding_names_leave_the_calibration_alone() {
    let mut input = XWiiInput::new();
    // Not routed: this sample is not taken in.
    input.map_event_to_gamepad(stick(-1000, -1000));
    input.map_event(stick(0, 0), OutputMapping::Axis(GamepadAxis::LeftJoystickX));
    input.map_event_to_gamepad(stick(10, 0));
    input.map_event_to_gamepad(stick(20, 0));
    assert_eq!(value(&input, GamepadAxis::LeftJoystickX), u64::MAX);
    input.map_event_to_gamepad(XWiiEvent::Other);
    assert_eq!(value(&input, GamepadAxis::LeftJoystickX), u64::MAX);
}

#[test]
fn a_wait_that_brought_an_event_sends_it_through_the_table() {
    let mut input = XWiiInput::new();
    input.map_event(
        XWiiEvent::Key(WiimoteKey::A, KeyState::Up),
        OutputMapping::Button(GamepadButton::South),
    );
    let event = XWiiEvent::Key(WiimoteKey::A, KeyState::Down);
    assert_eq!(input.get_next_inputs(Polled::Event(event)), Ok(true));
    assert!(input.to_gamepad().get_button(GamepadButton::South));
    // An event that no binding names still counts as an event.
    assert_eq!(input.get_next_inputs(Polled::Event(XWiiEvent::Other)), Ok(true));
    assert!(input.to_gamepad().get_button(GamepadButton::South));
}

#[test]
fn a_wait_without_an_event_changes_nothing() {
    let mut input = XWiiInput::new();
    input.map_event(
        XWiiEvent::Key(WiimoteKey::A, KeyState::Up),
        OutputMapping::Button(GamepadButton::South),
    );
    input.map_event_to_gamepad(XWiiEvent::Key(WiimoteKey::A, KeyState::Down));
    assert_eq!(input.get_next_inputs(Polled::TimedOut), Ok(false));
    assert_eq!(input.get_next_inputs(Polled::Ended), Ok(false));
    assert!(input.to_gamepad().get_button(GamepadButton::South));
}

#[test]
fn a_failed_read_is_an_error() {
    let mut input = XWiiInput::new();
    assert_eq!(input.get_next_inputs(Polled::Failed), Err("Error reading events."));
    for button in GamepadButton::all() {
        assert!(!input.to_gamepad().get_button(button));
    }
}
