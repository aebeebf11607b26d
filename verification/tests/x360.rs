use gamepad_core::axis::Axis;
use gamepad_core::gamepad::{Gamepad, GamepadAxis, GamepadButton, OutputMapping};
use gamepad_core::wiimote::{KeyState, WiimoteKey, XWiiEvent, XWiiInput};
use gamepad_core::x360::{XboxButtonState, XboxControllerState};

#[test]
fn the_buttons_have_their_names_and_bits() {
    let buttons = XboxButtonState::new();
    let expected = [
        (&buttons.a, "A", 4),
        (&buttons.b, "B", 5),
        (&buttons.x, "X", 6),
        (&buttons.y, "Y", 7),
        (&buttons.lb, "LB", 0),
        (&buttons.rb, "RB", 1),
        (&buttons.l3, "L3", 6),
        (&buttons.r3, "R3", 7),
        (&buttons.start, "START", 4),
        (&buttons.options, "OPTIONS", 5),
        (&buttons.xbox, "XBOX", 2),
        (&buttons.dpad_up, "DPAD_UP", 0),
        (&buttons.dpad_down, "DPAD_DOWN", 1),
        (&buttons.dpad_left, "DPAD_LEFT", 2),
        (&buttons.dpad_right, "DPAD_RIGHT", 3),
    ];
    for (button, name, addr) in expected {
        assert!(button.is_named(&name.to_string()), "{}", name);
        assert_eq!(button.get_addr(), addr, "{}", name);
        assert!(!button.get_value(), "{}", name);
    }
    assert_eq!(buttons.get_control_byte_2(), 0);
    assert_eq!(buttons.get_control_byte_3(), 0);
}

#[test]
fn control_byte_2_holds_the_pad_the_menu_and_the_stick_buttons() {
    let mut buttons = XboxButtonState::new();
    buttons.dpad_up.set_value(true);
    assert_eq!(buttons.get_control_byte_2(), 0x01);
    buttons.dpad_down.set_value(true);
    assert_eq!(buttons.get_control_byte_2(), 0x03);
    buttons.dpad_left.set_value(true);
    assert_eq!(buttons.get_control_byte_2(), 0x07);
    buttons.dpad_right.set_value(true);
    assert_eq!(buttons.get_control_byte_2(), 0x0f);
    buttons.start.set_value(true);
    assert_eq!(buttons.get_control_byte_2(), 0x1f);
    buttons.options.set_value(true);
    assert_eq!(buttons.get_control_byte_2(), 0x3f);
    buttons.l3.set_value(true);
    assert_eq!(buttons.get_control_byte_2(), 0x7f);
    buttons.r3.set_value(true);
    assert_eq!(buttons.get_control_byte_2(), 0xff);
    assert_eq!(buttons.get_control_byte_3(), 0);
}

#[test]
fn control_byte_3_holds_the_shoulder_the_guide_and_the_face_buttons() {
    let mut buttons = XboxButtonState::new();
    buttons.lb.set_value(true);
    assert_eq!(buttons.get_control_byte_3(), 0x01);
    buttons.rb.set_value(true);
    assert_eq!(buttons.get_control_byte_3(), 0x03);
    buttons.xbox.set_value(true);
    assert_eq!(buttons.get_control_byte_3(), 0x07);
    buttons.a.set_value(true);
    assert_eq!(buttons.get_control_byte_3(), 0x17);
    buttons.b.set_value(true);
    assert_eq!(buttons.get_control_byte_3(), 0x37);
    buttons.x.set_value(true);
    assert_eq!(buttons.get_control_byte_3(), 0x77);
    buttons.y.set_value(true);
    assert_eq!(buttons.get_control_byte_3(), 0xf7);
    assert_eq!(buttons.get_control_byte_2(), 0);
}

#[test]
fn a_new_state_reports_everything_at_rest() {
    let state = XboxControllerState::new();
    assert_eq!(*state.left_trigger.get_value(), 0);
    assert_eq!(*state.right_trigger.get_value(), 0);
    assert_eq!(*state.left_joystick.x.get_value(), 0x8000_8000_8000_8000);
    assert_eq!(*state.right_joystick.y.get_value(), 0x8000_8000_8000_8000);
    assert_eq!(
        state.to_packet(),
        [0x00, 0x14, 0, 0, 0, 0, 0, 0, 0, 0, 0, 0, 0, 0, 0, 0, 0, 0, 0, 0]
    );
}

#[test]
fn update_from_gamepad_takes_over_buttons_and_axes() {
    let mut pad = Gamepad::new();
    pad.set_button(GamepadButton::South, true);
    pad.set_button(GamepadButton::North, true);
    pad.set_button(GamepadButton::LeftShoulderButton, true);
    pad.set_button(GamepadButton::DPadUp, true);
    pad.set_button(GamepadButton::RightThumb, true);
    pad.get_axis_ref(GamepadAxis::LeftTrigger).set_values::<u8>(100, None, None);
    pad.get_axis_ref(GamepadAxis::RightTrigger).set_value(u64::MAX);
    pad.get_axis_ref(GamepadAxis::LeftJoystickX).set_values(64i32, Some(-128), Some(128));
    pad.get_axis_ref(GamepadAxis::RightJoystickX).set_values(128i32, Some(-128), Some(128));
    pad.get_axis_ref(GamepadAxis::RightJoystickY).set_values(-110i32, Some(-128), Some(128));

    let mut state = XboxControllerState::new();
    state.update_from_gamepad(&pad);

    assert!(state.buttons.a.get_value());
    assert!(state.buttons.y.get_value());
    assert!(state.buttons.lb.get_value());
    assert!(state.buttons.dpad_up.get_value());
    assert!(state.buttons.r3.get_value());
    assert!(!state.buttons.b.get_value());
    assert!(!state.buttons.x.get_value());
    assert!(!state.buttons.rb.get_value());
    assert!(!state.buttons.l3.get_value());
    assert!(!state.buttons.start.get_value());
    assert!(!state.buttons.options.get_value());
    assert!(!state.buttons.xbox.get_value());
    assert!(!state.buttons.dpad_down.get_value());
    assert!(!state.buttons.dpad_left.get_value());
    assert!(!state.buttons.dpad_right.get_value());
    assert_eq!(*state.left_trigger.get_value(), 7234017283807667300);
    assert_eq!(*state.right_trigger.get_value(), u64::MAX);
    assert_eq!(*state.left_joystick.x.get_value(), 13835058055282163711);
    assert_eq!(*state.left_joystick.y.get_value(), 0);
    assert_eq!(*state.right_joystick.x.get_value(), u64::MAX);
    assert_eq!(*state.right_joystick.y.get_value(), 1297036692682702847);

    assert_eq!(
        state.to_packet(),
        [
            0x00, 0x14, 0x81, 0x91, 100, 255, 0xff, 0x3f, 0x00, 0x80, 0xff, 0x7f, 0x00, 0x92, 0,
            0, 0, 0, 0, 0
        ]
    );

    // A later update overwrites what an earlier one left.
    state.update_from_gamepad(&Gamepad::new());
    assert_eq!(
        state.to_packet(),
        [
            0x00, 0x14, 0, 0, 0, 0, 0x00, 0x80, 0x00, 0x80, 0x00, 0x80, 0x00, 0x80, 0, 0, 0, 0, 0,
            0
        ]
    );
}

#[test]
fn each_gamepad_button_reaches_its_own_report_bit() {
    let bits: [(GamepadButton, usize, u8); 15] = [
        (GamepadButton::North, 3, 0x80),
        (GamepadButton::East, 3, 0x20),
        (GamepadButton::South, 3, 0x10),
        (GamepadButton::West, 3, 0x40),
        (GamepadButton::LeftShoulderButton, 3, 0x01),
        (GamepadButton::RightShoulderButton, 3, 0x02),
        (GamepadButton::Select, 2, 0x20),
        (GamepadButton::Start, 2, 0x10),
        (GamepadButton::Mode, 3, 0x04),
        (GamepadButton::LeftThumb, 2, 0x40),
        (GamepadButton::RightThumb, 2, 0x80),
        (GamepadButton::DPadUp, 2, 0x01),
        (GamepadButton::DPadDown, 2, 0x02),
        (GamepadButton::DPadLeft, 2, 0x04),
        (GamepadButton::DPadRight, 2, 0x08),
    ];
    for (button, byte, bit) in bits {
        let mut pad = Gamepad::new();
        pad.set_button(button, true);
        let mut state = XboxControllerState::new();
        state.update_from_gamepad(&pad);
        let packet = state.to_packet();
        assert_eq!(packet[byte], bit, "{:?}", button);
        assert_eq!(packet[5 - byte], 0, "{:?}", button);
    }
}

#[test]
fn the_sticks_are_reported_low_byte_first() {
    let mut state = XboxControllerState::new();
    // 0x0102 of -32768..=32767
    state.left_joystick.x = Axis::new::<i16>(0x0102, None, None);
    state.left_joystick.y = Axis::new::<i16>(-2, None, None);
    state.right_joystick.x = Axis::new::<i16>(i16::MIN, None, None);
    state.right_joystick.y = Axis::new::<i16>(i16::MAX, None, None);
    state.left_trigger = Axis::new::<u8>(1, None, None);
    state.right_trigger = Axis::new::<u8>(254, None, None);
    let packet = state.to_packet();
    assert_eq!(packet[4], 1);
    assert_eq!(packet[5], 254);
    assert_eq!(&packet[6..8], &0x0102i16.to_le_bytes());
    assert_eq!(&packet[8..10], &(-2i16).to_le_bytes());
    assert_eq!(&packet[10..12], &i16::MIN.to_le_bytes());
    assert_eq!(&packet[12..14], &i16::MAX.to_le_bytes());
    assert_eq!(&packet[6..14], &[0x02, 0x01, 0xfe, 0xff, 0x00, 0x80, 0xff, 0x7f]);
    assert_eq!(&packet[14..], &[0u8; 6]);
}

#[test]
fn a_key_reaches_the_report_through_the_table() {
    let mut input = XWiiInput::new();
    input.map_event(
        XWiiEvent::Key(WiimoteKey::A, KeyState::Up),
        OutputMapping::Button(GamepadButton::South),
    );
    input.map_event(
        XWiiEvent::Key(WiimoteKey::B, KeyState::Up),
        OutputMapping::Axis(GamepadAxis::RightTrigger),
    );
    let mut state = XboxControllerState::new();
    input.map_event_to_gamepad(XWiiEvent::Key(WiimoteKey::A, KeyState::Down));
    input.map_event_to_gamepad(XWiiEvent::Key(WiimoteKey::B, KeyState::Down));
    state.update_from_gamepad(input.to_gamepad());
    let packet = state.to_packet();
    assert_eq!(packet[3], 0x10);
    assert_eq!(packet[5], 255);
    input.map_event_to_gamepad(XWiiEvent::Key(WiimoteKey::B, KeyState::Up));
    state.update_from_gamepad(input.to_gamepad());
    assert_eq!(state.to_packet()[5], 0);
}
