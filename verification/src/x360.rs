//! The report of an Xbox 360 controller: its buttons and axes, and the
//! twenty bytes that describe them.

use crate::axis::{canonical, Axis, AxisView, JoystickState};
use crate::buttons::{
    bit_is_set, lemma_packed_byte_bit_of, lemma_packed_byte_bit_unused, packed_byte,
    BitPackedButton, BitPackedButtonView, BitPackedButtons,
};
use crate::gamepad::{Gamepad, GamepadAxis, GamepadButton};
use vstd::prelude::*;

verus! {

/// The buttons of the controller, each with the bit at which its byte
/// reports it.
pub struct XboxButtonState {
    pub a: BitPackedButton,
    pub b: BitPackedButton,
    pub x: BitPackedButton,
    pub y: BitPackedButton,
    pub lb: BitPackedButton,
    pub rb: BitPackedButton,
    pub l3: BitPackedButton,
    pub r3: BitPackedButton,
    pub start: BitPackedButton,
    pub options: BitPackedButton,
    pub dpad_up: BitPackedButton,
    pub dpad_down: BitPackedButton,
    pub dpad_left: BitPackedButton,
    pub dpad_right: BitPackedButton,
    pub xbox: BitPackedButton,
}

/// A released button called `name` at bit `addr`, as a view.
pub open spec fn released(name: Seq<char>, addr: u8) -> BitPackedButtonView {
    BitPackedButtonView { name: Some(name), value: false, addr }
}

/// A button called `name` at bit `addr`.
fn named_button(name: &str, addr: u8) -> (r: BitPackedButton)
    requires
        addr <= 7,
    ensures
        r@ == released(name@, addr),
{
    BitPackedButton::new(Some(name.to_owned()), addr)
}

impl XboxButtonState {
    /// The buttons that the third byte of a report holds, in the order in
    /// which they are packed.
    pub open spec fn byte_2_buttons(&self) -> Seq<BitPackedButtonView> {
        seq![
            self.dpad_up@,
            self.dpad_down@,
            self.dpad_left@,
            self.dpad_right@,
            self.start@,
            self.options@,
            self.l3@,
            self.r3@,
        ]
    }

    /// The buttons that the fourth byte of a report holds, in the order in
    /// which they are packed.
    pub open spec fn byte_3_buttons(&self) -> Seq<BitPackedButtonView> {
        seq![
            self.lb@,
            self.rb@,
            self.xbox@,
            self.a@,
            self.b@,
            self.x@,
            self.y@,
        ]
    }

    /// Every button sits at the bit that the report gives it.
    pub open spec fn standard_layout(&self) -> bool {
        &&& self.a@.addr == 4
        &&& self.b@.addr == 5
        &&& self.x@.addr == 6
        &&& self.y@.addr == 7
        &&& self.lb@.addr == 0
        &&& self.rb@.addr == 1
        &&& self.l3@.addr == 6
        &&& self.r3@.addr == 7
        &&& self.start@.addr == 4
        &&& self.options@.addr == 5
        &&& self.dpad_up@.addr == 0
        &&& self.dpad_down@.addr == 1
        &&& self.dpad_left@.addr == 2
        &&& self.dpad_right@.addr == 3
        &&& self.xbox@.addr == 2
    }

    /// All buttons, released, each with its name and its bit.
    pub fn new() -> (r: XboxButtonState)
        ensures
            r.standard_layout(),
            r.a@ == released("A"@, 4),
            r.b@ == released("B"@, 5),
            r.x@ == released("X"@, 6),
            r.y@ == released("Y"@, 7),
            r.lb@ == released("LB"@, 0),
            r.rb@ == released("RB"@, 1),
            r.l3@ == released("L3"@, 6),
            r.r3@ == released("R3"@, 7),
            r.start@ == released("START"@, 4),
            r.options@ == released("OPTIONS"@, 5),
            r.xbox@ == released("XBOX"@, 2),
            r.dpad_up@ == released("DPAD_UP"@, 0),
            r.dpad_down@ == released("DPAD_DOWN"@, 1),
            r.dpad_left@ == released("DPAD_LEFT"@, 2),
            r.dpad_right@ == released("DPAD_RIGHT"@, 3),
    {
        XboxButtonState {
            a: named_button("A", 0x04),
            b: named_button("B", 0x05),
            x: named_button("X", 0x06),
            y: named_button("Y", 0x07),
            lb: named_button("LB", 0x00),
            rb: named_button("RB", 0x01),
            l3: named_button("L3", 0x06),
            r3: named_button("R3", 0x07),
            start: named_button("START", 0x04),
            options: named_button("OPTIONS", 0x05),
            xbox: named_button("XBOX", 0x02),
            dpad_up: named_button("DPAD_UP", 0x00),
            dpad_down: named_button("DPAD_DOWN", 0x01),
            dpad_left: named_button("DPAD_LEFT", 0x02),
            dpad_right: named_button("DPAD_RIGHT", 0x03),
        }
    }

    /// The byte of the directional pad, the menu buttons and the stick
    /// buttons.
    pub fn get_control_byte_2(&self) -> (r: u8)
        ensures
            r == packed_byte(self.byte_2_buttons()),
    {
        let mut buttons: Vec<BitPackedButton> = Vec::new();
        buttons.push(self.dpad_up.clone());
        buttons.push(self.dpad_down.clone());
        buttons.push(self.dpad_left.clone());
        buttons.push(self.dpad_right.clone());
        buttons.push(self.start.clone());
        buttons.push(self.options.clone());
        buttons.push(self.l3.clone());
        buttons.push(self.r3.clone());
        let set = BitPackedButtons { buttons };
        assert(set.views() == self.byte_2_buttons());
        set.to_bytes_repr()
    }

    /// The byte of the shoulder buttons, the guide button and the face
    /// buttons.
    pub fn get_control_byte_3(&self) -> (r: u8)
        ensures
            r == packed_byte(self.byte_3_buttons()),
    {
        let mut buttons: Vec<BitPackedButton> = Vec::new();
        buttons.push(self.lb.clone());
        buttons.push(self.rb.clone());
        buttons.push(self.xbox.clone());
        buttons.push(self.a.clone());
        buttons.push(self.b.clone());
        buttons.push(self.x.clone());
        buttons.push(self.y.clone());
        let set = BitPackedButtons { buttons };
        assert(set.views() == self.byte_3_buttons());
        set.to_bytes_repr()
    }
}

/// In the standard layout no two buttons of a byte share a bit: each bit of
/// the two button bytes is the state of one button, and the one bit that no
/// button has stays clear.
pub proof fn lemma_control_byte_bits(buttons: XboxButtonState)
    requires
        buttons.standard_layout(),
    ensures
        bit_is_set(packed_byte(buttons.byte_2_buttons()), 0) == buttons.dpad_up@.value,
        bit_is_set(packed_byte(buttons.byte_2_buttons()), 1) == buttons.dpad_down@.value,
        bit_is_set(packed_byte(buttons.byte_2_buttons()), 2) == buttons.dpad_left@.value,
        bit_is_set(packed_byte(buttons.byte_2_buttons()), 3) == buttons.dpad_right@.value,
        bit_is_set(packed_byte(buttons.byte_2_buttons()), 4) == buttons.start@.value,
        bit_is_set(packed_byte(buttons.byte_2_buttons()), 5) == buttons.options@.value,
        bit_is_set(packed_byte(buttons.byte_2_buttons()), 6) == buttons.l3@.value,
        bit_is_set(packed_byte(buttons.byte_2_buttons()), 7) == buttons.r3@.value,
        bit_is_set(packed_byte(buttons.byte_3_buttons()), 0) == buttons.lb@.value,
        bit_is_set(packed_byte(buttons.byte_3_buttons()), 1) == buttons.rb@.value,
        bit_is_set(packed_byte(buttons.byte_3_buttons()), 2) == buttons.xbox@.value,
        !bit_is_set(packed_byte(buttons.byte_3_buttons()), 3),
        bit_is_set(packed_byte(buttons.byte_3_buttons()), 4) == buttons.a@.value,
        bit_is_set(packed_byte(buttons.byte_3_buttons()), 5) == buttons.b@.value,
        bit_is_set(packed_byte(buttons.byte_3_buttons()), 6) == buttons.x@.value,
        bit_is_set(packed_byte(buttons.byte_3_buttons()), 7) == buttons.y@.value,
{
    let second = buttons.byte_2_buttons();
    let third = buttons.byte_3_buttons();
    lemma_packed_byte_bit_of(second, 0);
    lemma_packed_byte_bit_of(second, 1);
    lemma_packed_byte_bit_of(second, 2);
    lemma_packed_byte_bit_of(second, 3);
    lemma_packed_byte_bit_of(second, 4);
    lemma_packed_byte_bit_of(second, 5);
    lemma_packed_byte_bit_of(second, 6);
    lemma_packed_byte_bit_of(second, 7);
    lemma_packed_byte_bit_of(third, 0);
    lemma_packed_byte_bit_of(third, 1);
    lemma_packed_byte_bit_of(third, 2);
    lemma_packed_byte_bit_of(third, 3);
    lemma_packed_byte_bit_of(third, 4);
    lemma_packed_byte_bit_of(third, 5);
    lemma_packed_byte_bit_of(third, 6);
    lemma_packed_byte_bit_unused(third, 3);
}

/// The two bytes of `v` in two's complement, the low one first.
pub open spec fn le_bytes(v: i16) -> (u8, u8) {
    let unsigned: int = if v < 0 {
        v + 0x1_0000
    } else {
        v as int
    };
    ((unsigned % 0x100) as u8, (unsigned / 0x100) as u8)
}

/// The two bytes give the number back: the low byte and 256 times the high
/// byte make `v`, or `v` plus 65536 where `v` is negative.
pub proof fn lemma_le_bytes_decode(v: i16)
    ensures
        le_bytes(v).0 + 0x100 * le_bytes(v).1 == if v < 0 {
            v + 0x1_0000
        } else {
            v as int
        },
{
}

/// The two bytes of `v` in two's complement, the low one first.
fn split_le(v: i16) -> (r: (u8, u8))
    ensures
        r == le_bytes(v),
{
    let unsigned: u32 = if v < 0 {
        (v as i32 + 0x1_0000) as u32
    } else {
        v as u32
    };
    ((unsigned % 0x100) as u8, (unsigned / 0x100) as u8)
}

/// The state of the controller that a report describes.
pub struct XboxControllerState {
    pub buttons: XboxButtonState,
    pub left_trigger: Axis,
    pub right_trigger: Axis,
    pub left_joystick: JoystickState,
    pub right_joystick: JoystickState,
}

/// An axis at rest: `value` with the bounds of the canonical domain and
/// without deadzones.
pub open spec fn resting(value: u64) -> AxisView {
    AxisView { value, min: 0, max: u64::MAX, deadzones: None }
}

impl XboxControllerState {
    /// The report of this state: the report id, the length, the two button
    /// bytes, the two triggers as bytes, the four stick axes as signed
    /// 16-bit numbers with the low byte first, and six zero bytes.
    pub open spec fn packet(&self) -> Seq<u8> {
        let lx = le_bytes(self.left_joystick.x@.linear::<i16>() as i16);
        let ly = le_bytes(self.left_joystick.y@.linear::<i16>() as i16);
        let rx = le_bytes(self.right_joystick.x@.linear::<i16>() as i16);
        let ry = le_bytes(self.right_joystick.y@.linear::<i16>() as i16);
        seq![
            0x00u8,
            0x14u8,
            packed_byte(self.buttons.byte_2_buttons()),
            packed_byte(self.buttons.byte_3_buttons()),
            self.left_trigger@.linear::<u8>() as u8,
            self.right_trigger@.linear::<u8>() as u8,
            lx.0,
            lx.1,
            ly.0,
            ly.1,
            rx.0,
            rx.1,
            ry.0,
            ry.1,
            0u8,
            0u8,
            0u8,
            0u8,
            0u8,
            0u8,
        ]
    }

    /// A state with every button released, the triggers at their least
    /// value and the sticks at the image of zero.
    pub fn new() -> (r: XboxControllerState)
        ensures
            r.buttons.a@ == released("A"@, 4),
            r.buttons.b@ == released("B"@, 5),
            r.buttons.x@ == released("X"@, 6),
            r.buttons.y@ == released("Y"@, 7),
            r.buttons.lb@ == released("LB"@, 0),
            r.buttons.rb@ == released("RB"@, 1),
            r.buttons.l3@ == released("L3"@, 6),
            r.buttons.r3@ == released("R3"@, 7),
            r.buttons.start@ == released("START"@, 4),
            r.buttons.options@ == released("OPTIONS"@, 5),
            r.buttons.xbox@ == released("XBOX"@, 2),
            r.buttons.dpad_up@ == released("DPAD_UP"@, 0),
            r.buttons.dpad_down@ == released("DPAD_DOWN"@, 1),
            r.buttons.dpad_left@ == released("DPAD_LEFT"@, 2),
            r.buttons.dpad_right@ == released("DPAD_RIGHT"@, 3),
            r.left_trigger@ == resting(canonical(u8::MIN, None, None)),
            r.right_trigger@ == resting(canonical(u8::MIN, None, None)),
            r.left_joystick.x@ == resting(canonical(0i16, None, None)),
            r.left_joystick.y@ == resting(canonical(0i16, None, None)),
            r.right_joystick.x@ == resting(canonical(0i16, None, None)),
            r.right_joystick.y@ == resting(canonical(0i16, None, None)),
    {
        XboxControllerState {
            buttons: XboxButtonState::new(),
            left_trigger: Axis::new(u8::MIN, None, None),
            right_trigger: Axis::new(u8::MIN, None, None),
            left_joystick: JoystickState::new(
                Axis::new(0i16, None, None),
                Axis::new(0i16, None, None),
            ),
            right_joystick: JoystickState::new(
                Axis::new(0i16, None, None),
                Axis::new(0i16, None, None),
            ),
        }
    }

    /// Takes over the state of `gamepad`: each button takes the state of
    /// the gamepad's button that it stands for, and each axis the value of
    /// the gamepad's axis, mapped linearly and without deadzones.
    pub fn update_from_gamepad(&mut self, gamepad: &Gamepad)
        ensures
            final(self).buttons.y@ == (BitPackedButtonView {
                value: gamepad@.buttons[GamepadButton::North],
                ..old(self).buttons.y@
            }),
            final(self).buttons.b@ == (BitPackedButtonView {
                value: gamepad@.buttons[GamepadButton::East],
                ..old(self).buttons.b@
            }),
            final(self).buttons.a@ == (BitPackedButtonView {
                value: gamepad@.buttons[GamepadButton::South],
                ..old(self).buttons.a@
            }),
            final(self).buttons.x@ == (BitPackedButtonView {
                value: gamepad@.buttons[GamepadButton::West],
                ..old(self).buttons.x@
            }),
            final(self).buttons.lb@ == (BitPackedButtonView {
                value: gamepad@.buttons[GamepadButton::LeftShoulderButton],
                ..old(self).buttons.lb@
            }),
            final(self).buttons.rb@ == (BitPackedButtonView {
                value: gamepad@.buttons[GamepadButton::RightShoulderButton],
                ..old(self).buttons.rb@
            }),
            final(self).buttons.l3@ == (BitPackedButtonView {
                value: gamepad@.buttons[GamepadButton::LeftThumb],
                ..old(self).buttons.l3@
            }),
            final(self).buttons.r3@ == (BitPackedButtonView {
                value: gamepad@.buttons[GamepadButton::RightThumb],
                ..old(self).buttons.r3@
            }),
            final(self).buttons.start@ == (BitPackedButtonView {
                value: gamepad@.buttons[GamepadButton::Start],
                ..old(self).buttons.start@
            }),
            final(self).buttons.options@ == (BitPackedButtonView {
                value: gamepad@.buttons[GamepadButton::Select],
                ..old(self).buttons.options@
            }),
            final(self).buttons.xbox@ == (BitPackedButtonView {
                value: gamepad@.buttons[GamepadButton::Mode],
                ..old(self).buttons.xbox@
            }),
            final(self).buttons.dpad_up@ == (BitPackedButtonView {
                value: gamepad@.buttons[GamepadButton::DPadUp],
                ..old(self).buttons.dpad_up@
            }),
            final(self).buttons.dpad_down@ == (BitPackedButtonView {
                value: gamepad@.buttons[GamepadButton::DPadDown],
                ..old(self).buttons.dpad_down@
            }),
            final(self).buttons.dpad_left@ == (BitPackedButtonView {
                value: gamepad@.buttons[GamepadButton::DPadLeft],
                ..old(self).buttons.dpad_left@
            }),
            final(self).buttons.dpad_right@ == (BitPackedButtonView {
                value: gamepad@.buttons[GamepadButton::DPadRight],
                ..old(self).buttons.dpad_right@
            }),
            final(self).left_joystick.x@ == (AxisView {
                value: gamepad@.axes[GamepadAxis::LeftJoystickX].linear::<u64>() as u64,
                ..old(self).left_joystick.x@
            }),
            final(self).left_joystick.y@ == (AxisView {
                value: gamepad@.axes[GamepadAxis::LeftJoystickY].linear::<u64>() as u64,
                ..old(self).left_joystick.y@
            }),
            final(self).right_joystick.x@ == (AxisView {
                value: gamepad@.axes[GamepadAxis::RightJoystickX].linear::<u64>() as u64,
                ..old(self).right_joystick.x@
            }),
            final(self).right_joystick.y@ == (AxisView {
                value: gamepad@.axes[GamepadAxis::RightJoystickY].linear::<u64>() as u64,
                ..old(self).right_joystick.y@
            }),
            final(self).left_trigger@ == (AxisView {
                value: gamepad@.axes[GamepadAxis::LeftTrigger].linear::<u64>() as u64,
                ..old(self).left_trigger@
            }),
            final(self).right_trigger@ == (AxisView {
                value: gamepad@.axes[GamepadAxis::RightTrigger].linear::<u64>() as u64,
                ..old(self).right_trigger@
            }),
    {
        self.buttons.y.set_value(gamepad.get_button(GamepadButton::North));
        self.buttons.b.set_value(gamepad.get_button(GamepadButton::East));
        self.buttons.a.set_value(gamepad.get_button(GamepadButton::South));
        self.buttons.x.set_value(gamepad.get_button(GamepadButton::West));
        self.buttons.lb.set_value(gamepad.get_button(GamepadButton::LeftShoulderButton));
        self.buttons.rb.set_value(gamepad.get_button(GamepadButton::RightShoulderButton));
        self.buttons.l3.set_value(gamepad.get_button(GamepadButton::LeftThumb));
        self.buttons.r3.set_value(gamepad.get_button(GamepadButton::RightThumb));
        self.buttons.start.set_value(gamepad.get_button(GamepadButton::Start));
        self.buttons.options.set_value(gamepad.get_button(GamepadButton::Select));
        self.buttons.xbox.set_value(gamepad.get_button(GamepadButton::Mode));
        self.buttons.dpad_up.set_value(gamepad.get_button(GamepadButton::DPadUp));
        self.buttons.dpad_down.set_value(gamepad.get_button(GamepadButton::DPadDown));
        self.buttons.dpad_left.set_value(gamepad.get_button(GamepadButton::DPadLeft));
        self.buttons.dpad_right.set_value(gamepad.get_button(GamepadButton::DPadRight));
        self.left_joystick.x.set_value(gamepad.get_axis(GamepadAxis::LeftJoystickX).convert_into(Some(false)));
        self.left_joystick.y.set_value(gamepad.get_axis(GamepadAxis::LeftJoystickY).convert_into(Some(false)));
        self.right_joystick.x.set_value(gamepad.get_axis(GamepadAxis::RightJoystickX).convert_into(Some(false)));
        self.right_joystick.y.set_value(gamepad.get_axis(GamepadAxis::RightJoystickY).convert_into(Some(false)));
        self.left_trigger.set_value(gamepad.get_axis(GamepadAxis::LeftTrigger).convert_into(Some(false)));
        self.right_trigger.set_value(gamepad.get_axis(GamepadAxis::RightTrigger).convert_into(Some(false)));
    }

    /// The report of this state.
    pub fn to_packet(&self) -> (r: [u8; 20])
        ensures
            r@ == self.packet(),
    {
        let mut packet = [0u8; 20];
        packet[0] = 0x00;
        packet[1] = 0x14;
        packet[2] = self.buttons.get_control_byte_2();
        packet[3] = self.buttons.get_control_byte_3();
        packet[4] = self.left_trigger.convert_into(Some(false));
        packet[5] = self.right_trigger.convert_into(Some(false));
        let (low, high) = split_le(self.left_joystick.x.convert_into::<i16>(Some(false)));
        packet[6] = low;
        packet[7] = high;
        let (low, high) = split_le(self.left_joystick.y.convert_into::<i16>(Some(false)));
        packet[8] = low;
        packet[9] = high;
        let (low, high) = split_le(self.right_joystick.x.convert_into::<i16>(Some(false)));
        packet[10] = low;
        packet[11] = high;
        let (low, high) = split_le(self.right_joystick.y.convert_into::<i16>(Some(false)));
        packet[12] = low;
        packet[13] = high;
        packet
    }
}

} // verus!
