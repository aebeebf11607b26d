//! The canonical gamepad: every button and every axis of it, always present.

use crate::axis::{Axis, AxisView};
use vstd::prelude::*;

verus! {

/// The buttons of the canonical gamepad.
#[derive(Clone, Copy, Debug, PartialEq, Eq, Hash, Structural)]
pub enum GamepadButton {
    North,
    East,
    South,
    West,
    LeftShoulderButton,
    RightShoulderButton,
    Select,
    Start,
    Mode,
    LeftThumb,
    RightThumb,
    DPadUp,
    DPadDown,
    DPadLeft,
    DPadRight,
}

impl GamepadButton {
    /// The place of the variant among the 15 of them, in the order of declaration.
    pub open spec fn position(self) -> int {
        match self {
            GamepadButton::North => 0,
            GamepadButton::East => 1,
            GamepadButton::South => 2,
            GamepadButton::West => 3,
            GamepadButton::LeftShoulderButton => 4,
            GamepadButton::RightShoulderButton => 5,
            GamepadButton::Select => 6,
            GamepadButton::Start => 7,
            GamepadButton::Mode => 8,
            GamepadButton::LeftThumb => 9,
            GamepadButton::RightThumb => 10,
            GamepadButton::DPadUp => 11,
            GamepadButton::DPadDown => 12,
            GamepadButton::DPadLeft => 13,
            GamepadButton::DPadRight => 14,
        }
    }

    /// The place of the variant, as an index.
    pub fn index(self) -> (r: usize)
        ensures
            r == self.position(),
    {
        match self {
            GamepadButton::North => 0,
            GamepadButton::East => 1,
            GamepadButton::South => 2,
            GamepadButton::West => 3,
            GamepadButton::LeftShoulderButton => 4,
            GamepadButton::RightShoulderButton => 5,
            GamepadButton::Select => 6,
            GamepadButton::Start => 7,
            GamepadButton::Mode => 8,
            GamepadButton::LeftThumb => 9,
            GamepadButton::RightThumb => 10,
            GamepadButton::DPadUp => 11,
            GamepadButton::DPadDown => 12,
            GamepadButton::DPadLeft => 13,
            GamepadButton::DPadRight => 14,
        }
    }

    /// Every variant, each at its place.
    pub fn all() -> (r: [GamepadButton; 15])
        ensures
            forall|i: int| 0 <= i < 15 ==> (#[trigger] r@[i]).position() == i,
    {
        [
            GamepadButton::North,
            GamepadButton::East,
            GamepadButton::South,
            GamepadButton::West,
            GamepadButton::LeftShoulderButton,
            GamepadButton::RightShoulderButton,
            GamepadButton::Select,
            GamepadButton::Start,
            GamepadButton::Mode,
            GamepadButton::LeftThumb,
            GamepadButton::RightThumb,
            GamepadButton::DPadUp,
            GamepadButton::DPadDown,
            GamepadButton::DPadLeft,
            GamepadButton::DPadRight,
        ]
    }
}

/// The axes of the canonical gamepad.
#[derive(Clone, Copy, Debug, PartialEq, Eq, Hash, Structural)]
pub enum GamepadAxis {
    LeftTrigger,
    RightTrigger,
    LeftJoystickX,
    LeftJoystickY,
    RightJoystickX,
    RightJoystickY,
}

impl GamepadAxis {
    /// The place of the variant among the 6 of them, in the order of declaration.
    pub open spec fn position(self) -> int {
        match self {
            GamepadAxis::LeftTrigger => 0,
            GamepadAxis::RightTrigger => 1,
            GamepadAxis::LeftJoystickX => 2,
            GamepadAxis::LeftJoystickY => 3,
            GamepadAxis::RightJoystickX => 4,
            GamepadAxis::RightJoystickY => 5,
        }
    }

    /// The place of the variant, as an index.
    pub fn index(self) -> (r: usize)
        ensures
            r == self.position(),
    {
        match self {
            GamepadAxis::LeftTrigger => 0,
            GamepadAxis::RightTrigger => 1,
            GamepadAxis::LeftJoystickX => 2,
            GamepadAxis::LeftJoystickY => 3,
            GamepadAxis::RightJoystickX => 4,
            GamepadAxis::RightJoystickY => 5,
        }
    }

    /// Every variant, each at its place.
    pub fn all() -> (r: [GamepadAxis; 6])
        ensures
            forall|i: int| 0 <= i < 6 ==> (#[trigger] r@[i]).position() == i,
    {
        [
            GamepadAxis::LeftTrigger,
            GamepadAxis::RightTrigger,
            GamepadAxis::LeftJoystickX,
            GamepadAxis::LeftJoystickY,
            GamepadAxis::RightJoystickX,
            GamepadAxis::RightJoystickY,
        ]
    }
}

/// What a gamepad holds: the state of every button and of every axis.
pub struct GamepadView {
    pub buttons: Map<GamepadButton, bool>,
    pub axes: Map<GamepadAxis, AxisView>,
}

/// The canonical gamepad. Every button and every axis has its entry from
/// construction on, so no lookup fails.
pub struct Gamepad {
    buttons: [bool; 15],
    axes: [Axis; 6],
}

impl View for Gamepad {
    type V = GamepadView;

    closed spec fn view(&self) -> GamepadView {
        GamepadView {
            buttons: Map::new(
                |b: GamepadButton| true,
                |b: GamepadButton| self.buttons@[b.position()],
            ),
            axes: Map::new(|a: GamepadAxis| true, |a: GamepadAxis| self.axes@[a.position()]@),
        }
    }
}

impl GamepadView {
    /// Every button and every axis has an entry.
    pub open spec fn complete(self) -> bool {
        &&& forall|b: GamepadButton| self.buttons.contains_key(b)
        &&& forall|a: GamepadAxis| self.axes.contains_key(a)
    }
}

impl Gamepad {
    /// Every button and every axis of a gamepad has an entry.
    pub proof fn lemma_complete(&self)
        ensures
            self@.complete(),
    {
    }

    /// A gamepad with every button released and every axis at the least
    /// value of the canonical domain, without deadzones.
    pub fn new() -> (r: Gamepad)
        ensures
            r@.complete(),
            forall|b: GamepadButton| !(#[trigger] r@.buttons[b]),
            forall|a: GamepadAxis| #[trigger]
                r@.axes[a] == (AxisView { value: 0, min: 0, max: u64::MAX, deadzones: None }),
    {
        Gamepad {
            buttons: [false; 15],
            axes: [
                Axis::default(),
                Axis::default(),
                Axis::default(),
                Axis::default(),
                Axis::default(),
                Axis::default(),
            ],
        }
    }

    /// Presses or releases `button`.
    pub fn set_button(&mut self, button: GamepadButton, value: bool)
        ensures
            final(self)@.buttons == old(self)@.buttons.insert(button, value),
            final(self)@.axes == old(self)@.axes,
    {
        self.buttons[button.index()] = value;
    }

    /// Whether `button` is pressed.
    pub fn get_button(&self, button: GamepadButton) -> (r: bool)
        ensures
            r == self@.buttons[button],
    {
        self.buttons[button.index()]
    }

    /// The axis `axis`, to read.
    pub fn get_axis(&self, axis: GamepadAxis) -> (r: &Axis)
        ensures
            r@ == self@.axes[axis],
    {
        &self.axes[axis.index()]
    }

    /// The axis `axis`, to change in place: what the caller leaves in it is
    /// what the gamepad then holds for `axis`, and nothing else changes.
    pub fn get_axis_ref(&mut self, axis: GamepadAxis) -> (r: &mut Axis)
        ensures
            r@ == old(self)@.axes[axis],
            final(self)@.buttons == old(self)@.buttons,
            final(self)@.axes == old(self)@.axes.insert(axis, final(r)@),
    {
        &mut self.axes[axis.index()]
    }
}

/// The kind of a raw control.
pub enum InputType {
    Button,
    Axis,
}

/// Where a raw control is routed to.
#[derive(Clone, Copy, Debug, PartialEq, Eq, Structural)]
pub enum OutputMapping {
    Button(GamepadButton),
    Axis(GamepadAxis),
}

/// One binding of a raw control, named by `input`, to a button or an axis
/// of the canonical gamepad.
pub struct ControllerMapping<T> where T: Clone {
    pub input: T,
    pub output: OutputMapping,
}

/// A source of input that keeps a canonical gamepad up to date.
pub trait ControllerInput {
    type ControllerType;

    /// The gamepad as the events so far have left it.
    fn to_gamepad(&mut self) -> &Gamepad;

    /// Readies the source to deliver events.
    fn prep_for_input_events(&mut self);
}

} // verus!
