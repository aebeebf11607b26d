//! The mapping table of a Wii Remote with a Nunchuk: bindings from raw
//! controls to the canonical gamepad, and the dispatch of raw events
//! through them.

use crate::axis::{canonical, canonical_zone, Axis, AxisView};
use crate::gamepad::{
    ControllerMapping, Gamepad, GamepadAxis, GamepadButton, GamepadView, OutputMapping,
};
use std::ops::Range;
use vstd::prelude::*;
use vstd::std_specs::cmp::PartialEqSpecImpl;

verus! {

/// The keys of a Wii Remote.
#[derive(Clone, Copy, Debug, PartialEq, Eq, Structural)]
pub enum WiimoteKey {
    Left,
    Right,
    Up,
    Down,
    A,
    B,
    Home,
    Plus,
    Minus,
    One,
    Two,
}

/// The keys of a Nunchuk.
#[derive(Clone, Copy, Debug, PartialEq, Eq, Structural)]
pub enum NunchukKey {
    C,
    Z,
}

/// The state of a key.
#[derive(Clone, Copy, Debug, PartialEq, Eq, Structural)]
pub enum KeyState {
    /// The key is released.
    Up,
    /// The key is held down.
    Down,
    /// The key is held down, as the event before said already.
    AutoRepeat,
}

impl KeyState {
    /// Whether the key counts as pressed: it does in every state but `Up`.
    pub open spec fn pressed(self) -> bool {
        self != KeyState::Up
    }

    /// Whether the key counts as pressed.
    pub fn is_pressed(self) -> (r: bool)
        ensures
            r == self.pressed(),
    {
        match self {
            KeyState::Up => false,
            KeyState::Down => true,
            KeyState::AutoRepeat => true,
        }
    }
}

/// A raw event of the device. In a binding it names a control, and what it
/// carries besides (a state, a position) is of no account there.
#[derive(Clone, Copy, Debug)]
pub enum XWiiEvent {
    /// A key of the Wii Remote changed its state.
    Key(WiimoteKey, KeyState),
    /// A key of the Nunchuk changed its state.
    NunchukKey(NunchukKey, KeyState),
    /// The stick of the Nunchuk moved.
    NunchukMove { x: i32, y: i32, x_acceleration: i32, y_acceleration: i32 },
    /// Any other event: no binding routes it.
    Other,
}

impl XWiiEvent {
    /// Whether two events come from the same control: the same key of the
    /// Wii Remote, the same key of the Nunchuk, or the stick of the
    /// Nunchuk. States and positions are not compared.
    pub open spec fn same_control(self, other: XWiiEvent) -> bool {
        match (self, other) {
            (XWiiEvent::Key(key1, _), XWiiEvent::Key(key2, _)) => key1 == key2,
            (XWiiEvent::NunchukKey(key1, _), XWiiEvent::NunchukKey(key2, _)) => key1 == key2,
            (XWiiEvent::NunchukMove { .. }, XWiiEvent::NunchukMove { .. }) => true,
            _ => false,
        }
    }
}

impl PartialEq for XWiiEvent {
    fn eq(&self, other: &Self) -> (r: bool) {
        match (self, other) {
            (XWiiEvent::Key(key1, _), XWiiEvent::Key(key2, _)) => *key1 == *key2,
            (XWiiEvent::NunchukKey(key1, _), XWiiEvent::NunchukKey(key2, _)) => *key1 == *key2,
            (XWiiEvent::NunchukMove { .. }, XWiiEvent::NunchukMove { .. }) => true,
            _ => false,
        }
    }
}

impl PartialEqSpecImpl for XWiiEvent {
    open spec fn obeys_eq_spec() -> bool {
        true
    }

    open spec fn eq_spec(&self, other: &Self) -> bool {
        self.same_control(*other)
    }
}

/// What a wait for the next event of a device brought.
#[derive(Clone, Copy, Debug)]
pub enum Polled {
    /// An event arrived.
    Event(XWiiEvent),
    /// The wait ran out before an event arrived.
    TimedOut,
    /// The device has no more events.
    Ended,
    /// The events could not be read.
    Failed,
}

/// What is said of events that could not be read.
pub open spec fn read_error() -> Seq<char> {
    "Error reading events."@
}

/// Finds the Wii Remotes that are connected.
pub struct XWiiHandler {}

impl XWiiHandler {
    /// A handler; it holds nothing.
    pub fn new() -> (r: XWiiHandler)
        ensures
            r == (XWiiHandler {  }),
    {
        XWiiHandler {  }
    }
}

/// The least and the greatest sample that a stick has delivered so far.
#[derive(Clone, Copy, Debug, PartialEq, Eq, Structural)]
pub struct ObservedRange {
    pub min: i32,
    pub max: i32,
}

/// The observed range after `sample`: the first sample is both ends, a
/// later one moves an end only outward.
pub open spec fn widened(seen: Option<ObservedRange>, sample: i32) -> ObservedRange {
    match seen {
        None => ObservedRange { min: sample, max: sample },
        Some(r) => ObservedRange {
            min: if sample < r.min {
                sample
            } else {
                r.min
            },
            max: if sample > r.max {
                sample
            } else {
                r.max
            },
        },
    }
}

/// Half the width of the deadzone at rest: `percent` hundredths of the
/// width of the observed range, rounded down.
pub open spec fn rest_zone_reach(range: ObservedRange, percent: u8) -> int {
    (percent * (range.max - range.min)) / 100
}

/// The transient axis of a stick sample: the sample on the observed range,
/// with one deadzone around zero.
pub open spec fn stick_axis(sample: i32, range: ObservedRange, percent: u8) -> AxisView {
    let reach = rest_zone_reach(range, percent) as i64;
    AxisView {
        value: canonical(sample, Some(range.min), Some(range.max)),
        min: 0,
        max: u64::MAX,
        deadzones: Some(
            seq![
                canonical_zone(
                    Range { start: (-reach) as i64, end: reach },
                    range.min as i64,
                    range.max as i64,
                    0,
                    u64::MAX,
                ),
            ],
        ),
    }
}

/// The canonical value that a stick sample leaves in the axis it is bound
/// to.
pub open spec fn stick_output(sample: i32, range: ObservedRange, percent: u8) -> u64 {
    stick_axis(sample, range, percent).converted::<u64>(true) as u64
}

/// The gamepad `pad` with the value of `axis` replaced.
pub open spec fn with_axis_value(pad: GamepadView, axis: GamepadAxis, value: u64) -> GamepadView {
    GamepadView {
        buttons: pad.buttons,
        axes: pad.axes.insert(axis, AxisView { value, ..pad.axes[axis] }),
    }
}

/// The gamepad after a key event reached a binding to `output`: a button
/// takes the state of the key, an axis snaps to its maximum when the key is
/// pressed and to its minimum when it is released.
pub open spec fn key_routed(pad: GamepadView, output: OutputMapping, pressed: bool) -> GamepadView {
    match output {
        OutputMapping::Axis(axis) => with_axis_value(
            pad,
            axis,
            if pressed {
                pad.axes[axis].max
            } else {
                pad.axes[axis].min
            },
        ),
        OutputMapping::Button(button) => GamepadView {
            buttons: pad.buttons.insert(button, pressed),
            axes: pad.axes,
        },
    }
}

/// The gamepad after a stick event reached a binding to `output`: a
/// horizontal stick axis takes `x_value`, a vertical one `y_value`, and any
/// other output is left alone.
pub open spec fn stick_routed(
    pad: GamepadView,
    output: OutputMapping,
    x_value: u64,
    y_value: u64,
) -> GamepadView {
    match output {
        OutputMapping::Axis(axis) => match axis {
            GamepadAxis::LeftJoystickX | GamepadAxis::RightJoystickX => with_axis_value(
                pad,
                axis,
                x_value,
            ),
            GamepadAxis::LeftJoystickY | GamepadAxis::RightJoystickY => with_axis_value(
                pad,
                axis,
                y_value,
            ),
            _ => pad,
        },
        OutputMapping::Button(_) => pad,
    }
}

/// What the mapping table holds.
pub struct XWiiInputView {
    pub gamepad: GamepadView,
    pub mappings: Seq<ControllerMapping<XWiiEvent>>,
    pub nunchuck_x: Option<ObservedRange>,
    pub nunchuck_y: Option<ObservedRange>,
    pub deadzone_percentage: u8,
}

impl XWiiInputView {
    /// Whether some binding names the control of `event`.
    pub open spec fn routes(self, event: XWiiEvent) -> bool {
        exists|i: int|
            0 <= i < self.mappings.len() && (#[trigger] self.mappings[i]).input.same_control(event)
    }

    /// The observed ranges after `event`: a stick event that some binding
    /// routes widens them, any other event leaves them.
    pub open spec fn calibrated(self, event: XWiiEvent) -> (
        Option<ObservedRange>,
        Option<ObservedRange>,
    ) {
        match event {
            XWiiEvent::NunchukMove { x, y, .. } => if self.routes(event) {
                (Some(widened(self.nunchuck_x, x)), Some(widened(self.nunchuck_y, y)))
            } else {
                (self.nunchuck_x, self.nunchuck_y)
            },
            _ => (self.nunchuck_x, self.nunchuck_y),
        }
    }

    /// The gamepad `pad` after `event` reached a binding to `output`.
    pub open spec fn routed(self, pad: GamepadView, output: OutputMapping, event: XWiiEvent)
        -> GamepadView {
        match event {
            XWiiEvent::Key(_, state) => key_routed(pad, output, state.pressed()),
            XWiiEvent::NunchukKey(_, state) => key_routed(pad, output, state.pressed()),
            XWiiEvent::NunchukMove { x, y, .. } => stick_routed(
                pad,
                output,
                stick_output(x, widened(self.nunchuck_x, x), self.deadzone_percentage),
                stick_output(y, widened(self.nunchuck_y, y), self.deadzone_percentage),
            ),
            XWiiEvent::Other => pad,
        }
    }

    /// The gamepad after `event` went through the first `count` bindings,
    /// in the order in which they were made: every binding that names the
    /// control of the event takes effect, not only the first.
    pub open spec fn dispatched_through(self, event: XWiiEvent, count: int) -> GamepadView
        decreases count,
    {
        if count <= 0 {
            self.gamepad
        } else {
            let before = self.dispatched_through(event, count - 1);
            let binding = self.mappings[count - 1];
            if binding.input.same_control(event) {
                self.routed(before, binding.output, event)
            } else {
                before
            }
        }
    }

    /// The table after `event`.
    pub open spec fn dispatched(self, event: XWiiEvent) -> XWiiInputView {
        XWiiInputView {
            gamepad: self.dispatched_through(event, self.mappings.len() as int),
            mappings: self.mappings,
            nunchuck_x: self.calibrated(event).0,
            nunchuck_y: self.calibrated(event).1,
            deadzone_percentage: self.deadzone_percentage,
        }
    }
}

/// The mapping table of one device, with the gamepad that it feeds and the
/// ranges that the stick of the Nunchuk has covered so far.
pub struct XWiiInput {
    gamepad: Gamepad,
    mappings: Vec<ControllerMapping<XWiiEvent>>,
    nunchuck_x: Option<ObservedRange>,
    nunchuck_y: Option<ObservedRange>,
    deadzone_percentage: u8,
}

impl View for XWiiInput {
    type V = XWiiInputView;

    closed spec fn view(&self) -> XWiiInputView {
        XWiiInputView {
            gamepad: self.gamepad@,
            mappings: self.mappings@,
            nunchuck_x: self.nunchuck_x,
            nunchuck_y: self.nunchuck_y,
            deadzone_percentage: self.deadzone_percentage,
        }
    }
}

/// The observed range after `sample`.
fn widen(seen: Option<ObservedRange>, sample: i32) -> (r: ObservedRange)
    ensures
        r == widened(seen, sample),
        r.min <= sample <= r.max,
{
    match seen {
        None => ObservedRange { min: sample, max: sample },
        Some(r) => ObservedRange {
            min: if sample < r.min {
                sample
            } else {
                r.min
            },
            max: if sample > r.max {
                sample
            } else {
                r.max
            },
        },
    }
}

/// The canonical value that a stick sample leaves in the axis it is bound
/// to: the sample on the observed range, resolved by a deadzone around
/// zero.
fn stick_value(sample: i32, range: ObservedRange, percent: u8) -> (r: u64)
    requires
        range.min <= range.max,
    ensures
        r == stick_output(sample, range, percent),
{
    let mut axis = Axis::new(sample, Some(range.min), Some(range.max));
    let width: i64 = range.max as i64 - range.min as i64;
    assert(0 <= percent * width <= 255 * 0x1_0000_0000) by (nonlinear_arith)
        requires
            0 <= width <= 0x1_0000_0000,
            0 <= percent <= 255,
    ;
    let reach: i64 = (percent as i64 * width) / 100;
    assert(reach == rest_zone_reach(range, percent));
    let mut raw_zones: Vec<Range<i64>> = Vec::new();
    raw_zones.push(Range { start: -reach, end: reach });
    let ghost raw_zone = raw_zones@[0];
    let zones = axis.make_deadzone(raw_zones, range.min as i64, range.max as i64);
    assert(zones@[0] == canonical_zone(raw_zone, range.min as i64, range.max as i64, 0, u64::MAX));
    assert(zones@ == stick_axis(sample, range, percent).deadzones.unwrap());
    axis.set_deadzones(zones);
    axis.convert_into(Some(true))
}

/// Stores `value` in `axis` of `pad`.
fn store_axis_value(pad: &mut Gamepad, axis: GamepadAxis, value: u64)
    ensures
        final(pad)@ == with_axis_value(old(pad)@, axis, value),
{
    let output_axis = pad.get_axis_ref(axis);
    output_axis.set_value(value);
    assert(pad@.axes == with_axis_value(old(pad)@, axis, value).axes);
}

/// Routes a key event to `output`.
fn route_key(pad: &mut Gamepad, output: OutputMapping, pressed: bool)
    ensures
        final(pad)@ == key_routed(old(pad)@, output, pressed),
{
    match output {
        OutputMapping::Axis(gamepad_axis) => {
            let output_axis = pad.get_axis(gamepad_axis);
            let output_value: u64 = if pressed {
                *output_axis.get_max()
            } else {
                *output_axis.get_min()
            };
            store_axis_value(pad, gamepad_axis, output_value);
        },
        OutputMapping::Button(gamepad_button) => {
            pad.set_button(gamepad_button, pressed);
            assert(pad@.buttons == key_routed(old(pad)@, output, pressed).buttons);
        },
    }
}

/// Routes a stick event to `output`.
fn route_stick(pad: &mut Gamepad, output: OutputMapping, x_value: u64, y_value: u64)
    ensures
        final(pad)@ == stick_routed(old(pad)@, output, x_value, y_value),
{
    match output {
        OutputMapping::Axis(gamepad_axis) => {
            match gamepad_axis {
                GamepadAxis::LeftJoystickX | GamepadAxis::RightJoystickX => {
                    store_axis_value(pad, gamepad_axis, x_value);
                },
                GamepadAxis::LeftJoystickY | GamepadAxis::RightJoystickY => {
                    store_axis_value(pad, gamepad_axis, y_value);
                },
                _ => {},
            }
        },
        OutputMapping::Button(_gamepad_button) => {},
    }
}

impl XWiiInput {
    /// A table without bindings, over a fresh gamepad, with a deadzone at
    /// rest of five hundredths of the observed range.
    pub fn new() -> (r: XWiiInput)
        ensures
            r@.mappings.len() == 0,
            r@.nunchuck_x.is_none(),
            r@.nunchuck_y.is_none(),
            r@.deadzone_percentage == 5,
            r@.gamepad.complete(),
            forall|b: GamepadButton| !(#[trigger] r@.gamepad.buttons[b]),
            forall|a: GamepadAxis| #[trigger]
                r@.gamepad.axes[a] == (AxisView {
                    value: 0,
                    min: 0,
                    max: u64::MAX,
                    deadzones: None,
                }),
    {
        XWiiInput {
            gamepad: Gamepad::new(),
            mappings: Vec::new(),
            nunchuck_x: None,
            nunchuck_y: None,
            deadzone_percentage: 5,
        }
    }

    /// Sets the width of the deadzone at rest, in hundredths of the
    /// observed range.
    pub fn set_deadzone_percentage(&mut self, percent: u8)
        ensures
            final(self)@ == (XWiiInputView { deadzone_percentage: percent, ..old(self)@ }),
    {
        self.deadzone_percentage = percent;
    }

    /// Binds the control that `event` names to `to_mapping`, after the
    /// bindings made so far.
    pub fn map_event(&mut self, event: XWiiEvent, to_mapping: OutputMapping)
        ensures
            final(self)@ == (XWiiInputView {
                mappings: old(self)@.mappings.push(
                    ControllerMapping { input: event, output: to_mapping },
                ),
                ..old(self)@
            }),
    {
        self.mappings.push(ControllerMapping { input: event, output: to_mapping });
    }

    /// The gamepad as the events so far have left it.
    pub fn to_gamepad(&self) -> (r: &Gamepad)
        ensures
            r@ == self@.gamepad,
    {
        &self.gamepad
    }

    /// Takes what a wait for the next event brought: an event goes through
    /// the table, and the result says whether there was one. Only a failure
    /// to read is an error, and it leaves the table as it is, as a wait
    /// without an event does.
    pub fn get_next_inputs(&mut self, polled: Polled) -> (r: Result<bool, &'static str>)
        ensures
            match polled {
                Polled::Event(event) => {
                    &&& r == Ok::<bool, &'static str>(true)
                    &&& final(self)@ == old(self)@.dispatched(event)
                },
                Polled::TimedOut | Polled::Ended => {
                    &&& r == Ok::<bool, &'static str>(false)
                    &&& final(self)@ == old(self)@
                },
                Polled::Failed => {
                    &&& r matches Err(message) && message@ == read_error()
                    &&& final(self)@ == old(self)@
                },
            },
    {
        match polled {
            Polled::Event(event) => {
                self.map_event_to_gamepad(event);
                Ok(true)
            },
            Polled::TimedOut => Ok(false),
            Polled::Ended => Ok(false),
            Polled::Failed => Err("Error reading events."),
        }
    }

    /// Sends `event` through the table: every binding that names its
    /// control, in the order of binding, changes the gamepad.
    pub fn map_event_to_gamepad(&mut self, event: XWiiEvent)
        ensures
            final(self)@ == old(self)@.dispatched(event),
    {
        let ghost before = self@;
        let mut i: usize = 0;
        while i < self.mappings.len()
            invariant
                i <= self.mappings.len(),
                self.mappings@ == before.mappings,
                self.deadzone_percentage == before.deadzone_percentage,
                self.gamepad@ == before.dispatched_through(event, i as int),
                match event {
                    XWiiEvent::NunchukMove { x, y, .. } => if exists|j: int|
                        0 <= j < i && (#[trigger] before.mappings[j]).input.same_control(event) {
                        self.nunchuck_x == Some(widened(before.nunchuck_x, x)) && self.nunchuck_y
                            == Some(widened(before.nunchuck_y, y))
                    } else {
                        self.nunchuck_x == before.nunchuck_x && self.nunchuck_y
                            == before.nunchuck_y
                    },
                    _ => self.nunchuck_x == before.nunchuck_x && self.nunchuck_y
                        == before.nunchuck_y,
                },
            decreases self.mappings.len() - i,
        {
            let input = self.mappings[i].input;
            let output = self.mappings[i].output;
            if input != event {
                i += 1;
                continue ;
            }
            assert(before.mappings[i as int].input.same_control(event));
            match event {
                XWiiEvent::Key(_key, key_state) => {
                    route_key(&mut self.gamepad, output, key_state.is_pressed());
                },
                XWiiEvent::NunchukKey(_key, key_state) => {
                    route_key(&mut self.gamepad, output, key_state.is_pressed());
                },
                XWiiEvent::NunchukMove { x, y, x_acceleration: _, y_acceleration: _ } => {
                    let x_range = widen(self.nunchuck_x, x);
                    let y_range = widen(self.nunchuck_y, y);
                    proof {
                        lemma_widened(before.nunchuck_x, x);
                        lemma_widened(before.nunchuck_y, y);
                    }
                    self.nunchuck_x = Some(x_range);
                    self.nunchuck_y = Some(y_range);
                    let x_value = stick_value(x, x_range, self.deadzone_percentage);
                    let y_value = stick_value(y, y_range, self.deadzone_percentage);
                    route_stick(&mut self.gamepad, output, x_value, y_value);
                },
                XWiiEvent::Other => {},
            }
            i += 1;
        }
        proof {
            let after = self@;
            let expected = before.dispatched(event);
            if !before.routes(event) {
                assert(forall|j: int|
                    0 <= j < i ==> !(#[trigger] before.mappings[j]).input.same_control(event));
            }
            assert(after.mappings == expected.mappings);
        }
    }
}

/// The observed range only grows: it holds the sample and all that it held
/// before, and a sample that it holds already leaves it as it is.
pub proof fn lemma_widened(seen: Option<ObservedRange>, sample: i32)
    ensures
        widened(seen, sample).min <= sample <= widened(seen, sample).max,
        seen matches Some(r) ==> widened(seen, sample).min <= r.min && r.max <= widened(
            seen,
            sample,
        ).max,
        seen matches Some(r) ==> (r.min <= sample <= r.max ==> widened(seen, sample) == r),
        widened(Some(widened(seen, sample)), sample) == widened(seen, sample),
{
}

/// An event whose control no binding names leaves the table as it is.
pub proof fn lemma_unrouted_event(table: XWiiInputView, event: XWiiEvent)
    requires
        !table.routes(event),
    ensures
        table.dispatched(event) == table,
{
    lemma_unrouted_through(table, event, table.mappings.len() as int);
}

/// An event whose control none of the first `count` bindings names leaves
/// the gamepad as it is on its way through them.
proof fn lemma_unrouted_through(table: XWiiInputView, event: XWiiEvent, count: int)
    requires
        0 <= count <= table.mappings.len(),
        forall|i: int| 0 <= i < count ==> !(#[trigger] table.mappings[i]).input.same_control(event),
    ensures
        table.dispatched_through(event, count) == table.gamepad,
    decreases count,
{
    if count > 0 {
        lemma_unrouted_through(table, event, count - 1);
    }
}

/// A key that is bound once, to an axis, snaps that axis to its maximum
/// when it is pressed and to its minimum when it is released, and leaves
/// the rest of the gamepad alone.
pub proof fn lemma_key_snaps_axis(
    table: XWiiInputView,
    key: WiimoteKey,
    state: KeyState,
    index: int,
    axis: GamepadAxis,
)
    requires
        0 <= index < table.mappings.len(),
        table.mappings[index].input.same_control(XWiiEvent::Key(key, state)),
        table.mappings[index].output == OutputMapping::Axis(axis),
        forall|i: int|
            0 <= i < table.mappings.len() && i != index ==> !(#[trigger] table.mappings[i])
                .input.same_control(XWiiEvent::Key(key, state)),
    ensures
        table.dispatched(XWiiEvent::Key(key, state)).gamepad == with_axis_value(
            table.gamepad,
            axis,
            if state.pressed() {
                table.gamepad.axes[axis].max
            } else {
                table.gamepad.axes[axis].min
            },
        ),
{
    let event = XWiiEvent::Key(key, state);
    lemma_unrouted_through(table, event, index);
    lemma_single_route(table, event, index, table.mappings.len() as int);
}

/// Past the one binding at `index` that names the control of `event`, the
/// gamepad stays as that binding left it.
proof fn lemma_single_route(table: XWiiInputView, event: XWiiEvent, index: int, count: int)
    requires
        0 <= index < count <= table.mappings.len(),
        forall|i: int|
            0 <= i < table.mappings.len() && i != index ==> !(#[trigger] table.mappings[i])
                .input.same_control(event),
    ensures
        table.dispatched_through(event, count) == table.dispatched_through(event, index + 1),
    decreases count,
{
    if count > index + 1 {
        lemma_single_route(table, event, index, count - 1);
    }
}

} // verus!
