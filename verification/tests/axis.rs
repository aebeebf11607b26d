use gamepad_core::axis::{Axis, JoystickState};

/// A real number as a whole number of thousandths.
fn thousandths(x: f64) -> i32 {
    (x * 1000.0).round() as i32
}

/// The axis of the scenario: a raw domain of -128..=128 with a deadzone at
/// rest and one at each end of travel.
fn stick(sample: i32) -> Axis {
    let mut axis = Axis::new(sample, Some(-128), Some(128));
    let zones = axis.make_deadzone(vec![-8..8, -128..-87, 109..128], -128, 128);
    axis.set_deadzones(zones);
    axis
}

#[test]
fn test_axis() {
    assert_eq!(
        Axis::new::<u8>(127, Some(u8::MIN), Some(u8::MAX)).convert_into::<u8>(Some(false)),
        127
    );
    assert_eq!(
        Axis::new::<u8>(50, Some(0), Some(100)).convert_into::<u8>(Some(false)),
        127
    );
    assert_eq!(
        Axis::new(thousandths(0.0), Some(thousandths(-1.0)), Some(thousandths(1.0)))
            .convert_into::<u8>(Some(false)),
        127
    );
}

#[test]
fn new_stores_the_canonical_value() {
    let axis = Axis::new::<u8>(127, None, None);
    assert_eq!(*axis.get_value(), 9187201950435737471);
    assert_eq!(*axis.get_min(), 0);
    assert_eq!(*axis.get_max(), u64::MAX);
    assert!(axis.get_deadzones().is_none());
    assert_eq!(*Axis::new::<i16>(0, None, None).get_value(), 0x8000_8000_8000_8000);
    assert_eq!(*Axis::new::<i32>(-5, Some(-5), Some(5)).get_value(), 0);
    assert_eq!(*Axis::new::<i32>(5, Some(-5), Some(5)).get_value(), u64::MAX);
}

#[test]
fn default_is_the_least_canonical_value() {
    let axis = Axis::default();
    assert_eq!(*axis.get_value(), 0);
    assert_eq!(*axis.get_min(), 0);
    assert_eq!(*axis.get_max(), u64::MAX);
    assert!(axis.get_deadzones().is_none());
}

#[test]
fn set_values_takes_a_new_sample_and_keeps_the_deadzones() {
    let mut axis = stick(0);
    axis.set_values::<u8>(255, None, None);
    assert_eq!(*axis.get_value(), u64::MAX);
    assert_eq!(*axis.get_min(), 0);
    assert_eq!(*axis.get_max(), u64::MAX);
    assert_eq!(axis.get_deadzones().as_ref().map(|z| z.len()), Some(3));
    axis.set_values::<i32>(50, Some(0), Some(100));
    assert_eq!(*axis.get_value(), 9223372036854775807);
}

#[test]
fn set_value_stores_a_canonical_value() {
    let mut axis = Axis::default();
    axis.set_value(42);
    assert_eq!(*axis.get_value(), 42);
    assert_eq!(axis.convert_into::<u64>(Some(false)), 42);
}

#[test]
fn make_deadzone_carries_both_ends_into_the_canonical_domain() {
    let axis = Axis::new(0i32, Some(-128), Some(128));
    let zones = axis.make_deadzone(vec![-8..8, -128..-87, 109..128], -128, 128);
    assert_eq!(
        zones,
        vec![
            8646911284551352319..9799832789158199295,
            0..2954361355555045375,
            17077649786988920831..18446744073709551615
        ]
    );
    assert!(axis.make_deadzone::<u8>(vec![], 0, 255).is_empty());
}

#[test]
fn a_value_in_a_centering_deadzone_becomes_the_middle() {
    assert_eq!(stick(0).convert_into::<i16>(Some(true)), 0);
    assert_eq!(stick(7).convert_into::<i16>(Some(true)), 0);
    assert_eq!(stick(-8).convert_into::<i16>(Some(true)), 0);
    assert_eq!(stick(0).convert_into::<u8>(Some(true)), 127);
    assert_eq!(stick(0).convert_into::<i8>(Some(true)), 0);
    assert_eq!(stick(0).convert_into::<u64>(Some(true)), 9223372036854775807);
    assert_eq!(stick(0).convert_into::<i64>(Some(true)), 0);
}

#[test]
fn a_value_in_an_edge_deadzone_becomes_the_nearer_limit() {
    assert_eq!(stick(120).convert_into::<i16>(Some(true)), 32767);
    assert_eq!(stick(-110).convert_into::<i16>(Some(true)), -32768);
    assert_eq!(stick(-128).convert_into::<u8>(Some(true)), 0);
    assert_eq!(stick(109).convert_into::<u8>(Some(true)), 255);
}

#[test]
fn a_value_outside_every_deadzone_is_mapped_linearly() {
    assert_eq!(stick(64).convert_into::<i16>(Some(true)), 16383);
    // The end of a deadzone is outside it.
    assert_eq!(stick(8).convert_into::<i16>(Some(true)), 2047);
    assert_eq!(stick(128).convert_into::<i16>(Some(true)), 32767);
}

#[test]
fn deadzones_are_in_use_unless_switched_off() {
    assert_eq!(stick(120).convert_into::<i16>(None), 32767);
    assert_eq!(stick(120).convert_into::<i16>(Some(false)), 30719);
    assert_eq!(stick(-110).convert_into::<i16>(Some(false)), -28160);
    assert_eq!(stick(0).convert_into::<i16>(Some(false)), 0);
}

#[test]
fn the_first_enclosing_deadzone_decides() {
    let mut axis = Axis::new(0i32, Some(-128), Some(128));
    // An edge zone that also holds the value comes first: its kind is used.
    let zones = axis.make_deadzone(vec![-128..128, -8..8], -128, 128);
    axis.set_deadzones(zones);
    assert_eq!(axis.convert_into::<i16>(Some(true)), 32767);
    let mut axis = Axis::new(0i32, Some(-128), Some(128));
    let zones = axis.make_deadzone(vec![-8..8, -128..128], -128, 128);
    axis.set_deadzones(zones);
    assert_eq!(axis.convert_into::<i16>(Some(true)), 0);
}

#[test]
fn invert_mirrors_the_value() {
    let axis = stick(120);
    let mirrored = axis.invert();
    assert_eq!(*mirrored.get_value(), u64::MAX - 17870283321406128127);
    assert_eq!(*mirrored.get_min(), 0);
    assert_eq!(*mirrored.get_max(), u64::MAX);
    assert_eq!(mirrored.get_deadzones(), axis.get_deadzones());
    assert_eq!(*Axis::default().invert().get_value(), u64::MAX);
}

#[test]
fn invert_twice_gives_the_value_back() {
    for sample in [-128, -110, -1, 0, 1, 64, 120, 128] {
        let axis = stick(sample);
        let twice = axis.invert().invert();
        assert_eq!(twice.get_value(), axis.get_value());
        assert_eq!(twice.get_deadzones(), axis.get_deadzones());
    }
}

#[test]
fn clone_keeps_everything() {
    let axis = stick(64);
    let copy = axis.clone();
    assert_eq!(copy.get_value(), axis.get_value());
    assert_eq!(copy.get_deadzones(), axis.get_deadzones());
}

#[test]
fn a_joystick_holds_its_two_axes() {
    let stick = JoystickState::new(Axis::new::<u8>(0, None, None), Axis::new::<u8>(255, None, None));
    assert_eq!(*stick.x.get_value(), 0);
    assert_eq!(*stick.y.get_value(), u64::MAX);
}
