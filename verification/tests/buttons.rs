use gamepad_core::buttons::{BitPackedButton, BitPackedButtons};

fn button(name: &str, addr: u8, pressed: bool) -> BitPackedButton {
    let mut b = BitPackedButton::new(Some(name.to_string()), addr);
    b.set_value(pressed);
    b
}

#[test]
fn a_new_button_is_released() {
    let b = BitPackedButton::new(Some("A".to_string()), 4);
    assert!(!b.get_value());
    assert_eq!(b.get_addr(), 4);
    assert!(b.is_named(&"A".to_string()));
    assert!(!b.is_named(&"B".to_string()));
    let nameless = BitPackedButton::new(None, 0);
    assert!(!nameless.is_named(&"".to_string()));
}

#[test]
fn set_value_changes_only_the_state() {
    let mut b = BitPackedButton::new(Some("A".to_string()), 4);
    b.set_value(true);
    assert!(b.get_value());
    assert_eq!(b.get_addr(), 4);
    assert!(b.is_named(&"A".to_string()));
    b.set_value(false);
    assert!(!b.get_value());
}

#[test]
fn pressed_buttons_at_bits_0_and_7_give_0x81() {
    let set = BitPackedButtons {
        buttons: vec![
            button("first", 0, true),
            button("second", 1, false),
            button("third", 2, false),
            button("fourth", 3, false),
            button("fifth", 4, false),
            button("sixth", 5, false),
            button("seventh", 6, false),
            button("eighth", 7, true),
        ],
    };
    assert_eq!(set.to_bytes_repr(), 0b10000001);
    assert_eq!(set.to_bytes_repr(), 0x81);
}

#[test]
fn the_byte_does_not_depend_on_the_order_of_the_buttons() {
    let forward = BitPackedButtons {
        buttons: vec![button("a", 1, true), button("b", 3, false), button("c", 6, true)],
    };
    let backward = BitPackedButtons {
        buttons: vec![button("c", 6, true), button("b", 3, false), button("a", 1, true)],
    };
    assert_eq!(forward.to_bytes_repr(), 0b0100_0010);
    assert_eq!(backward.to_bytes_repr(), 0b0100_0010);
}

#[test]
fn an_empty_set_and_a_released_set_give_zero() {
    assert_eq!(BitPackedButtons { buttons: vec![] }.to_bytes_repr(), 0);
    let set = BitPackedButtons { buttons: vec![button("a", 0, false), button("b", 7, false)] };
    assert_eq!(set.to_bytes_repr(), 0);
}

#[test]
fn every_bit_can_be_set() {
    for addr in 0..8u8 {
        let set = BitPackedButtons { buttons: vec![button("only", addr, true)] };
        assert_eq!(set.to_bytes_repr(), 1u8 << addr);
    }
    let all = BitPackedButtons {
        buttons: (0..8u8).map(|addr| button("some", addr, true)).collect(),
    };
    assert_eq!(all.to_bytes_repr(), 0xff);
}

#[test]
fn get_by_name_finds_the_first_button_of_that_name() {
    let set = BitPackedButtons {
        buttons: vec![
            button("a", 0, false),
            button("b", 1, true),
            BitPackedButton::new(None, 2),
            button("b", 3, false),
        ],
    };
    let found = set.get_by_name(&"b".to_string());
    assert_eq!(found.map(|b| b.get_addr()), Some(1));
    assert_eq!(found.map(|b| b.get_value()), Some(true));
    assert_eq!(set.get_by_name(&"a".to_string()).map(|b| b.get_addr()), Some(0));
    assert!(set.get_by_name(&"c".to_string()).is_none());
    assert!(BitPackedButtons { buttons: vec![] }.get_by_name(&"a".to_string()).is_none());
}

#[test]
fn a_clone_is_the_same_button() {
    let b = button("a", 5, true);
    let c = b.clone();
    assert_eq!(c.get_addr(), 5);
    assert!(c.get_value());
    assert!(c.is_named(&"a".to_string()));
}
