//! Buttons that share one byte of a report, each at its own bit.

use vstd::prelude::*;

verus! {

/// What a bit-packed button holds.
pub struct BitPackedButtonView {
    pub name: Option<Seq<char>>,
    pub value: bool,
    pub addr: u8,
}

/// The byte in which only the bit of `button` may be set: it is set where
/// the button is pressed.
pub open spec fn button_bit(button: BitPackedButtonView) -> u8 {
    if button.value {
        1u8 << button.addr
    } else {
        0u8
    }
}

/// The bits of all `buttons`, joined by bitwise or.
pub open spec fn packed_byte(buttons: Seq<BitPackedButtonView>) -> u8
    decreases buttons.len(),
{
    if buttons.len() == 0 {
        0u8
    } else {
        packed_byte(buttons.drop_last()) | button_bit(buttons.last())
    }
}

/// Whether one of `buttons` is pressed and sits at bit `addr`.
pub open spec fn pressed_at(buttons: Seq<BitPackedButtonView>, addr: u8) -> bool {
    exists|i: int| 0 <= i < buttons.len() && #[trigger] buttons[i].value && buttons[i].addr == addr
}

/// Whether bit `addr` of `byte` is set.
pub open spec fn bit_is_set(byte: u8, addr: u8) -> bool {
    (byte >> addr) & 1u8 == 1u8
}

/// A button with its name, its state and the bit at which it is reported.
pub struct BitPackedButton {
    name: Option<String>,
    value: bool,
    addr: u8,
}

impl View for BitPackedButton {
    type V = BitPackedButtonView;

    closed spec fn view(&self) -> BitPackedButtonView {
        BitPackedButtonView {
            name: match self.name {
                Some(n) => Some(n@),
                None => None,
            },
            value: self.value,
            addr: self.addr,
        }
    }
}

impl Clone for BitPackedButton {
    fn clone(&self) -> (r: BitPackedButton)
        ensures
            r@ == self@,
    {
        proof {
            use_type_invariant(self);
        }
        let name = match &self.name {
            Some(n) => Some(n.clone()),
            None => None,
        };
        BitPackedButton { name, value: self.value, addr: self.addr }
    }
}

impl BitPackedButton {
    #[verifier::type_invariant]
    spec fn bit_in_byte(self) -> bool {
        self.addr <= 7
    }

    /// A released button called `name`, reported at bit `addr`.
    pub fn new(name: Option<String>, addr: u8) -> (r: BitPackedButton)
        requires
            addr <= 7,
        ensures
            r@ == (BitPackedButtonView {
                name: match name {
                    Some(n) => Some(n@),
                    None => None,
                },
                value: false,
                addr,
            }),
    {
        BitPackedButton { name, value: false, addr }
    }

    /// Whether the button is pressed.
    pub fn get_value(&self) -> (r: bool)
        ensures
            r == self@.value,
    {
        self.value
    }

    /// Presses or releases the button.
    pub fn set_value(&mut self, value: bool)
        ensures
            final(self)@ == (BitPackedButtonView { value, ..old(self)@ }),
    {
        proof {
            use_type_invariant(&*self);
        }
        self.value = value;
    }

    /// The bit at which the button is reported.
    pub fn get_addr(&self) -> (r: u8)
        ensures
            r == self@.addr,
            r <= 7,
    {
        proof {
            use_type_invariant(self);
        }
        self.addr
    }

    /// Whether the button is called `name`.
    pub fn is_named(&self, name: &String) -> (r: bool)
        ensures
            r == (self@.name == Some(name@)),
    {
        match &self.name {
            Some(n) => *n == *name,
            None => false,
        }
    }
}

/// The buttons that share one byte.
pub struct BitPackedButtons {
    pub buttons: Vec<BitPackedButton>,
}

impl BitPackedButtons {
    /// What the buttons hold, in order.
    pub open spec fn views(&self) -> Seq<BitPackedButtonView> {
        self.buttons@.map_values(|b: BitPackedButton| b@)
    }

    /// The first button called `name`, if there is one.
    pub fn get_by_name(&self, name: &String) -> (r: Option<&BitPackedButton>)
        ensures
            match r {
                Some(b) => exists|i: int|
                    0 <= i < self.buttons@.len() && *b == #[trigger] self.buttons@[i]
                        && self.buttons@[i]@.name == Some(name@) && forall|j: int|
                        0 <= j < i ==> (#[trigger] self.buttons@[j])@.name != Some(name@),
                None => forall|j: int|
                    0 <= j < self.buttons@.len() ==> (#[trigger] self.buttons@[j])@.name != Some(
                        name@,
                    ),
            },
    {
        let mut i: usize = 0;
        while i < self.buttons.len()
            invariant
                i <= self.buttons.len(),
                forall|j: int| 0 <= j < i ==> (#[trigger] self.buttons@[j])@.name != Some(name@),
            decreases self.buttons.len() - i,
        {
            if self.buttons[i].is_named(name) {
                return Some(&self.buttons[i]);
            }
            i += 1;
        }
        None
    }

    /// The byte of the set: bit `addr` of it is set where a pressed button
    /// sits at `addr`.
    pub fn to_bytes_repr(&self) -> (r: u8)
        ensures
            r == packed_byte(self.views()),
    {
        let mut acc: u8 = 0;
        let mut i: usize = 0;
        while i < self.buttons.len()
            invariant
                i <= self.buttons.len(),
                acc == packed_byte(self.views().subrange(0, i as int)),
            decreases self.buttons.len() - i,
        {
            let button = &self.buttons[i];
            let addr = button.get_addr();
            let bit: u8 = if button.get_value() {
                1u8 << addr
            } else {
                0u8
            };
            proof {
                let seen = self.views().subrange(0, i + 1);
                assert(seen.drop_last() == self.views().subrange(0, i as int));
                assert(seen.last() == button@);
            }
            acc = acc | bit;
            i += 1;
        }
        assert(self.views().subrange(0, i as int) == self.views());
        acc
    }
}

/// Setting bit `addr` by bitwise or sets that bit and leaves the others.
proof fn lemma_or_bit(acc: u8, addr: u8, k: u8)
    by (bit_vector)
    requires
        addr <= 7,
        k <= 7,
    ensures
        bit_is_set(acc | (1u8 << addr), k) == (bit_is_set(acc, k) || k == addr),
        bit_is_set(acc | 0u8, k) == bit_is_set(acc, k),
        !bit_is_set(0u8, k),
{
}

/// Bit `addr` of the packed byte is set exactly where one of the buttons is
/// pressed and sits at `addr`: the byte does not depend on the order of the
/// buttons.
pub proof fn lemma_packed_byte_bits(buttons: Seq<BitPackedButtonView>, addr: u8)
    requires
        addr <= 7,
        forall|i: int| 0 <= i < buttons.len() ==> (#[trigger] buttons[i]).addr <= 7,
    ensures
        bit_is_set(packed_byte(buttons), addr) == pressed_at(buttons, addr),
    decreases buttons.len(),
{
    if buttons.len() == 0 {
        lemma_or_bit(0u8, 0u8, addr);
    } else {
        let front = buttons.drop_last();
        let last = buttons.last();
        lemma_packed_byte_bits(front, addr);
        lemma_or_bit(packed_byte(front), last.addr, addr);
        if pressed_at(front, addr) {
            let i = choose|i: int|
                0 <= i < front.len() && #[trigger] front[i].value && front[i].addr == addr;
            assert(buttons[i].value && buttons[i].addr == addr);
        }
        if last.value && last.addr == addr {
            assert(buttons[buttons.len() - 1].value);
        }
        if pressed_at(buttons, addr) {
            let i = choose|i: int|
                0 <= i < buttons.len() && #[trigger] buttons[i].value && buttons[i].addr == addr;
            if i < front.len() {
                assert(front[i].value && front[i].addr == addr);
            }
        }
    }
}

/// Where no other button shares its bit, the bit of a button in the packed
/// byte is the state of that button.
pub proof fn lemma_packed_byte_bit_of(buttons: Seq<BitPackedButtonView>, index: int)
    requires
        0 <= index < buttons.len(),
        forall|i: int| 0 <= i < buttons.len() ==> (#[trigger] buttons[i]).addr <= 7,
        forall|i: int|
            0 <= i < buttons.len() && i != index ==> (#[trigger] buttons[i]).addr
                != buttons[index].addr,
    ensures
        bit_is_set(packed_byte(buttons), buttons[index].addr) == buttons[index].value,
{
    let addr = buttons[index].addr;
    lemma_packed_byte_bits(buttons, addr);
    if pressed_at(buttons, addr) {
        let i = choose|i: int|
            0 <= i < buttons.len() && #[trigger] buttons[i].value && buttons[i].addr == addr;
        assert(i == index);
    }
}

/// A bit at which no button sits is not set in the packed byte.
pub proof fn lemma_packed_byte_bit_unused(buttons: Seq<BitPackedButtonView>, addr: u8)
    requires
        addr <= 7,
        forall|i: int|
            0 <= i < buttons.len() ==> (#[trigger] buttons[i]).addr <= 7 && buttons[i].addr
                != addr,
    ensures
        !bit_is_set(packed_byte(buttons), addr),
{
    lemma_packed_byte_bits(buttons, addr);
}

} // verus!
