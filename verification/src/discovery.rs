//! Which of the gamepads that the system lists are devices of their own, and
//! which are a Wii Remote seen a second time.

use vstd::prelude::*;
use vstd::string::StringSliceAdditionalSpecFns;

verus! {

/// Whether `needle` stands in `hay` from position `at` on.
pub open spec fn occurs_at(hay: Seq<u8>, needle: Seq<u8>, at: int) -> bool {
    0 <= at && at + needle.len() <= hay.len() && hay.subrange(at, at + needle.len()) == needle
}

/// Whether `needle` stands somewhere in `hay`.
pub open spec fn occurs_in(hay: Seq<u8>, needle: Seq<u8>) -> bool {
    exists|at: int| occurs_at(hay, needle, at)
}

/// The bytes of "Wii".
pub open spec fn wii_tag() -> Seq<u8> {
    seq![0x57u8, 0x69u8, 0x69u8]
}

/// The bytes of "Nunchuk".
pub open spec fn nunchuk_tag() -> Seq<u8> {
    seq![0x4eu8, 0x75u8, 0x6eu8, 0x63u8, 0x68u8, 0x75u8, 0x6bu8]
}

/// Whether a gamepad of this name, and of this name in the operating
/// system, is left out: one whose names mention a Wii Remote or a Nunchuk
/// has a reader of its own.
pub open spec fn ignored(name: Seq<u8>, os_name: Seq<u8>) -> bool {
    occurs_in(name, wii_tag()) || occurs_in(os_name, wii_tag()) || occurs_in(name, nunchuk_tag())
        || occurs_in(os_name, nunchuk_tag())
}

/// Whether `needle` stands in `hay` from position `at` on.
fn matches_at(hay: &[u8], needle: &[u8], at: usize) -> (r: bool)
    requires
        at + needle@.len() <= hay@.len(),
    ensures
        r == occurs_at(hay@, needle@, at as int),
{
    let length: usize = hay.len();
    let mut k: usize = 0;
    while k < needle.len()
        invariant
            k <= needle@.len(),
            at + needle@.len() <= hay@.len() == length,
            forall|j: int| 0 <= j < k ==> hay@[at + j] == needle@[j],
        decreases needle@.len() - k,
    {
        if hay[at + k] != needle[k] {
            assert(hay@.subrange(at as int, at + needle@.len())[k as int] != needle@[k as int]);
            return false;
        }
        k += 1;
    }
    assert(hay@.subrange(at as int, at + needle@.len()) == needle@);
    true
}

/// Whether `needle` stands somewhere in `hay`.
pub fn contains_bytes(hay: &[u8], needle: &[u8]) -> (r: bool)
    ensures
        r == occurs_in(hay@, needle@),
{
    if needle.len() > hay.len() {
        return false;
    }
    let last: usize = hay.len() - needle.len();
    let mut at: usize = 0;
    loop
        invariant
            at <= last,
            last == hay@.len() - needle@.len(),
            forall|j: int| 0 <= j < at ==> !occurs_at(hay@, needle@, j),
        decreases last - at,
    {
        if matches_at(hay, needle, at) {
            return true;
        }
        if at == last {
            return false;
        }
        at += 1;
    }
}

/// Whether a gamepad called `name`, and `os_name` by the operating system,
/// is left out of the gamepads to read.
pub fn is_ignored_controller(name: &str, os_name: &str) -> (r: bool)
    ensures
        r == ignored(name.spec_bytes(), os_name.spec_bytes()),
{
    let wii: [u8; 3] = [0x57, 0x69, 0x69];
    let nunchuk: [u8; 7] = [0x4e, 0x75, 0x6e, 0x63, 0x68, 0x75, 0x6b];
    assert(wii@ == wii_tag());
    assert(nunchuk@ == nunchuk_tag());
    let wii = wii.as_slice();
    let nunchuk = nunchuk.as_slice();
    contains_bytes(name.as_bytes(), wii) || contains_bytes(os_name.as_bytes(), wii)
        || contains_bytes(name.as_bytes(), nunchuk) || contains_bytes(os_name.as_bytes(), nunchuk)
}

} // verus!
