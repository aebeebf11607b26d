//! The scalar types that can be rescaled from one numeric domain to another.

use vstd::prelude::*;

verus! {

/// The least value that a scalar may stand for.
pub open spec fn scalar_floor() -> int {
    -0x8000_0000_0000_0000
}

/// The greatest value that a scalar may stand for.
pub open spec fn scalar_ceiling() -> int {
    0xffff_ffff_ffff_ffff
}

/// A bounded integer scalar: it stands for one mathematical integer, its type
/// has a least and a greatest value, and it converts to and from a wide
/// integer in which every difference of two scalars can be computed.
pub trait NormalizableNumber: Copy + Sized {
    /// The integer that this scalar stands for.
    spec fn as_int(self) -> int;

    /// The least value of the type.
    spec fn min_int() -> int;

    /// The greatest value of the type.
    spec fn max_int() -> int;

    /// Every scalar lies within its type's bounds, and the bounds span fewer
    /// than 2^64 values inside the 65-bit window from -2^63 to 2^64 - 1.
    proof fn lemma_range(self)
        ensures
            scalar_floor() <= Self::min_int() <= self.as_int() <= Self::max_int()
                <= scalar_ceiling(),
            Self::max_int() - Self::min_int() <= scalar_ceiling(),
    ;

    /// Two scalars that stand for the same integer are the same scalar.
    proof fn lemma_as_int_injective(self, other: Self)
        requires
            self.as_int() == other.as_int(),
        ensures
            self == other,
    ;

    /// The least value of the type.
    fn min_value() -> (r: Self)
        ensures
            r.as_int() == Self::min_int(),
    ;

    /// The greatest value of the type.
    fn max_value() -> (r: Self)
        ensures
            r.as_int() == Self::max_int(),
    ;

    /// This scalar as a wide integer.
    fn to_wide(self) -> (r: i128)
        ensures
            r == self.as_int(),
    ;

    /// The scalar that stands for `v`, if the type has one.
    fn from_wide(v: i128) -> (r: Option<Self>)
        ensures
            r is Some <==> Self::min_int() <= v <= Self::max_int(),
            r matches Some(x) ==> x.as_int() == v,
    ;
}

impl NormalizableNumber for u8 {
    open spec fn as_int(self) -> int {
        self as int
    }

    open spec fn min_int() -> int {
        u8::MIN as int
    }

    open spec fn max_int() -> int {
        u8::MAX as int
    }

    proof fn lemma_range(self) {
    }

    proof fn lemma_as_int_injective(self, other: Self) {
    }

    fn min_value() -> (r: Self) {
        u8::MIN
    }

    fn max_value() -> (r: Self) {
        u8::MAX
    }

    fn to_wide(self) -> (r: i128) {
        self as i128
    }

    fn from_wide(v: i128) -> (r: Option<Self>) {
        if v < u8::MIN as i128 || v > u8::MAX as i128 {
            None
        } else {
            Some(v as u8)
        }
    }
}

impl NormalizableNumber for u16 {
    open spec fn as_int(self) -> int {
        self as int
    }

    open spec fn min_int() -> int {
        u16::MIN as int
    }

    open spec fn max_int() -> int {
        u16::MAX as int
    }

    proof fn lemma_range(self) {
    }

    proof fn lemma_as_int_injective(self, other: Self) {
    }

    fn min_value() -> (r: Self) {
        u16::MIN
    }

    fn max_value() -> (r: Self) {
        u16::MAX
    }

    fn to_wide(self) -> (r: i128) {
        self as i128
    }

    fn from_wide(v: i128) -> (r: Option<Self>) {
        if v < u16::MIN as i128 || v > u16::MAX as i128 {
            None
        } else {
            Some(v as u16)
        }
    }
}

impl NormalizableNumber for u32 {
    open spec fn as_int(self) -> int {
        self as int
    }

    open spec fn min_int() -> int {
        u32::MIN as int
    }

    open spec fn max_int() -> int {
        u32::MAX as int
    }

    proof fn lemma_range(self) {
    }

    proof fn lemma_as_int_injective(self, other: Self) {
    }

    fn min_value() -> (r: Self) {
        u32::MIN
    }

    fn max_value() -> (r: Self) {
        u32::MAX
    }

    fn to_wide(self) -> (r: i128) {
        self as i128
    }

    fn from_wide(v: i128) -> (r: Option<Self>) {
        if v < u32::MIN as i128 || v > u32::MAX as i128 {
            None
        } else {
            Some(v as u32)
        }
    }
}

impl NormalizableNumber for u64 {
    open spec fn as_int(self) -> int {
        self as int
    }

    open spec fn min_int() -> int {
        u64::MIN as int
    }

    open spec fn max_int() -> int {
        u64::MAX as int
    }

    proof fn lemma_range(self) {
    }

    proof fn lemma_as_int_injective(self, other: Self) {
    }

    fn min_value() -> (r: Self) {
        u64::MIN
    }

    fn max_value() -> (r: Self) {
        u64::MAX
    }

    fn to_wide(self) -> (r: i128) {
        self as i128
    }

    fn from_wide(v: i128) -> (r: Option<Self>) {
        if v < u64::MIN as i128 || v > u64::MAX as i128 {
            None
        } else {
            Some(v as u64)
        }
    }
}

impl NormalizableNumber for i8 {
    open spec fn as_int(self) -> int {
        self as int
    }

    open spec fn min_int() -> int {
        i8::MIN as int
    }

    open spec fn max_int() -> int {
        i8::MAX as int
    }

    proof fn lemma_range(self) {
    }

    proof fn lemma_as_int_injective(self, other: Self) {
    }

    fn min_value() -> (r: Self) {
        i8::MIN
    }

    fn max_value() -> (r: Self) {
        i8::MAX
    }

    fn to_wide(self) -> (r: i128) {
        self as i128
    }

    fn from_wide(v: i128) -> (r: Option<Self>) {
        if v < i8::MIN as i128 || v > i8::MAX as i128 {
            None
        } else {
            Some(v as i8)
        }
    }
}

impl NormalizableNumber for i16 {
    open spec fn as_int(self) -> int {
        self as int
    }

    open spec fn min_int() -> int {
        i16::MIN as int
    }

    open spec fn max_int() -> int {
        i16::MAX as int
    }

    proof fn lemma_range(self) {
    }

    proof fn lemma_as_int_injective(self, other: Self) {
    }

    fn min_value() -> (r: Self) {
        i16::MIN
    }

    fn max_value() -> (r: Self) {
        i16::MAX
    }

    fn to_wide(self) -> (r: i128) {
        self as i128
    }

    fn from_wide(v: i128) -> (r: Option<Self>) {
        if v < i16::MIN as i128 || v > i16::MAX as i128 {
            None
        } else {
            Some(v as i16)
        }
    }
}

impl NormalizableNumber for i32 {
    open spec fn as_int(self) -> int {
        self as int
    }

    open spec fn min_int() -> int {
        i32::MIN as int
    }

    open spec fn max_int() -> int {
        i32::MAX as int
    }

    proof fn lemma_range(self) {
    }

    proof fn lemma_as_int_injective(self, other: Self) {
    }

    fn min_value() -> (r: Self) {
        i32::MIN
    }

    fn max_value() -> (r: Self) {
        i32::MAX
    }

    fn to_wide(self) -> (r: i128) {
        self as i128
    }

    fn from_wide(v: i128) -> (r: Option<Self>) {
        if v < i32::MIN as i128 || v > i32::MAX as i128 {
            None
        } else {
            Some(v as i32)
        }
    }
}

impl NormalizableNumber for i64 {
    open spec fn as_int(self) -> int {
        self as int
    }

    open spec fn min_int() -> int {
        i64::MIN as int
    }

    open spec fn max_int() -> int {
        i64::MAX as int
    }

    proof fn lemma_range(self) {
    }

    proof fn lemma_as_int_injective(self, other: Self) {
    }

    fn min_value() -> (r: Self) {
        i64::MIN
    }

    fn max_value() -> (r: Self) {
        i64::MAX
    }

    fn to_wide(self) -> (r: i128) {
        self as i128
    }

    fn from_wide(v: i128) -> (r: Option<Self>) {
        if v < i64::MIN as i128 || v > i64::MAX as i128 {
            None
        } else {
            Some(v as i64)
        }
    }
}

} // verus!
