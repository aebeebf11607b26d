//! Linear rescaling of a value from one numeric domain into another, with
//! saturation at the limits of the target type.

use crate::scalar::{scalar_ceiling, NormalizableNumber};
use vstd::arithmetic::div_mod::{
    lemma_fundamental_div_mod, lemma_fundamental_div_mod_converse, lemma_mod_bound,
};
use vstd::arithmetic::mul::lemma_mul_upper_bound;
use vstd::prelude::*;

verus! {

/// The distance between two integers.
pub open spec fn span(a: int, b: int) -> int {
    if a <= b {
        b - a
    } else {
        a - b
    }
}

/// The quotient of `n` by a positive `d`, rounded toward zero.
pub open spec fn div_toward_zero(n: int, d: int) -> int
    recommends
        d > 0,
{
    if n >= 0 {
        n / d
    } else {
        -((-n) / d)
    }
}

/// `x` held within `lo..=hi`.
pub open spec fn saturate(x: int, lo: int, hi: int) -> int {
    if x < lo {
        lo
    } else if x > hi {
        hi
    } else {
        x
    }
}

/// The image of `value` under the linear map that sends `from_min` to
/// `to_min` and stretches the source width onto the target width, rounded
/// toward zero. A source of zero width maps everything to `to_min`.
pub open spec fn rescale(value: int, from_min: int, from_max: int, to_min: int, to_max: int) -> int {
    let from_width = span(from_min, from_max);
    let to_width = span(to_min, to_max);
    if from_width == 0 {
        to_min
    } else {
        div_toward_zero((value - from_min) * to_width + to_min * from_width, from_width)
    }
}

/// The bound that was given, or else the type's own.
pub open spec fn bound_or<N: NormalizableNumber>(bound: Option<N>, fallback: int) -> int {
    match bound {
        Some(b) => b.as_int(),
        None => fallback,
    }
}

/// What `normalize` returns: the rescaled value, saturated to the limits of
/// the target type.
pub open spec fn normalize_spec<S: NormalizableNumber, T: NormalizableNumber>(
    from_value: S,
    from_min: Option<S>,
    from_max: Option<S>,
    to_min: Option<T>,
    to_max: Option<T>,
) -> int {
    saturate(
        rescale(
            from_value.as_int(),
            bound_or(from_min, S::min_int()),
            bound_or(from_max, S::max_int()),
            bound_or(to_min, T::min_int()),
            bound_or(to_max, T::max_int()),
        ),
        T::min_int(),
        T::max_int(),
    )
}

/// Rounding toward zero of `whole + part / d`, for a fraction `part / d` in
/// `0..1` that is added.
pub proof fn lemma_round_added_fraction(n: int, d: int, whole: int, part: int)
    requires
        d > 0,
        0 <= part < d,
        n == whole * d + part,
    ensures
        div_toward_zero(n, d) == if whole < 0 && part > 0 {
            whole + 1
        } else {
            whole
        },
{
    if whole >= 0 {
        assert(whole * d >= 0) by (nonlinear_arith)
            requires
                whole >= 0,
                d > 0,
        ;
        lemma_fundamental_div_mod_converse(n, d, whole, part);
    } else {
        assert(whole * d <= -d) by (nonlinear_arith)
            requires
                whole <= -1,
                d > 0,
        ;
        assert(n < 0);
        if part == 0 {
            assert(-n == (-whole) * d) by (nonlinear_arith)
                requires
                    n == whole * d,
            ;
            lemma_fundamental_div_mod_converse(-n, d, -whole, 0);
        } else {
            assert(-n == (-whole - 1) * d + (d - part)) by (nonlinear_arith)
                requires
                    n == whole * d + part,
            ;
            lemma_fundamental_div_mod_converse(-n, d, -whole - 1, d - part);
        }
    }
}

/// Rounding toward zero of `whole - part / d`, for a fraction `part / d` in
/// `0..1` that is taken away.
pub proof fn lemma_round_removed_fraction(n: int, d: int, whole: int, part: int)
    requires
        d > 0,
        0 <= part < d,
        n == whole * d - part,
    ensures
        div_toward_zero(n, d) == if whole > 0 && part > 0 {
            whole - 1
        } else {
            whole
        },
{
    if part == 0 {
        lemma_round_added_fraction(n, d, whole, 0);
    } else {
        assert(n == (whole - 1) * d + (d - part)) by (nonlinear_arith)
            requires
                n == whole * d - part,
        ;
        lemma_round_added_fraction(n, d, whole - 1, d - part);
    }
}

/// Rescales `from_value` from `from_min..=from_max` into `to_min..=to_max`.
/// A bound that is not given is the least or greatest value of its type. A
/// result beyond the target type saturates at the type's nearer limit, and
/// a source of zero width yields the target minimum.
pub fn normalize<S: NormalizableNumber, T: NormalizableNumber>(
    from_value: S,
    from_min: Option<S>,
    from_max: Option<S>,
    to_min: Option<T>,
    to_max: Option<T>,
) -> (r: T)
    ensures
        r.as_int() == normalize_spec(from_value, from_min, from_max, to_min, to_max),
{
    let from_low: S = match from_min {
        Some(m) => m,
        None => S::min_value(),
    };
    let from_high: S = match from_max {
        Some(m) => m,
        None => S::max_value(),
    };
    let to_low: T = match to_min {
        Some(m) => m,
        None => T::min_value(),
    };
    let to_high: T = match to_max {
        Some(m) => m,
        None => T::max_value(),
    };
    proof {
        from_value.lemma_range();
        from_low.lemma_range();
        from_high.lemma_range();
        to_low.lemma_range();
        to_high.lemma_range();
    }
    let value: i128 = from_value.to_wide();
    let fmin: i128 = from_low.to_wide();
    let fmax: i128 = from_high.to_wide();
    let tmin: i128 = to_low.to_wide();
    let tmax: i128 = to_high.to_wide();

    let from_width: u128 = if fmin <= fmax {
        (fmax - fmin) as u128
    } else {
        (fmin - fmax) as u128
    };
    let to_width: u128 = if tmin <= tmax {
        (tmax - tmin) as u128
    } else {
        (tmin - tmax) as u128
    };
    if from_width == 0 {
        return to_low;
    }
    let offset: i128 = value - fmin;
    let below: bool = offset < 0;
    let distance: u128 = if below {
        (-offset) as u128
    } else {
        offset as u128
    };
    proof {
        lemma_mul_upper_bound(
            distance as int,
            scalar_ceiling(),
            to_width as int,
            scalar_ceiling(),
        );
        assert(scalar_ceiling() * scalar_ceiling() <= u128::MAX) by (nonlinear_arith);
    }
    let product: u128 = distance * to_width;
    let quotient: u128 = product / from_width;
    let part: u128 = product % from_width;
    let ghost exact = (value - fmin) * to_width + tmin * from_width;
    proof {
        assert(product == quotient * from_width + part) by (nonlinear_arith)
            requires
                from_width > 0,
                quotient == product / from_width,
                part == product % from_width,
        ;
        if below {
            assert(exact == (tmin - quotient) * from_width - part) by (nonlinear_arith)
                requires
                    exact == (value - fmin) * to_width + tmin * from_width,
                    distance * to_width == quotient * from_width + part,
                    distance == -(value - fmin),
            ;
            lemma_round_removed_fraction(
                exact,
                from_width as int,
                tmin - quotient,
                part as int,
            );
        } else {
            assert(exact == (tmin + quotient) * from_width + part) by (nonlinear_arith)
                requires
                    exact == (value - fmin) * to_width + tmin * from_width,
                    distance * to_width == quotient * from_width + part,
                    distance == value - fmin,
            ;
            lemma_round_added_fraction(
                exact,
                from_width as int,
                tmin + quotient,
                part as int,
            );
        }
    }
    if quotient > 0x2_0000_0000_0000_0000 {
        // The whole part alone lies beyond every scalar type.
        return if below {
            T::min_value()
        } else {
            T::max_value()
        };
    }
    let steps: i128 = quotient as i128;
    let scaled: i128 = if below {
        let whole: i128 = tmin - steps;
        if whole > 0 && part > 0 {
            whole - 1
        } else {
            whole
        }
    } else {
        let whole: i128 = tmin + steps;
        if whole < 0 && part > 0 {
            whole + 1
        } else {
            whole
        }
    };
    match T::from_wide(scaled) {
        Some(r) => r,
        None => {
            if scaled < tmin {
                T::min_value()
            } else {
                T::max_value()
            }
        },
    }
}

/// Rounding toward zero moves a quotient by less than one, and toward zero.
pub proof fn lemma_div_toward_zero_error(n: int, d: int)
    requires
        d > 0,
    ensures
        -d < div_toward_zero(n, d) * d - n < d,
        n >= 0 ==> div_toward_zero(n, d) * d <= n,
        n <= 0 ==> div_toward_zero(n, d) * d >= n,
{
    if n >= 0 {
        lemma_fundamental_div_mod(n, d);
        lemma_mod_bound(n, d);
        assert((n / d) * d == d * (n / d)) by (nonlinear_arith);
    } else {
        lemma_fundamental_div_mod(-n, d);
        lemma_mod_bound(-n, d);
        assert((-((-n) / d)) * d == -(d * ((-n) / d))) by (nonlinear_arith);
    }
}

/// A multiple of `d` between two multiples of `d` has its factor between
/// theirs, also where it is known only to within less than `d`.
proof fn lemma_factor_between(q: int, d: int, n: int, low: int, high: int)
    requires
        d > 0,
        -d < q * d - n < d,
        low * d <= n <= high * d,
    ensures
        low <= q <= high,
{
    assert(low <= q) by (nonlinear_arith)
        requires
            d > 0,
            q * d > low * d - d,
    ;
    assert(q <= high) by (nonlinear_arith)
        requires
            d > 0,
            q * d < high * d + d,
    ;
}

/// Over a source range that rises and a target range that does not fall,
/// the source minimum maps to the target minimum and the source maximum to
/// the target maximum.
pub proof fn lemma_rescale_endpoints(from_min: int, from_max: int, to_min: int, to_max: int)
    requires
        from_min < from_max,
        to_min <= to_max,
    ensures
        rescale(from_min, from_min, from_max, to_min, to_max) == to_min,
        rescale(from_max, from_min, from_max, to_min, to_max) == to_max,
{
    let from_width = from_max - from_min;
    let to_width = to_max - to_min;
    assert((from_min - from_min) * to_width + to_min * from_width == to_min * from_width + 0)
        by (nonlinear_arith);
    lemma_round_added_fraction(to_min * from_width, from_width, to_min, 0);
    assert((from_max - from_min) * to_width + to_min * from_width == to_max * from_width + 0)
        by (nonlinear_arith)
        requires
            from_width == from_max - from_min,
            to_width == to_max - to_min,
    ;
    lemma_round_added_fraction(to_max * from_width, from_width, to_max, 0);
}

/// Over a source range that rises and a target range that does not fall,
/// a value of the source range maps into the target range.
pub proof fn lemma_rescale_in_range(
    value: int,
    from_min: int,
    from_max: int,
    to_min: int,
    to_max: int,
)
    requires
        from_min < from_max,
        from_min <= value <= from_max,
        to_min <= to_max,
    ensures
        to_min <= rescale(value, from_min, from_max, to_min, to_max) <= to_max,
{
    let from_width = from_max - from_min;
    let to_width = to_max - to_min;
    let exact = (value - from_min) * to_width + to_min * from_width;
    assert(to_min * from_width <= exact <= to_max * from_width) by (nonlinear_arith)
        requires
            exact == (value - from_min) * to_width + to_min * from_width,
            0 <= value - from_min <= from_width,
            to_width == to_max - to_min,
            to_width >= 0,
    ;
    lemma_div_toward_zero_error(exact, from_width);
    lemma_factor_between(
        div_toward_zero(exact, from_width),
        from_width,
        exact,
        to_min,
        to_max,
    );
}

/// The middle of the source range maps to within one unit of the middle of
/// the target range, where the source width is even or the target is at
/// most twice as wide as the source.
pub proof fn lemma_rescale_midpoint(from_min: int, from_max: int, to_min: int, to_max: int)
    requires
        from_min < from_max,
        to_min <= to_max,
        (from_max - from_min) % 2 == 0 || to_max - to_min <= 2 * (from_max - from_min),
    ensures
        ({
            let from_mid = from_min + (from_max - from_min) / 2;
            let to_mid = to_min + (to_max - to_min) / 2;
            -1 <= rescale(from_mid, from_min, from_max, to_min, to_max) - to_mid <= 1
        }),
{
    let from_width = from_max - from_min;
    let to_width = to_max - to_min;
    let half = from_width / 2;
    let to_half = to_width / 2;
    let exact = half * to_width + to_min * from_width;
    let q = div_toward_zero(exact, from_width);
    lemma_div_toward_zero_error(exact, from_width);
    assert(from_width == 2 * half + from_width % 2);
    assert(to_width == 2 * to_half + to_width % 2);
    let to_mid = to_min + to_half;
    // Twice the distance of the exact image from the target middle, in units of the source width.
    let gap = 2 * exact - 2 * to_mid * from_width;
    assert(gap == (to_width % 2) * from_width - (from_width % 2) * to_width) by (nonlinear_arith)
        requires
            gap == 2 * exact - 2 * to_mid * from_width,
            exact == half * to_width + to_min * from_width,
            to_mid == to_min + to_half,
            from_width == 2 * half + from_width % 2,
            to_width == 2 * to_half + to_width % 2,
    ;
    assert(-2 * from_width <= gap <= from_width) by (nonlinear_arith)
        requires
            gap == (to_width % 2) * from_width - (from_width % 2) * to_width,
            0 <= to_width % 2 <= 1,
            0 <= from_width % 2 <= 1,
            from_width > 0,
            to_width >= 0,
            from_width % 2 == 0 || to_width <= 2 * from_width,
    ;
    assert(-2 < q - to_mid < 2) by (nonlinear_arith)
        requires
            from_width > 0,
            -from_width < q * from_width - exact < from_width,
            gap == 2 * exact - 2 * to_mid * from_width,
            -2 * from_width <= gap <= from_width,
    ;
}

/// A value of a range `a`, carried into a range `b` and back, returns to
/// within the precision of the two ranges: it moves by less than one step
/// of `b`, measured in `a`, and one unit of `a`. Where `b` is at least as
/// wide as `a`, it moves by one unit at most.
pub proof fn lemma_rescale_round_trip(value: int, a_min: int, a_max: int, b_min: int, b_max: int)
    requires
        a_min < a_max,
        b_min < b_max,
        a_min <= value <= a_max,
    ensures
        ({
            let there = rescale(value, a_min, a_max, b_min, b_max);
            let back = rescale(there, b_min, b_max, a_min, a_max);
            &&& b_min <= there <= b_max
            &&& a_min <= back <= a_max
            &&& span(back, value) * (b_max - b_min) < (a_max - a_min) + (b_max - b_min)
            &&& b_max - b_min >= a_max - a_min ==> span(back, value) <= 1
        }),
{
    let a_width = a_max - a_min;
    let b_width = b_max - b_min;
    let exact_there = (value - a_min) * b_width + b_min * a_width;
    let there = div_toward_zero(exact_there, a_width);
    lemma_rescale_in_range(value, a_min, a_max, b_min, b_max);
    lemma_div_toward_zero_error(exact_there, a_width);
    let exact_back = (there - b_min) * a_width + a_min * b_width;
    let back = div_toward_zero(exact_back, b_width);
    lemma_rescale_in_range(there, b_min, b_max, a_min, a_max);
    lemma_div_toward_zero_error(exact_back, b_width);
    assert(-(a_width + b_width) < (back - value) * b_width < a_width + b_width)
        by (nonlinear_arith)
        requires
            -a_width < there * a_width - exact_there < a_width,
            -b_width < back * b_width - exact_back < b_width,
            exact_there == (value - a_min) * b_width + b_min * a_width,
            exact_back == (there - b_min) * a_width + a_min * b_width,
    ;
    assert(span(back, value) * b_width == if back <= value {
        -((back - value) * b_width)
    } else {
        (back - value) * b_width
    }) by (nonlinear_arith);
    if b_width >= a_width {
        assert(span(back, value) <= 1) by (nonlinear_arith)
            requires
                span(back, value) * b_width < a_width + b_width,
                b_width >= a_width,
                b_width > 0,
                span(back, value) >= 0,
        ;
    }
}

/// `normalize` sends the source minimum to the target minimum and the
/// source maximum to the target maximum, over a source range that rises and
/// a target range that does not fall.
pub proof fn lemma_normalize_endpoints<S: NormalizableNumber, T: NormalizableNumber>(
    from_min: S,
    from_max: S,
    to_min: T,
    to_max: T,
)
    requires
        from_min.as_int() < from_max.as_int(),
        to_min.as_int() <= to_max.as_int(),
    ensures
        normalize_spec(from_min, Some(from_min), Some(from_max), Some(to_min), Some(to_max))
            == to_min.as_int(),
        normalize_spec(from_max, Some(from_min), Some(from_max), Some(to_min), Some(to_max))
            == to_max.as_int(),
{
    to_min.lemma_range();
    to_max.lemma_range();
    lemma_rescale_endpoints(
        from_min.as_int(),
        from_max.as_int(),
        to_min.as_int(),
        to_max.as_int(),
    );
}

/// `normalize` sends the middle of the source range to within one unit of
/// the middle of the target range, where the source width is even or the
/// target is at most twice as wide as the source.
pub proof fn lemma_normalize_midpoint<S: NormalizableNumber, T: NormalizableNumber>(
    from_mid: S,
    from_min: S,
    from_max: S,
    to_min: T,
    to_max: T,
)
    requires
        from_min.as_int() < from_max.as_int(),
        to_min.as_int() <= to_max.as_int(),
        from_mid.as_int() == from_min.as_int() + (from_max.as_int() - from_min.as_int()) / 2,
        (from_max.as_int() - from_min.as_int()) % 2 == 0 || to_max.as_int() - to_min.as_int() <= 2
            * (from_max.as_int() - from_min.as_int()),
    ensures
        ({
            let to_mid = to_min.as_int() + (to_max.as_int() - to_min.as_int()) / 2;
            -1 <= normalize_spec(
                from_mid,
                Some(from_min),
                Some(from_max),
                Some(to_min),
                Some(to_max),
            ) - to_mid <= 1
        }),
{
    to_min.lemma_range();
    to_max.lemma_range();
    lemma_rescale_midpoint(from_min.as_int(), from_max.as_int(), to_min.as_int(), to_max.as_int());
    lemma_rescale_in_range(
        from_mid.as_int(),
        from_min.as_int(),
        from_max.as_int(),
        to_min.as_int(),
        to_max.as_int(),
    );
}

/// A value of a range `a`, normalized into a range `b` and back, returns
/// to within the precision of the two ranges: it moves by less than one
/// step of `b`, measured in `a`, and one unit of `a`. Where `b` is at
/// least as wide as `a`, it moves by one unit at most.
pub proof fn lemma_normalize_round_trip<S: NormalizableNumber, T: NormalizableNumber>(
    value: S,
    a_min: S,
    a_max: S,
    b_min: T,
    b_max: T,
    there: T,
)
    requires
        a_min.as_int() < a_max.as_int(),
        b_min.as_int() < b_max.as_int(),
        a_min.as_int() <= value.as_int() <= a_max.as_int(),
        there.as_int() == normalize_spec(value, Some(a_min), Some(a_max), Some(b_min), Some(b_max)),
    ensures
        ({
            let back = normalize_spec(there, Some(b_min), Some(b_max), Some(a_min), Some(a_max));
            let a_width = a_max.as_int() - a_min.as_int();
            let b_width = b_max.as_int() - b_min.as_int();
            &&& span(back, value.as_int()) * b_width < a_width + b_width
            &&& b_width >= a_width ==> span(back, value.as_int()) <= 1
        }),
{
    a_min.lemma_range();
    a_max.lemma_range();
    b_min.lemma_range();
    b_max.lemma_range();
    lemma_rescale_round_trip(
        value.as_int(),
        a_min.as_int(),
        a_max.as_int(),
        b_min.as_int(),
        b_max.as_int(),
    );
}

} // verus!
