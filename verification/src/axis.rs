//! A sampled control value held in the canonical domain, with its deadzones
//! and the deadzone-aware conversion into an output type.

use crate::normalize::{
    div_toward_zero, lemma_round_added_fraction, normalize, normalize_spec, rescale, saturate, span,
};
use crate::scalar::NormalizableNumber;
use std::ops::Range;
use vstd::prelude::*;

verus! {

/// How a deadzone that encloses the value is resolved.
#[derive(Clone, Copy, Debug, PartialEq, Eq, Structural)]
pub enum DeadzoneKind {
    /// The rest position of a stick: the output is the middle of its range.
    Centering,
    /// The low end of travel: the output is its minimum.
    LowEdge,
    /// The high end of travel: the output is its maximum.
    HighEdge,
}

/// Whether `zone` holds `value`: the start is inside, the end is not.
pub open spec fn zone_holds(zone: Range<u64>, value: u64) -> bool {
    zone.start <= value < zone.end
}

/// The first of `zones` that holds `value`, if any does.
pub open spec fn first_enclosing(zones: Seq<Range<u64>>, value: u64) -> Option<Range<u64>>
    decreases zones.len(),
{
    if zones.len() == 0 {
        None
    } else if zone_holds(zones[0], value) {
        Some(zones[0])
    } else {
        first_enclosing(zones.drop_first(), value)
    }
}

/// Whether the point `x` of `min..=max` lies below `tenths` tenths of the
/// way from `min` to `max`.
pub open spec fn below_tenths(x: int, min: int, max: int, tenths: int) -> bool {
    10 * (x - min) < tenths * span(min, max)
}

/// Whether the point `x` of `min..=max` lies above `tenths` tenths of the
/// way from `min` to `max`.
pub open spec fn above_tenths(x: int, min: int, max: int, tenths: int) -> bool {
    10 * (x - min) > tenths * span(min, max)
}

/// The kind of a deadzone `zone` that encloses `value` on an axis over
/// `min..=max`: a zone that starts above three tenths and ends below seven
/// tenths is a centering one; any other is an edge, low where the value
/// itself lies below three tenths and high elsewhere.
pub open spec fn classify(value: u64, min: u64, max: u64, zone: Range<u64>) -> DeadzoneKind {
    if above_tenths(zone.start as int, min as int, max as int, 3) && below_tenths(
        zone.end as int,
        min as int,
        max as int,
        7,
    ) {
        DeadzoneKind::Centering
    } else if below_tenths(value as int, min as int, max as int, 3) {
        DeadzoneKind::LowEdge
    } else {
        DeadzoneKind::HighEdge
    }
}

/// The middle of the range of `T`, rounded toward zero.
pub open spec fn midpoint<T: NormalizableNumber>() -> int {
    div_toward_zero(T::min_int() + T::max_int(), 2)
}

/// The output for a value that a deadzone of the given kind encloses.
pub open spec fn resolved<T: NormalizableNumber>(kind: DeadzoneKind) -> int {
    match kind {
        DeadzoneKind::Centering => midpoint::<T>(),
        DeadzoneKind::LowEdge => T::min_int(),
        DeadzoneKind::HighEdge => T::max_int(),
    }
}

/// What an axis holds.
pub struct AxisView {
    pub value: u64,
    pub min: u64,
    pub max: u64,
    pub deadzones: Option<Seq<Range<u64>>>,
}

impl AxisView {
    /// The value lies within the bounds.
    pub open spec fn in_bounds(self) -> bool {
        self.min <= self.value <= self.max
    }

    /// The deadzones, none counting as an empty list.
    pub open spec fn zones(self) -> Seq<Range<u64>> {
        match self.deadzones {
            Some(z) => z,
            None => Seq::empty(),
        }
    }

    /// The value mapped linearly onto the whole range of `T`.
    pub open spec fn linear<T: NormalizableNumber>(self) -> int {
        saturate(
            rescale(
                self.value as int,
                self.min as int,
                self.max as int,
                T::min_int(),
                T::max_int(),
            ),
            T::min_int(),
            T::max_int(),
        )
    }

    /// The value as an output of type `T`: resolved by the first deadzone
    /// that encloses it where deadzones are in use, mapped linearly
    /// otherwise.
    pub open spec fn converted<T: NormalizableNumber>(self, use_deadzones: bool) -> int {
        if use_deadzones {
            match first_enclosing(self.zones(), self.value) {
                Some(zone) => resolved::<T>(classify(self.value, self.min, self.max, zone)),
                None => self.linear::<T>(),
            }
        } else {
            self.linear::<T>()
        }
    }

    /// The same axis with its value mirrored within the bounds.
    pub open spec fn inverted(self) -> AxisView {
        AxisView { value: (self.min + (self.max - self.value)) as u64, ..self }
    }
}

/// What a list of deadzones holds, if there is one.
pub open spec fn zones_view(zones: Option<Vec<Range<u64>>>) -> Option<Seq<Range<u64>>> {
    match zones {
        Some(z) => Some(z@),
        None => None,
    }
}

/// The canonical value of a sample `from_value` taken on `min..=max`.
pub open spec fn canonical<T: NormalizableNumber>(
    from_value: T,
    min: Option<T>,
    max: Option<T>,
) -> u64 {
    normalize_spec::<T, u64>(from_value, min, max, None, None) as u64
}

/// The deadzone `zone` of a foreign domain `min..=max`, carried into the
/// canonical domain `to_min..=to_max`.
pub open spec fn canonical_zone<T: NormalizableNumber>(
    zone: Range<T>,
    min: T,
    max: T,
    to_min: u64,
    to_max: u64,
) -> Range<u64> {
    (Range {
        start: normalize_spec::<T, u64>(
            zone.start,
            Some(min),
            Some(max),
            Some(to_min),
            Some(to_max),
        ) as u64,
        end: normalize_spec::<T, u64>(zone.end, Some(min), Some(max), Some(to_min), Some(to_max))
            as u64,
    })
}

/// A control value in the canonical domain, the bounds of that domain, and
/// the deadzones of the control.
#[derive(Debug)]
pub struct Axis {
    value: u64,
    min: u64,
    max: u64,
    deadzones: Option<Vec<Range<u64>>>,
}

impl View for Axis {
    type V = AxisView;

    closed spec fn view(&self) -> AxisView {
        AxisView {
            value: self.value,
            min: self.min,
            max: self.max,
            deadzones: zones_view(self.deadzones),
        }
    }
}

/// A copy of a list of deadzones.
fn copy_zones(zones: &Vec<Range<u64>>) -> (r: Vec<Range<u64>>)
    ensures
        r@ == zones@,
{
    let mut out: Vec<Range<u64>> = Vec::new();
    let mut i: usize = 0;
    while i < zones.len()
        invariant
            i <= zones.len(),
            out@ == zones@.subrange(0, i as int),
        decreases zones.len() - i,
    {
        out.push(Range { start: zones[i].start, end: zones[i].end });
        i += 1;
    }
    out
}

impl Clone for Axis {
    fn clone(&self) -> (r: Axis)
        ensures
            r@ == self@,
    {
        proof {
            use_type_invariant(self);
        }
        let deadzones = match &self.deadzones {
            Some(z) => Some(copy_zones(z)),
            None => None,
        };
        Axis { value: self.value, min: self.min, max: self.max, deadzones }
    }
}

impl Default for Axis {
    fn default() -> (r: Axis)
        ensures
            r@ == (AxisView { value: 0, min: 0, max: u64::MAX, deadzones: None }),
    {
        Axis { min: u64::MIN, max: u64::MAX, value: 0, deadzones: None }
    }
}

impl Axis {
    /// The bounds are those of the canonical domain, the whole of `u64`, so
    /// the value lies within them whatever it is.
    #[verifier::type_invariant]
    spec fn canonical_bounds(self) -> bool {
        self.min == u64::MIN && self.max == u64::MAX
    }

    /// An axis for a sample `from_value` taken on `min..=max`, where a bound
    /// that is not given is that of `T`. The sample is stored in the
    /// canonical domain, which is the whole of `u64`.
    pub fn new<T: NormalizableNumber>(from_value: T, min: Option<T>, max: Option<T>) -> (r: Axis)
        ensures
            r@ == (AxisView {
                value: canonical(from_value, min, max),
                min: 0,
                max: u64::MAX,
                deadzones: None,
            }),
    {
        let min_val: u64 = u64::MIN;
        let max_val: u64 = u64::MAX;
        Axis {
            value: normalize(from_value, min, max, Some(min_val), Some(max_val)),
            min: min_val,
            max: max_val,
            deadzones: None,
        }
    }

    /// Takes a new sample `from_value` on `min..=max`, as `new` does, and
    /// keeps the deadzones.
    pub fn set_values<T: NormalizableNumber>(
        &mut self,
        from_value: T,
        min: Option<T>,
        max: Option<T>,
    )
        ensures
            final(self)@ == (AxisView {
                value: canonical(from_value, min, max),
                min: 0,
                max: u64::MAX,
                deadzones: old(self)@.deadzones,
            }),
    {
        proof {
            use_type_invariant(&*self);
        }
        let min_val: u64 = u64::MIN;
        let max_val: u64 = u64::MAX;
        self.value = normalize(from_value, min, max, Some(min_val), Some(max_val));
        self.min = min_val;
        self.max = max_val;
    }

    /// The canonical value.
    pub fn get_value(&self) -> (r: &u64)
        ensures
            *r == self@.value,
    {
        &self.value
    }

    /// Stores `value`, which is taken to be canonical already.
    pub fn set_value(&mut self, value: u64)
        ensures
            final(self)@ == (AxisView { value, ..old(self)@ }),
    {
        proof {
            use_type_invariant(&*self);
        }
        self.value = value;
    }

    /// The lower bound of the canonical domain.
    pub fn get_min(&self) -> (r: &u64)
        ensures
            *r == self@.min,
            *r == u64::MIN,
    {
        proof {
            use_type_invariant(self);
        }
        &self.min
    }

    /// The upper bound of the canonical domain.
    pub fn get_max(&self) -> (r: &u64)
        ensures
            *r == self@.max,
            *r == u64::MAX,
    {
        proof {
            use_type_invariant(self);
        }
        &self.max
    }

    /// Replaces the deadzones.
    pub fn set_deadzones(&mut self, deadzones: Vec<Range<u64>>)
        ensures
            final(self)@ == (AxisView { deadzones: Some(deadzones@), ..old(self)@ }),
    {
        proof {
            use_type_invariant(&*self);
        }
        self.deadzones = Some(deadzones);
    }

    /// The deadzones, if any were set.
    pub fn get_deadzones(&self) -> (r: &Option<Vec<Range<u64>>>)
        ensures
            zones_view(*r) == self@.deadzones,
    {
        &self.deadzones
    }

    /// Carries each deadzone of `input`, given in a foreign domain
    /// `min..=max`, into the canonical domain of this axis.
    pub fn make_deadzone<T: NormalizableNumber>(&self, input: Vec<Range<T>>, min: T, max: T) -> (r:
        Vec<Range<u64>>)
        ensures
            r@.len() == input@.len(),
            forall|i: int|
                0 <= i < input@.len() ==> r@[i] == canonical_zone(
                    #[trigger] input@[i],
                    min,
                    max,
                    self@.min,
                    self@.max,
                ),
    {
        let mut out: Vec<Range<u64>> = Vec::new();
        let mut i: usize = 0;
        while i < input.len()
            invariant
                i <= input.len(),
                out@.len() == i,
                forall|j: int|
                    0 <= j < i ==> out@[j] == canonical_zone(
                        #[trigger] input@[j],
                        min,
                        max,
                        self.min,
                        self.max,
                    ),
            decreases input.len() - i,
        {
            let start_normalized: u64 = normalize(
                input[i].start,
                Some(min),
                Some(max),
                Some(self.min),
                Some(self.max),
            );
            let end_normalized: u64 = normalize(
                input[i].end,
                Some(min),
                Some(max),
                Some(self.min),
                Some(self.max),
            );
            out.push(Range { start: start_normalized, end: end_normalized });
            i += 1;
        }
        out
    }

    /// The first deadzone that encloses the value.
    fn enclosing_zone(&self) -> (r: Option<(u64, u64)>)
        ensures
            match r {
                Some((start, end)) => first_enclosing(self@.zones(), self@.value) == Some(
                    Range { start, end },
                ),
                None => first_enclosing(self@.zones(), self@.value).is_none(),
            },
    {
        match &self.deadzones {
            None => None,
            Some(zones) => {
                let mut i: usize = 0;
                assert(zones@.subrange(0, zones@.len() as int) == zones@);
                while i < zones.len()
                    invariant
                        i <= zones.len(),
                        self@.deadzones == Some(zones@),
                        first_enclosing(zones@, self.value) == first_enclosing(
                            zones@.subrange(i as int, zones@.len() as int),
                            self.value,
                        ),
                    decreases zones.len() - i,
                {
                    let ghost rest = zones@.subrange(i as int, zones@.len() as int);
                    assert(rest[0] == zones@[i as int]);
                    assert(rest.drop_first() == zones@.subrange(i + 1, zones@.len() as int));
                    if zones[i].start <= self.value && self.value < zones[i].end {
                        return Some((zones[i].start, zones[i].end));
                    }
                    i += 1;
                }
                None
            },
        }
    }

    /// The kind of the deadzone `start..end`, which encloses the value.
    fn classify_zone(&self, start: u64, end: u64) -> (r: DeadzoneKind)
        ensures
            r == classify(self@.value, self@.min, self@.max, Range { start, end }),
    {
        let min: i128 = self.min as i128;
        let width: i128 = if self.min <= self.max {
            self.max as i128 - min
        } else {
            min - self.max as i128
        };
        if 10 * (start as i128 - min) > 3 * width && 10 * (end as i128 - min) < 7 * width {
            DeadzoneKind::Centering
        } else if 10 * (self.value as i128 - min) < 3 * width {
            DeadzoneKind::LowEdge
        } else {
            DeadzoneKind::HighEdge
        }
    }

    /// The value as an output of type `T`. With deadzones in use (the
    /// default), a value that a deadzone encloses becomes the middle, the
    /// minimum or the maximum of `T`, by the kind of the first such
    /// deadzone; any other value is rescaled onto the whole range of `T`.
    pub fn convert_into<T: NormalizableNumber>(&self, use_deadzones: Option<bool>) -> (r: T)
        ensures
            r.as_int() == self@.converted::<T>(
                match use_deadzones {
                    Some(b) => b,
                    None => true,
                },
            ),
    {
        let with_zones: bool = match use_deadzones {
            Some(b) => b,
            None => true,
        };
        if with_zones {
            if let Some((start, end)) = self.enclosing_zone() {
                return match self.classify_zone(start, end) {
                    DeadzoneKind::Centering => middle_value::<T>(),
                    DeadzoneKind::LowEdge => T::min_value(),
                    DeadzoneKind::HighEdge => T::max_value(),
                };
            }
        }
        normalize(self.value, Some(self.min), Some(self.max), None, None)
    }

    /// The same axis with its value mirrored within the bounds.
    pub fn invert(&self) -> (r: Axis)
        ensures
            self@.in_bounds(),
            r@ == self@.inverted(),
    {
        proof {
            use_type_invariant(self);
        }
        let inverted_value: u64 = self.min + (self.max - self.value);
        let deadzones = match &self.deadzones {
            Some(z) => Some(copy_zones(z)),
            None => None,
        };
        Axis { value: inverted_value, min: self.min, max: self.max, deadzones }
    }
}

/// The middle of the range of `T`, rounded toward zero.
fn middle_value<T: NormalizableNumber>() -> (r: T)
    ensures
        r.as_int() == midpoint::<T>(),
{
    let low: T = T::min_value();
    let high: T = T::max_value();
    proof {
        low.lemma_range();
    }
    let sum: i128 = low.to_wide() + high.to_wide();
    let middle: i128 = if sum >= 0 {
        ((sum as u128) / 2) as i128
    } else {
        -((((-sum) as u128) / 2) as i128)
    };
    match T::from_wide(middle) {
        Some(m) => m,
        None => low,
    }
}

/// The two axes of a stick.
pub struct JoystickState {
    pub x: Axis,
    pub y: Axis,
}

impl JoystickState {
    /// A stick with `axis1` as its horizontal and `axis2` as its vertical
    /// axis.
    pub fn new(axis1: Axis, axis2: Axis) -> (r: JoystickState)
        ensures
            r.x == axis1,
            r.y == axis2,
    {
        JoystickState { x: axis1, y: axis2 }
    }
}

/// The first enclosing deadzone is one of the deadzones and holds the
/// value, and none before it does; there is none only where no deadzone
/// holds the value.
pub proof fn lemma_first_enclosing(zones: Seq<Range<u64>>, value: u64)
    ensures
        match first_enclosing(zones, value) {
            Some(zone) => exists|i: int|
                0 <= i < zones.len() && #[trigger] zones[i] == zone && zone_holds(zone, value)
                    && forall|j: int| 0 <= j < i ==> !zone_holds(#[trigger] zones[j], value),
            None => forall|j: int| 0 <= j < zones.len() ==> !zone_holds(#[trigger] zones[j], value),
        },
    decreases zones.len(),
{
    if zones.len() > 0 && !zone_holds(zones[0], value) {
        let rest = zones.drop_first();
        lemma_first_enclosing(rest, value);
        match first_enclosing(rest, value) {
            Some(zone) => {
                let i = choose|i: int|
                    0 <= i < rest.len() && #[trigger] rest[i] == zone && zone_holds(zone, value)
                        && forall|j: int| 0 <= j < i ==> !zone_holds(#[trigger] rest[j], value);
                assert(zones[i + 1] == zone);
                assert forall|j: int| 0 <= j < i + 1 implies !zone_holds(
                    #[trigger] zones[j],
                    value,
                ) by {
                    if j > 0 {
                        assert(zones[j] == rest[j - 1]);
                    }
                }
            },
            None => {
                assert forall|j: int| 0 <= j < zones.len() implies !zone_holds(
                    #[trigger] zones[j],
                    value,
                ) by {
                    if j > 0 {
                        assert(zones[j] == rest[j - 1]);
                    }
                }
            },
        }
    } else if zones.len() > 0 {
        assert(zones[0] == zones[0]);
    }
}

/// A value whose enclosing deadzone starts above three tenths and ends
/// below seven tenths of the axis converts to exactly the middle of the
/// output type.
pub proof fn lemma_centering_deadzone<T: NormalizableNumber>(axis: AxisView, zone: Range<u64>)
    requires
        first_enclosing(axis.zones(), axis.value) == Some(zone),
        above_tenths(zone.start as int, axis.min as int, axis.max as int, 3),
        below_tenths(zone.end as int, axis.min as int, axis.max as int, 7),
    ensures
        axis.converted::<T>(true) == midpoint::<T>(),
{
}

/// A value whose enclosing deadzone is not a centering one converts to the
/// minimum of the output type where the value lies below three tenths of
/// the axis, and to the maximum elsewhere.
pub proof fn lemma_edge_deadzone<T: NormalizableNumber>(axis: AxisView, zone: Range<u64>)
    requires
        first_enclosing(axis.zones(), axis.value) == Some(zone),
        !(above_tenths(zone.start as int, axis.min as int, axis.max as int, 3) && below_tenths(
            zone.end as int,
            axis.min as int,
            axis.max as int,
            7,
        )),
    ensures
        axis.converted::<T>(true) == if below_tenths(
            axis.value as int,
            axis.min as int,
            axis.max as int,
            3,
        ) {
            T::min_int()
        } else {
            T::max_int()
        },
{
}

/// Inverting twice gives the axis back.
pub proof fn lemma_invert_twice(axis: AxisView)
    requires
        axis.in_bounds(),
    ensures
        axis.inverted().in_bounds(),
        axis.inverted().inverted() == axis,
{
}

/// An axis over the whole canonical domain converts to its own value in
/// the canonical type.
pub proof fn lemma_canonical_identity(axis: AxisView)
    requires
        axis.min == 0,
        axis.max == u64::MAX,
    ensures
        axis.linear::<u64>() == axis.value,
{
    let width = u64::MAX as int;
    assert((axis.value - 0) * width + 0 * width == axis.value * width + 0) by (nonlinear_arith);
    lemma_round_added_fraction(axis.value * width, width, axis.value as int, 0);
}

} // verus!
