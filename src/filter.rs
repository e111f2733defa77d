//! The audio filter model: effect slots of a filter set, and the effects that
//! rewrite them.
//!
//! Effect magnitudes are IEEE 754 binary64 values. They are carried as their
//! bit patterns (`f64::to_bits`), so every decision on them below (is it zero,
//! is it within machine epsilon of the neutral 1.0, is it at most 1.0) is
//! stated and proved exactly over integers.

pub mod pitch;
pub mod speed;
pub mod tremolo;
pub mod composition;

use vstd::prelude::*;

verus! {

/// Bit pattern of `1.0`, the neutral multiplier.
pub const ONE_BITS: u64 = 0x3FF0_0000_0000_0000;

/// Bit pattern of `-0.0`; the sign bit alone.
pub const SIGN_BIT: u64 = 0x8000_0000_0000_0000;

/// Bit pattern of positive infinity.
pub const INFINITY_BITS: u64 = 0x7FF0_0000_0000_0000;

/// Bit pattern of negative infinity.
pub const NEG_INFINITY_BITS: u64 = 0xFFF0_0000_0000_0000;

/// Bit pattern of `1.0 - f64::EPSILON`, the lowest value whose distance to
/// `1.0` is not more than `f64::EPSILON`.
pub const NEUTRAL_LOW: u64 = 0x3FEF_FFFF_FFFF_FFFE;

/// Bit pattern of `1.0 + f64::EPSILON`, the highest value whose distance to
/// `1.0` is not more than `f64::EPSILON`.
pub const NEUTRAL_HIGH: u64 = 0x3FF0_0000_0000_0001;

/// `0.0` or `-0.0`: the values that compare equal to zero.
pub open spec fn is_zero(b: u64) -> bool {
    b == 0 || b == SIGN_BIT
}

/// A NaN of either sign: all exponent bits set and a non-zero mantissa.
pub open spec fn is_nan(b: u64) -> bool {
    (INFINITY_BITS < b && b < SIGN_BIT) || NEG_INFINITY_BITS < b
}

/// Whether `|x - 1.0| > f64::EPSILON` holds of the value `x` with these bits.
/// A NaN compares false; otherwise exactly the values outside
/// `[1.0 - EPSILON, 1.0 + EPSILON]` are more than epsilon away, and inside
/// that band the subtraction is exact.
pub open spec fn differs_from_one(b: u64) -> bool {
    !is_nan(b) && !(NEUTRAL_LOW <= b && b <= NEUTRAL_HIGH)
}

/// Whether the value lies in the closed range `0.0..=1.0`: the non-negative
/// values up to `1.0`, and `-0.0`.
pub open spec fn in_unit_range(b: u64) -> bool {
    b <= ONE_BITS || b == SIGN_BIT
}

/// Whether the value compares equal to `0.0`.
pub fn bits_is_zero(b: u64) -> (r: bool)
    ensures
        r == is_zero(b),
{
    b == 0 || b == SIGN_BIT
}

/// Whether `|x - 1.0| > f64::EPSILON` for the value `x` with these bits.
pub fn bits_differs_from_one(b: u64) -> (r: bool)
    ensures
        r == differs_from_one(b),
{
    let nan = (INFINITY_BITS < b && b < SIGN_BIT) || NEG_INFINITY_BITS < b;
    !nan && !(NEUTRAL_LOW <= b && b <= NEUTRAL_HIGH)
}

/// Whether the value lies in `0.0..=1.0`.
pub fn bits_in_unit_range(b: u64) -> (r: bool)
    ensures
        r == in_unit_range(b),
{
    b <= ONE_BITS || b == SIGN_BIT
}

/// The multiplier a user asked for, normalised: `None` (unset) where it is
/// within machine epsilon of the neutral `1.0`, the value itself otherwise.
pub open spec fn normalized(b: u64) -> Option<u64> {
    if differs_from_one(b) {
        Some(b)
    } else {
        None
    }
}

/// Normalises a multiplier: see [`normalized`].
pub fn normalize(b: u64) -> (r: Option<u64>)
    ensures
        r == normalized(b),
{
    if bits_differs_from_one(b) {
        Some(b)
    } else {
        None
    }
}

/// The time-stretching slot of a filter set. Each field is unset or the bit
/// pattern of a multiplier.
#[derive(Clone, Copy, Debug, PartialEq, Eq, Structural)]
pub struct Timescale {
    pub speed: Option<u64>,
    pub pitch: Option<u64>,
    pub rate: Option<u64>,
}

impl Timescale {
    /// The slot with no field set.
    pub open spec fn spec_unset() -> Timescale {
        Timescale { speed: None, pitch: None, rate: None }
    }

    /// The slot with no field set.
    pub fn unset() -> (r: Timescale)
        ensures
            r == Timescale::spec_unset(),
    {
        Timescale { speed: None, pitch: None, rate: None }
    }
}

/// The oscillation slot of a filter set (tremolo), frequency in Hz and depth
/// in `(0, 1]`, each as a bit pattern.
#[derive(Clone, Copy, Debug, PartialEq, Eq, Structural)]
pub struct TremoloVibrato {
    pub frequency: Option<u64>,
    pub depth: Option<u64>,
}

/// The aggregate of effect slots sent to the audio player. A slot that is
/// `None` has never been set.
#[derive(Clone, Copy, Debug, PartialEq, Eq, Structural)]
pub struct FilterSet {
    pub timescale: Option<Timescale>,
    pub tremolo: Option<TremoloVibrato>,
}

impl FilterSet {
    /// The filter set of a guild that never had a filter applied.
    pub open spec fn spec_empty() -> FilterSet {
        FilterSet { timescale: None, tremolo: None }
    }

    /// The filter set of a guild that never had a filter applied.
    pub fn empty() -> (r: FilterSet)
        ensures
            r == FilterSet::spec_empty(),
    {
        FilterSet { timescale: None, tremolo: None }
    }

    /// The time-stretching slot, unset fields where the slot is absent.
    pub open spec fn timescale_or_unset(self) -> Timescale {
        match self.timescale {
            Some(t) => t,
            None => Timescale::spec_unset(),
        }
    }
}

/// An effect that rewrites a filter set: the new set is built from the old
/// one, which is never changed in place.
pub trait UpdateFilter: Sized {
    /// The filter set that results from applying this effect to `filter`.
    spec fn applied(&self, filter: FilterSet) -> FilterSet;

    fn apply(self, filter: FilterSet) -> (r: FilterSet)
        ensures
            r == self.applied(filter),
    ;
}

/// The time-stretching slot of `filter`, unset fields where it has none.
pub fn timescale_of(filter: &FilterSet) -> (r: Timescale)
    ensures
        r == filter.timescale_or_unset(),
{
    match filter.timescale {
        Some(t) => t,
        None => Timescale::unset(),
    }
}

} // verus!
