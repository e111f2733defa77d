//! Setting the playback pitch.

use vstd::prelude::*;

use crate::filter::{
    bits_in_unit_range, bits_is_zero, in_unit_range, is_zero, normalize, normalized,
    timescale_of, FilterSet, Timescale, UpdateFilter, ONE_BITS,
};

verus! {

/// How a pitch multiplier is presented to the user.
#[derive(Clone, Copy, Debug, PartialEq, Eq, Structural)]
pub enum Tier {
    Default,
    Low,
    High,
}

impl Tier {
    /// The emoji that stands for this tier in replies.
    pub fn emoji(&self) -> (r: &'static str)
        ensures
            *self == Tier::Default ==> r@ == "🎵"@,
            *self == Tier::Low ==> r@ == "⬇️"@,
            *self == Tier::High ==> r@ == "⬆️"@,
    {
        match self {
            Tier::Default => "🎵",
            Tier::Low => "⬇️",
            Tier::High => "⬆️",
        }
    }
}

/// The effect that sets the pitch field of the time-stretching slot. `None`
/// leaves the pitch unset (neutral).
#[derive(Clone, Copy, Debug, PartialEq, Eq, Structural)]
pub struct SetPitch(pub Option<u64>);

impl SetPitch {
    /// What [`SetPitch::new`] gives for a multiplier: nothing for zero, else
    /// the normalised multiplier.
    pub open spec fn spec_new(multiplier: u64) -> Option<SetPitch> {
        if is_zero(multiplier) {
            None
        } else {
            Some(SetPitch(normalized(multiplier)))
        }
    }

    /// Builds the effect from the bit pattern of the multiplier the user gave;
    /// `None` (reject) for a zero multiplier.
    pub fn new(multiplier: u64) -> (r: Option<SetPitch>)
        ensures
            r == SetPitch::spec_new(multiplier),
    {
        if bits_is_zero(multiplier) {
            None
        } else {
            Some(SetPitch(normalize(multiplier)))
        }
    }

    /// `timescale` with its pitch replaced by this effect's.
    pub open spec fn spec_into_timescale_via(self, timescale: Timescale) -> Timescale {
        Timescale { pitch: self.0, ..timescale }
    }

    /// `timescale` with its pitch replaced by this effect's.
    pub fn into_timescale_via(self, timescale: &Timescale) -> (r: Timescale)
        ensures
            r == self.spec_into_timescale_via(*timescale),
    {
        Timescale { pitch: self.0, ..*timescale }
    }

    /// The multiplier in effect: `1.0` where unset.
    pub open spec fn spec_multiplier(self) -> u64 {
        match self.0 {
            Some(m) => m,
            None => ONE_BITS,
        }
    }

    /// The multiplier in effect: `1.0` where unset.
    pub fn multiplier(&self) -> (r: u64)
        ensures
            r == self.spec_multiplier(),
    {
        match self.0 {
            Some(m) => m,
            None => ONE_BITS,
        }
    }

    /// The tier of this effect: unset, in `0.0..=1.0`, or above.
    pub open spec fn spec_tier(self) -> Tier {
        match self.0 {
            None => Tier::Default,
            Some(m) => if in_unit_range(m) {
                Tier::Low
            } else {
                Tier::High
            },
        }
    }

    /// The tier of this effect: unset, in `0.0..=1.0`, or above.
    pub fn tier(&self) -> (r: Tier)
        ensures
            r == self.spec_tier(),
    {
        match self.0 {
            None => Tier::Default,
            Some(m) => if bits_in_unit_range(m) {
                Tier::Low
            } else {
                Tier::High
            },
        }
    }
}

impl UpdateFilter for SetPitch {
    open spec fn applied(&self, filter: FilterSet) -> FilterSet {
        FilterSet {
            timescale: Some(self.spec_into_timescale_via(filter.timescale_or_unset())),
            ..filter
        }
    }

    fn apply(self, filter: FilterSet) -> (r: FilterSet) {
        let timescale = Some(self.into_timescale_via(&timescale_of(&filter)));
        FilterSet { timescale, ..filter }
    }
}

/// The pitch-setting command: the multiplier the user gave, as a bit pattern.
#[derive(Clone, Copy, Debug, PartialEq, Eq, Structural)]
pub struct PitchSet {
    pub multiplier: u64,
}

impl PitchSet {
    /// The effect this command applies, or `None` where it is rejected.
    pub fn update(&self) -> (r: Option<SetPitch>)
        ensures
            r == SetPitch::spec_new(self.multiplier),
    {
        SetPitch::new(self.multiplier)
    }
}

} // verus!
