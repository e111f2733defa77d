//! Setting the playback speed.

use vstd::prelude::*;

use crate::filter::{
    bits_in_unit_range, bits_is_zero, in_unit_range, is_zero, normalize, normalized,
    timescale_of, FilterSet, Timescale, UpdateFilter, ONE_BITS,
};

verus! {

/// How a speed multiplier is presented to the user.
#[derive(Clone, Copy, Debug, PartialEq, Eq, Structural)]
pub enum Tier {
    Default,
    Fast,
    Slow,
}

impl Tier {
    /// The emoji that stands for this tier in replies.
    pub fn emoji(&self) -> (r: &'static str)
        ensures
            *self == Tier::Default ==> r@ == "🚶"@,
            *self == Tier::Fast ==> r@ == "🐇"@,
            *self == Tier::Slow ==> r@ == "🐢"@,
    {
        match self {
            Tier::Default => "🚶",
            Tier::Fast => "🐇",
            Tier::Slow => "🐢",
        }
    }
}

/// The effect that sets the playback speed. Without pitch shift it writes the
/// speed field of the time-stretching slot; with pitch shift it writes the
/// rate field instead. Either way the other of the two is cleared.
#[derive(Clone, Copy, Debug, PartialEq, Eq, Structural)]
pub struct SpeedFilter {
    pub multiplier: Option<u64>,
    pub pitch_shift: bool,
}

impl SpeedFilter {
    /// What [`SpeedFilter::new`] gives: nothing for a zero multiplier, else the
    /// normalised multiplier with the pitch-shift flag.
    pub open spec fn spec_new(multiplier: u64, pitch_shift: bool) -> Option<SpeedFilter> {
        if is_zero(multiplier) {
            None
        } else {
            Some(SpeedFilter { multiplier: normalized(multiplier), pitch_shift })
        }
    }

    /// Builds the effect from the bit pattern of the multiplier the user gave;
    /// `None` (reject) for a zero multiplier.
    pub fn new(multiplier: u64, pitch_shift: bool) -> (r: Option<SpeedFilter>)
        ensures
            r == SpeedFilter::spec_new(multiplier, pitch_shift),
    {
        if bits_is_zero(multiplier) {
            None
        } else {
            Some(SpeedFilter { multiplier: normalize(multiplier), pitch_shift })
        }
    }

    /// `timescale` with speed and rate replaced; pitch is kept.
    pub open spec fn spec_into_timescale_via(self, timescale: Timescale) -> Timescale {
        if self.pitch_shift {
            Timescale { speed: None, rate: self.multiplier, ..timescale }
        } else {
            Timescale { speed: self.multiplier, rate: None, ..timescale }
        }
    }

    /// `timescale` with speed and rate replaced; pitch is kept.
    pub fn into_timescale_via(self, timescale: &Timescale) -> (r: Timescale)
        ensures
            r == self.spec_into_timescale_via(*timescale),
    {
        let (speed, rate) = if self.pitch_shift {
            (None, self.multiplier)
        } else {
            (self.multiplier, None)
        };
        Timescale { speed, rate, ..*timescale }
    }

    /// The multiplier in effect: `1.0` where unset.
    pub open spec fn spec_multiplier(self) -> u64 {
        match self.multiplier {
            Some(m) => m,
            None => ONE_BITS,
        }
    }

    /// The multiplier in effect: `1.0` where unset.
    pub fn multiplier(&self) -> (r: u64)
        ensures
            r == self.spec_multiplier(),
    {
        match self.multiplier {
            Some(m) => m,
            None => ONE_BITS,
        }
    }

    /// The tier of this effect: unset, in `0.0..=1.0` (slow), or above (fast).
    pub open spec fn spec_tier(self) -> Tier {
        match self.multiplier {
            None => Tier::Default,
            Some(m) => if in_unit_range(m) {
                Tier::Slow
            } else {
                Tier::Fast
            },
        }
    }

    /// The tier of this effect: unset, in `0.0..=1.0` (slow), or above (fast).
    pub fn tier(&self) -> (r: Tier)
        ensures
            r == self.spec_tier(),
    {
        match self.multiplier {
            None => Tier::Default,
            Some(m) => if bits_in_unit_range(m) {
                Tier::Slow
            } else {
                Tier::Fast
            },
        }
    }
}

impl UpdateFilter for SpeedFilter {
    open spec fn applied(&self, filter: FilterSet) -> FilterSet {
        FilterSet {
            timescale: Some(self.spec_into_timescale_via(filter.timescale_or_unset())),
            ..filter
        }
    }

    fn apply(self, filter: FilterSet) -> (r: FilterSet) {
        let timescale = Some(self.into_timescale_via(&timescale_of(&filter)));
        FilterSet { timescale, ..filter }
    }
}

/// The speed command: the multiplier the user gave, as a bit pattern, and
/// whether the pitch shifts along (no, where not given).
#[derive(Clone, Copy, Debug, PartialEq, Eq, Structural)]
pub struct Speed {
    pub multiplier: u64,
    pub pitch_shift: Option<bool>,
}

impl Speed {
    /// The effect this command applies, or `None` where it is rejected.
    pub fn update(&self) -> (r: Option<SpeedFilter>)
        ensures
            r == SpeedFilter::spec_new(
                self.multiplier,
                match self.pitch_shift {
                    Some(p) => p,
                    None => false,
                },
            ),
    {
        let pitch_shift = match self.pitch_shift {
            Some(p) => p,
            None => false,
        };
        SpeedFilter::new(self.multiplier, pitch_shift)
    }
}

} // verus!
