//! How effects that share the time-stretching slot compose, and what the
//! neutral multiplier does.

use vstd::prelude::*;

use crate::filter::pitch::{self, SetPitch};
use crate::filter::speed::{self, SpeedFilter};
use crate::filter::{
    differs_from_one, is_zero, FilterSet, Timescale, UpdateFilter, NEUTRAL_HIGH, NEUTRAL_LOW,
};

verus! {

/// Pitch, then speed: the result is what the speed effect alone gives, except
/// for the pitch field, which the speed effect does not write and which holds
/// what the pitch effect set.
pub proof fn lemma_pitch_then_speed(a: SetPitch, b: SpeedFilter, filter: FilterSet)
    ensures
        b.applied(a.applied(filter)) == (FilterSet {
            timescale: Some(
                Timescale {
                    pitch: a.applied(filter).timescale_or_unset().pitch,
                    ..b.applied(filter).timescale_or_unset()
                },
            ),
            ..b.applied(filter)
        }),
{
}

/// Speed, then pitch: the result is what the pitch effect alone gives, except
/// for the speed and rate fields, which the pitch effect does not write and
/// which hold what the speed effect set.
pub proof fn lemma_speed_then_pitch(a: SpeedFilter, b: SetPitch, filter: FilterSet)
    ensures
        b.applied(a.applied(filter)) == (FilterSet {
            timescale: Some(
                Timescale {
                    speed: a.applied(filter).timescale_or_unset().speed,
                    rate: a.applied(filter).timescale_or_unset().rate,
                    ..b.applied(filter).timescale_or_unset()
                },
            ),
            ..b.applied(filter)
        }),
{
}

/// Two pitch effects in a row: the second wins, the first leaves no trace.
pub proof fn lemma_pitch_then_pitch(a: SetPitch, b: SetPitch, filter: FilterSet)
    ensures
        b.applied(a.applied(filter)) == b.applied(filter),
{
}

/// Two speed effects in a row: the second wins, the first leaves no trace.
pub proof fn lemma_speed_then_speed(a: SpeedFilter, b: SpeedFilter, filter: FilterSet)
    ensures
        b.applied(a.applied(filter)) == b.applied(filter),
{
}

/// A pitch multiplier within machine epsilon of the neutral `1.0` (so `1.0`
/// itself) builds an unset effect of the default tier, and applying it leaves
/// the pitch field unset, as if no pitch had ever been applied, while every
/// other field keeps its value.
pub proof fn lemma_neutral_pitch(multiplier: u64, filter: FilterSet)
    requires
        NEUTRAL_LOW <= multiplier <= NEUTRAL_HIGH,
    ensures
        SetPitch::spec_new(multiplier) == Some(SetPitch(None)),
        SetPitch(None).spec_tier() == pitch::Tier::Default,
        SetPitch(None).applied(filter).timescale_or_unset().pitch
            == FilterSet::spec_empty().timescale_or_unset().pitch,
        SetPitch(None).applied(filter) == (FilterSet {
            timescale: Some(Timescale { pitch: None, ..filter.timescale_or_unset() }),
            ..filter
        }),
{
    assert(!is_zero(multiplier));
    assert(!differs_from_one(multiplier));
}

/// A speed multiplier within machine epsilon of the neutral `1.0` builds an
/// unset effect of the default tier, and applying it leaves speed and rate
/// unset, as if no speed had ever been applied, while every other field keeps
/// its value.
pub proof fn lemma_neutral_speed(multiplier: u64, pitch_shift: bool, filter: FilterSet)
    requires
        NEUTRAL_LOW <= multiplier <= NEUTRAL_HIGH,
    ensures
        SpeedFilter::spec_new(multiplier, pitch_shift) == Some(
            SpeedFilter { multiplier: None, pitch_shift },
        ),
        (SpeedFilter { multiplier: None, pitch_shift }).spec_tier() == speed::Tier::Default,
        (SpeedFilter { multiplier: None, pitch_shift }).applied(filter) == (FilterSet {
            timescale: Some(Timescale { speed: None, rate: None, ..filter.timescale_or_unset() }),
            ..filter
        }),
{
    assert(!is_zero(multiplier));
    assert(!differs_from_one(multiplier));
}

} // verus!
