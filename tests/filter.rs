use lyra::filter::pitch::{self, PitchSet, SetPitch};
use lyra::filter::speed::{self, Speed, SpeedFilter};
use lyra::filter::tremolo::{Off, On, SetTremolo, Tremolo};
use lyra::filter::{FilterSet, Timescale, TremoloVibrato, UpdateFilter, ONE_BITS};

fn bits(x: f64) -> u64 {
    x.to_bits()
}

#[test]
fn pitch_then_speed_keeps_pitch() {
    let start = FilterSet::empty();
    let pitched = SetPitch::new(bits(1.5)).unwrap().apply(start);
    assert_eq!(
        pitched.timescale,
        Some(Timescale { speed: None, pitch: Some(bits(1.5)), rate: None })
    );
    let sped = SpeedFilter::new(bits(2.0), false).unwrap().apply(pitched);
    assert_eq!(
        sped.timescale,
        Some(Timescale { speed: Some(bits(2.0)), pitch: Some(bits(1.5)), rate: None })
    );
}

#[test]
fn speed_with_pitch_shift_writes_rate() {
    let start = FilterSet {
        timescale: Some(Timescale { speed: Some(bits(3.0)), pitch: Some(bits(0.5)), rate: None }),
        tremolo: None,
    };
    let r = SpeedFilter::new(bits(1.25), true).unwrap().apply(start);
    assert_eq!(
        r.timescale,
        Some(Timescale { speed: None, pitch: Some(bits(0.5)), rate: Some(bits(1.25)) })
    );
}

#[test]
fn second_pitch_wins() {
    let start = FilterSet::empty();
    let once = SetPitch::new(bits(0.8)).unwrap().apply(start);
    let twice = SetPitch::new(bits(1.2)).unwrap().apply(once);
    assert_eq!(twice, SetPitch::new(bits(1.2)).unwrap().apply(start));
}

#[test]
fn speed_then_pitch_keeps_speed() {
    let start = FilterSet::empty();
    let sped = SpeedFilter::new(bits(0.75), false).unwrap().apply(start);
    let pitched = SetPitch::new(bits(2.0)).unwrap().apply(sped);
    assert_eq!(
        pitched.timescale,
        Some(Timescale { speed: Some(bits(0.75)), pitch: Some(bits(2.0)), rate: None })
    );
}

#[test]
fn zero_multiplier_is_rejected() {
    assert_eq!(SetPitch::new(bits(0.0)), None);
    assert_eq!(SetPitch::new(bits(-0.0)), None);
    assert_eq!(SpeedFilter::new(bits(0.0), true), None);
    assert_eq!(PitchSet { multiplier: bits(0.0) }.update(), None);
    assert_eq!(Speed { multiplier: bits(0.0), pitch_shift: None }.update(), None);
}

#[test]
fn neutral_multiplier_is_unset() {
    let p = SetPitch::new(bits(1.0)).unwrap();
    assert_eq!(p, SetPitch(None));
    assert_eq!(p.tier(), pitch::Tier::Default);
    assert_eq!(p.multiplier(), ONE_BITS);
    assert_eq!(p.multiplier(), bits(1.0));
    let s = SpeedFilter::new(bits(1.0), false).unwrap();
    assert_eq!(s.multiplier, None);
    assert_eq!(s.tier(), speed::Tier::Default);
    let start = FilterSet {
        timescale: Some(Timescale { speed: Some(bits(2.0)), pitch: Some(bits(1.5)), rate: None }),
        tremolo: None,
    };
    let r = p.apply(start);
    assert_eq!(
        r.timescale,
        Some(Timescale { speed: Some(bits(2.0)), pitch: None, rate: None })
    );
    assert_eq!(SetPitch::new(bits(1.0)).unwrap().apply(FilterSet::empty()).timescale, Some(Timescale::unset()));
}

#[test]
fn within_epsilon_of_one_is_unset() {
    assert_eq!(SetPitch::new(bits(1.0 + f64::EPSILON)), Some(SetPitch(None)));
    assert_eq!(SetPitch::new(bits(1.0 - f64::EPSILON)), Some(SetPitch(None)));
    assert_eq!(SetPitch::new(bits(1.0 - f64::EPSILON / 2.0)), Some(SetPitch(None)));
    let above = 1.0 + 2.0 * f64::EPSILON;
    assert_eq!(SetPitch::new(bits(above)), Some(SetPitch(Some(bits(above)))));
    let below = 1.0 - 1.5 * f64::EPSILON;
    assert_eq!(SetPitch::new(bits(below)), Some(SetPitch(Some(bits(below)))));
    assert_eq!(SetPitch::new(bits(f64::NAN)), Some(SetPitch(None)));
    assert_eq!(
        SetPitch::new(bits(f64::INFINITY)),
        Some(SetPitch(Some(bits(f64::INFINITY))))
    );
}

#[test]
fn tiers_follow_the_multiplier() {
    assert_eq!(SetPitch::new(bits(0.5)).unwrap().tier(), pitch::Tier::Low);
    assert_eq!(SetPitch::new(bits(1.5)).unwrap().tier(), pitch::Tier::High);
    assert_eq!(SetPitch::new(bits(-0.5)).unwrap().tier(), pitch::Tier::High);
    assert_eq!(SetPitch::new(bits(0.25)).unwrap().multiplier(), bits(0.25));
    assert_eq!(SpeedFilter::new(bits(0.5), false).unwrap().tier(), speed::Tier::Slow);
    assert_eq!(SpeedFilter::new(bits(2.0), true).unwrap().tier(), speed::Tier::Fast);
    assert_eq!(speed::Tier::Default.emoji(), "🚶");
    assert_eq!(speed::Tier::Fast.emoji(), "🐇");
    assert_eq!(speed::Tier::Slow.emoji(), "🐢");
    assert_eq!(pitch::Tier::Default.emoji(), "🎵");
}

#[test]
fn speed_command_defaults_to_no_pitch_shift() {
    let s = Speed { multiplier: bits(1.5), pitch_shift: None }.update().unwrap();
    assert_eq!(s, SpeedFilter { multiplier: Some(bits(1.5)), pitch_shift: false });
    let s = Speed { multiplier: bits(1.5), pitch_shift: Some(true) }.update().unwrap();
    assert!(s.pitch_shift);
}

#[test]
fn tremolo_on_and_off_touch_only_tremolo() {
    let ts = Timescale { speed: Some(bits(2.0)), pitch: None, rate: None };
    let start = FilterSet { timescale: Some(ts), tremolo: None };
    let on = On { frequency: Some(bits(4.0)), depth: None }.update().unwrap();
    let r = on.apply(start);
    assert_eq!(r.timescale, Some(ts));
    assert_eq!(r.tremolo, Some(TremoloVibrato { frequency: Some(bits(4.0)), depth: None }));
    let off = Off.update();
    assert_eq!(off, None);
    let r2 = off.apply(r);
    assert_eq!(r2, start);
}

#[test]
fn tremolo_zero_setting_is_rejected() {
    assert_eq!(SetTremolo::new(Some(bits(0.0)), None), None);
    assert_eq!(SetTremolo::new(None, Some(bits(0.0))), None);
    assert_eq!(SetTremolo::new(None, None), Some(SetTremolo { frequency: None, depth: None }));
    assert_eq!(Tremolo::On(On { frequency: Some(bits(0.0)), depth: Some(bits(0.5)) }).update(), None);
    assert_eq!(Tremolo::Off(Off).update(), Some(None));
}
