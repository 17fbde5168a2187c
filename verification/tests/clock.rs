use std::time::Duration;
use tracks::{
    Timespan, Volume, MAX_NANOS, NANOS_PER_MILLI, NANOS_PER_SEC, TIMESTEP_NANOS, UNITY_GAIN_BITS,
};

fn span(nanos: u128) -> Timespan {
    Timespan::from_nanos(nanos).unwrap()
}

#[test]
fn the_constants_are_those_of_the_clock() {
    assert_eq!(NANOS_PER_SEC, 1_000_000_000);
    assert_eq!(NANOS_PER_MILLI, 1_000_000);
    assert_eq!(TIMESTEP_NANOS, 20_000_000);
    assert_eq!(MAX_NANOS, Duration::MAX.as_nanos());
}

#[test]
fn one_frame_is_twenty_milliseconds() {
    assert_eq!(Timespan::timestep().as_nanos(), Duration::from_millis(20).as_nanos());
    assert_eq!(Timespan::timestep(), Timespan::from_millis(20));
}

#[test]
fn zero_is_the_default_span() {
    assert_eq!(Timespan::zero().as_nanos(), 0);
    assert_eq!(Timespan::default(), Timespan::zero());
}

#[test]
fn from_nanos_takes_what_fits() {
    assert_eq!(span(0).as_nanos(), 0);
    assert_eq!(span(1_500_000_000).as_nanos(), 1_500_000_000);
    assert_eq!(span(MAX_NANOS).as_nanos(), MAX_NANOS);
    assert_eq!(Timespan::from_nanos(MAX_NANOS + 1), None);
    assert_eq!(Timespan::from_nanos(u128::MAX), None);
}

#[test]
fn from_millis_counts_in_millions() {
    assert_eq!(Timespan::from_millis(0).as_nanos(), 0);
    assert_eq!(Timespan::from_millis(1).as_nanos(), 1_000_000);
    assert_eq!(Timespan::from_millis(1500).as_nanos(), 1_500_000_000);
    assert_eq!(
        Timespan::from_millis(u64::MAX).as_nanos(),
        Duration::from_millis(u64::MAX).as_nanos()
    );
}

#[test]
fn a_span_splits_into_seconds_and_the_rest() {
    let t = span(3_250_000_007);
    assert_eq!(t.as_secs(), 3);
    assert_eq!(t.subsec_nanos(), 250_000_007);
    let d = Duration::new(t.as_secs(), t.subsec_nanos());
    assert_eq!(d.as_nanos(), t.as_nanos());
    let longest = span(MAX_NANOS);
    assert_eq!(longest.as_secs(), u64::MAX);
    assert_eq!(longest.subsec_nanos(), 999_999_999);
}

#[test]
fn checked_add_stops_at_the_longest_span() {
    assert_eq!(span(5).checked_add(span(7)), Some(span(12)));
    assert_eq!(span(MAX_NANOS - 1).checked_add(span(1)), Some(span(MAX_NANOS)));
    assert_eq!(span(MAX_NANOS).checked_add(span(1)), None);
    assert_eq!(span(MAX_NANOS).checked_add(span(MAX_NANOS)), None);
    assert_eq!(span(MAX_NANOS).checked_add(span(0)), Some(span(MAX_NANOS)));
}

#[test]
fn extended_by_adds_the_lengths() {
    assert_eq!(span(40).extended_by(span(2)), span(42));
    assert_eq!(span(0).extended_by(Timespan::timestep()), Timespan::from_millis(20));
}

#[test]
fn volume_keeps_its_bits() {
    assert_eq!(Volume::default().to_bits(), UNITY_GAIN_BITS);
    assert_eq!(f32::from_bits(Volume::default().to_bits()), 1.0);
    for gain in [0.0f32, 0.2, 0.8, 1.0, 2.5, -1.0] {
        let v = Volume::from_bits(gain.to_bits());
        assert_eq!(f32::from_bits(v.to_bits()), gain);
        assert_eq!(v.bits, gain.to_bits());
    }
}
