use cave_story::units::{millis_from_parts, Milliseconds};
use std::time::Duration;

#[test]
fn new_keeps_the_value() {
    assert_eq!(Milliseconds::new(0).value(), 0);
    assert_eq!(Milliseconds::new(275).value(), 275);
    assert_eq!(Milliseconds::new(u32::MAX).value(), u32::MAX);
}

#[test]
fn from_duration_counts_whole_milliseconds() {
    assert_eq!(Milliseconds::from_duration(Duration::from_millis(1500)), Milliseconds::new(1500));
    assert_eq!(Milliseconds::from_duration(Duration::new(2, 999_999_999)), Milliseconds::new(2999));
    assert_eq!(Milliseconds::from_duration(Duration::new(0, 999_999)), Milliseconds::new(0));
    assert_eq!(Milliseconds::from_duration(Duration::new(0, 1_000_000)), Milliseconds::new(1));
    assert_eq!(Milliseconds::from_duration(Duration::new(0, 0)), Milliseconds::new(0));
}

#[test]
fn from_duration_reads_seconds_and_fraction_apart() {
    // Seconds alone and fraction alone give different results, so neither
    // part can stand in for the other.
    assert_eq!(Milliseconds::from_duration(Duration::new(7, 0)).value(), 7000);
    assert_eq!(Milliseconds::from_duration(Duration::new(0, 7_000_000)).value(), 7);
    assert_eq!(Milliseconds::from_duration(Duration::new(7, 7_000_000)).value(), 7007);
}

#[test]
fn from_duration_stops_at_the_largest_value() {
    assert_eq!(Milliseconds::from_duration(Duration::from_secs(5_000_000)).value(), u32::MAX);
    assert_eq!(Milliseconds::from_duration(Duration::new(u64::MAX, 999_999_999)).value(), u32::MAX);
    assert_eq!(Milliseconds::from_duration(Duration::new(4_294_967, 295_000_000)).value(), u32::MAX);
    assert_eq!(
        Milliseconds::from_duration(Duration::new(4_294_967, 294_000_000)).value(),
        u32::MAX - 1
    );
    assert_eq!(Milliseconds::from_duration(Duration::new(4_294_967, 296_000_000)).value(), u32::MAX);
}

#[test]
fn millis_from_parts_matches_its_formula() {
    assert_eq!(millis_from_parts(0, 0), 0);
    assert_eq!(millis_from_parts(1, 500_000_000), 1500);
    assert_eq!(millis_from_parts(4_294_968, 0), u32::MAX);
    assert_eq!(millis_from_parts(u64::MAX, 0), u32::MAX);
}

#[test]
fn to_duration_gives_the_same_length() {
    assert_eq!(Milliseconds::new(2569).to_duration(), Duration::from_millis(2569));
    assert_eq!(Milliseconds::new(2569).to_duration().as_secs(), 2);
    assert_eq!(Milliseconds::new(2569).to_duration().subsec_nanos(), 569_000_000);
    assert_eq!(Milliseconds::new(0).to_duration(), Duration::new(0, 0));
    assert_eq!(
        Milliseconds::new(u32::MAX).to_duration(),
        Duration::new(4_294_967, 295_000_000)
    );
}

#[test]
fn duration_round_trip() {
    for value in [0u32, 1, 16, 999, 1000, 1001, 275, 60_000, u32::MAX] {
        let ms = Milliseconds::new(value);
        assert_eq!(Milliseconds::from_duration(ms.to_duration()), ms);
    }
}

#[test]
fn addition_saturates() {
    assert_eq!(Milliseconds::new(3) + Milliseconds::new(4), Milliseconds::new(7));
    assert_eq!(Milliseconds::new(u32::MAX) + Milliseconds::new(1), Milliseconds::new(u32::MAX));
    assert_eq!(
        Milliseconds::new(u32::MAX - 1) + Milliseconds::new(1),
        Milliseconds::new(u32::MAX)
    );
}

#[test]
fn subtraction_of_a_shorter_duration() {
    assert_eq!(Milliseconds::new(10) - Milliseconds::new(4), Milliseconds::new(6));
    assert_eq!(Milliseconds::new(10) - Milliseconds::new(10), Milliseconds::new(0));
}

#[test]
fn longer_than_is_strict() {
    assert!(Milliseconds::new(2).longer_than(Milliseconds::new(1)));
    assert!(!Milliseconds::new(2).longer_than(Milliseconds::new(2)));
    assert!(!Milliseconds::new(1).longer_than(Milliseconds::new(2)));
    assert!(Milliseconds::new(1) < Milliseconds::new(2));
}

#[test]
fn assignment_operators_match_the_plain_ones() {
    let mut elapsed = Milliseconds::new(90);
    elapsed += Milliseconds::new(20);
    assert_eq!(elapsed, Milliseconds::new(110));
    elapsed -= Milliseconds::new(100);
    assert_eq!(elapsed, Milliseconds::new(10));
    elapsed += Milliseconds::new(u32::MAX);
    assert_eq!(elapsed, Milliseconds::new(u32::MAX));
}
