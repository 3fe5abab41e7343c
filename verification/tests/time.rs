use blocks_game::time::{FrameDelta, Timing, NANOS_PER_SEC};

#[test]
fn zero_delta_is_empty() {
    let d = FrameDelta::zero();
    assert_eq!(d.as_nanos(), 0);
    assert_eq!(d.subsec_nanos(), 0);
    assert_eq!(d, FrameDelta::from_nanos(0));
}

#[test]
fn new_adds_seconds_and_nanoseconds() {
    let d = FrameDelta::new(1, 500_000_000);
    assert_eq!(d.as_nanos(), 1_500_000_000);
    assert_eq!(d, FrameDelta::from_nanos(1_500_000_000));
}

#[test]
fn new_carries_nanoseconds_beyond_a_second() {
    let d = FrameDelta::new(2, 4_000_000_001);
    assert_eq!(d.as_nanos(), 6_000_000_001);
    assert_eq!(d.subsec_nanos(), 1);
}

#[test]
fn new_takes_the_largest_arguments() {
    let d = FrameDelta::new(u64::MAX, u32::MAX);
    assert_eq!(
        d.as_nanos(),
        u64::MAX as u128 * NANOS_PER_SEC + u32::MAX as u128
    );
}

#[test]
fn subsec_nanos_drops_whole_seconds() {
    assert_eq!(FrameDelta::new(1, 500_000_000).subsec_nanos(), 500_000_000);
    assert_eq!(FrameDelta::new(0, 999_999_999).subsec_nanos(), 999_999_999);
    assert_eq!(FrameDelta::new(1, 0).subsec_nanos(), 0);
    assert_eq!(FrameDelta::new(7, 16_666_667).subsec_nanos(), 16_666_667);
    assert_eq!(FrameDelta::from_nanos(u128::MAX).subsec_nanos(), 768_211_455);
}

#[test]
fn subsecond_timing_counts_only_the_fraction() {
    let d = FrameDelta::new(1, 500_000_000);
    assert_eq!(Timing::Subsecond.ticks(d), 500_000_000);
    assert_eq!(Timing::Subsecond.ticks(FrameDelta::new(3, 0)), 0);
    assert_eq!(Timing::Subsecond.ticks(FrameDelta::from_nanos(16_000_000)), 16_000_000);
}

#[test]
fn whole_timing_counts_everything() {
    let d = FrameDelta::new(1, 500_000_000);
    assert_eq!(Timing::Whole.ticks(d), 1_500_000_000);
    assert_eq!(Timing::Whole.ticks(FrameDelta::new(3, 0)), 3_000_000_000);
    assert_eq!(Timing::Whole.ticks(FrameDelta::from_nanos(u128::MAX)), u128::MAX);
}

#[test]
fn timings_agree_below_one_second() {
    let d = FrameDelta::from_nanos(999_999_999);
    assert_eq!(Timing::Subsecond.ticks(d), Timing::Whole.ticks(d));
}
