use core::cmp::Ordering;

use embedded_time::clock::{Clock, MicroClock64, MilliClock32};
use embedded_time::duration::Generic;
use embedded_time::instant::Instant;
use embedded_time::ratio::Ratio;

fn ms(ticks: u32) -> Generic<u32> {
    Generic::new(ticks, Ratio::new(1, 1000))
}

#[test]
fn checked_add_up_to_half_range() {
    let epoch = Instant::<MilliClock32>::new(0);
    assert_eq!(
        epoch.checked_add(ms(u32::MAX / 2)),
        Some(Instant::new(u32::MAX / 2))
    );
}

#[test]
fn checked_add_past_half_range_fails() {
    let epoch = Instant::<MilliClock32>::new(0);
    assert_eq!(epoch.checked_add(ms(u32::MAX / 2 + 1)), None);
}

#[test]
fn checked_sub_up_to_half_range() {
    let late = Instant::<MilliClock32>::new(u32::MAX);
    assert_eq!(
        late.checked_sub(ms(u32::MAX / 2)),
        Some(Instant::new(u32::MAX - u32::MAX / 2))
    );
    assert_eq!(late.checked_sub(ms(u32::MAX / 2 + 1)), None);
}

#[test]
fn checked_add_wraps_modularly() {
    let near_wrap = Instant::<MilliClock32>::new(u32::MAX);
    assert_eq!(near_wrap.checked_add(ms(1)), Some(Instant::new(0)));
}

#[test]
fn checked_sub_wraps_modularly() {
    let epoch = Instant::<MilliClock32>::new(0);
    assert_eq!(epoch.checked_sub(ms(1)), Some(Instant::new(u32::MAX)));
}

#[test]
fn checked_add_converts_units() {
    // Three seconds on a millisecond clock advance the counter by 3000.
    let start = Instant::<MilliClock32>::new(1);
    let three_seconds = Generic::new(3u32, Ratio::new(1, 1));
    assert_eq!(
        start.checked_add(three_seconds),
        Some(Instant::new(3001))
    );
}

#[test]
fn checked_add_converts_across_widths() {
    // Five 32-bit milliseconds on a 64-bit microsecond clock.
    let start = Instant::<MicroClock64>::new(0);
    assert_eq!(start.checked_add(ms(5)), Some(Instant::new(5000u64)));
}

#[test]
fn checked_add_degenerate_scale_fails_quietly() {
    let start = Instant::<MilliClock32>::new(0);
    let broken = Generic::new(7u32, Ratio::new(1, 0));
    assert_eq!(start.checked_add(broken), None);
}

#[test]
fn add_then_sub_returns_the_original() {
    let start = Instant::<MilliClock32>::new(12345);
    let step = ms(u32::MAX / 2);
    let later = start.checked_add(step).unwrap();
    assert_eq!(later.checked_sub(step), Some(start));
}

#[test]
fn unchecked_add_and_sub() {
    let start = Instant::<MilliClock32>::new(800);
    assert_eq!(start.add(ms(700)), Instant::new(1500));
    assert_eq!(start.sub(ms(700)), Instant::new(100));
}

#[test]
fn duration_since_with_later_instant() {
    let a = Instant::<MilliClock32>::new(5);
    let b = Instant::<MilliClock32>::new(3);
    assert_eq!(a.checked_duration_since(&b), Some(ms(2)));
}

#[test]
fn duration_since_with_earlier_instant_fails() {
    let a = Instant::<MilliClock32>::new(3);
    let b = Instant::<MilliClock32>::new(5);
    assert_eq!(a.checked_duration_since(&b), None);
}

#[test]
fn duration_since_across_wraparound() {
    let before = Instant::<MilliClock32>::new(u32::MAX);
    let after = Instant::<MilliClock32>::new(4);
    assert_eq!(after.checked_duration_since(&before), Some(ms(5)));
}

#[test]
fn duration_until_mirrors_duration_since() {
    let pairs = [
        (3u32, 5u32),
        (5, 3),
        (u32::MAX, 4),
        (0, u32::MAX / 2),
        (7, 7),
    ];
    for (x, y) in pairs {
        let a = Instant::<MilliClock32>::new(x);
        let b = Instant::<MilliClock32>::new(y);
        assert_eq!(a.checked_duration_since(&b), b.checked_duration_until(&a));
    }
}

#[test]
fn duration_since_epoch_keeps_raw_ticks_and_scale() {
    let i = Instant::<MilliClock32>::new(23);
    assert_eq!(i.duration_since_epoch(), ms(23));
}

#[test]
fn ordering_within_half_range() {
    assert!(Instant::<MilliClock32>::new(5) > Instant::new(3));
    assert!(Instant::<MilliClock32>::new(3) < Instant::new(5));
    assert!(Instant::<MilliClock32>::new(5) == Instant::new(5));
}

#[test]
fn ordering_across_wraparound() {
    // The counter has just wrapped forward past its maximum.
    assert!(Instant::<MilliClock32>::new(u32::MAX) < Instant::new(u32::MIN));
}

#[test]
fn ordering_at_exactly_half_range_is_ambiguous() {
    // A separation of exactly half the maximum compares as neither earlier
    // nor later, even though the instants are unequal.
    let a = Instant::<MilliClock32>::new(u32::MAX / 2);
    let b = Instant::<MilliClock32>::new(0);
    assert_eq!(a.partial_cmp(&b), Some(Ordering::Equal));
    assert!(a != b);
}

#[test]
fn sampling_returns_the_held_ticks() {
    let milli = MilliClock32 { now: 23 };
    assert_eq!(milli.try_now(), Ok(Instant::new(23)));
    let micro = MicroClock64 { now: 17 };
    assert_eq!(micro.try_now(), Ok(Instant::new(17)));
}

#[test]
fn scaling_factors_of_the_sample_clocks() {
    assert_eq!(MilliClock32::scaling_factor(), Ratio::new(1, 1000));
    assert_eq!(MicroClock64::scaling_factor(), Ratio::new(1, 1_000_000));
}
