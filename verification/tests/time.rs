use spinout::ticks::{checked_dur2intervals, info_from_bits, info_to_bits, mul_div_u64, Timebase};
use spinout::timespec::{cvt, Duration, Failed, IsMinusOne, SystemTime, Timespec, NSEC_PER_SEC};

#[test]
fn nanoseconds_stay_below_a_second() {
    assert_eq!(NSEC_PER_SEC, 1_000_000_000);
    assert!(Timespec::new(0, 0).is_some());
    assert!(Timespec::new(-5, 999_999_999).is_some());
    assert!(Timespec::new(0, 1_000_000_000).is_none());
    assert!(Timespec::new(0, -1).is_none());
    assert!(Duration::new(u64::MAX, 999_999_999).is_some());
    assert!(Duration::new(0, 1_000_000_000).is_none());
    let d = Duration::new(3, 5).unwrap();
    assert_eq!((d.as_secs(), d.subsec_nanos()), (3, 5));
    let t = Timespec::new(-3, 5).unwrap();
    assert_eq!((t.tv_sec(), t.tv_nsec()), (-3, 5));
}

#[test]
fn adding_a_span_carries_nanoseconds() {
    let t = Timespec::new(10, 600_000_000).unwrap();
    let sum = t.checked_add_duration(&Duration::new(5, 300_000_000).unwrap()).unwrap();
    assert_eq!((sum.tv_sec(), sum.tv_nsec()), (15, 900_000_000));
    let sum = t.checked_add_duration(&Duration::new(5, 400_000_000).unwrap()).unwrap();
    assert_eq!((sum.tv_sec(), sum.tv_nsec()), (16, 0));
    let sum = t.checked_add_duration(&Duration::new(0, 999_999_999).unwrap()).unwrap();
    assert_eq!(sum, Timespec::new(11, 599_999_999).unwrap());
    let before = Timespec::new(-2, 500_000_000).unwrap();
    let sum = before.checked_add_duration(&Duration::new(1, 500_000_000).unwrap()).unwrap();
    assert_eq!(sum, Timespec::new(0, 0).unwrap());
    assert_eq!(t.checked_add_duration(&Duration::new(0, 0).unwrap()), Some(t));
}

#[test]
fn adding_a_span_fails_beyond_the_last_second() {
    let last = Timespec::new(i64::MAX, 999_999_999).unwrap();
    assert_eq!(last.checked_add_duration(&Duration::new(0, 0).unwrap()), Some(last));
    assert_eq!(last.checked_add_duration(&Duration::new(0, 1).unwrap()), None);
    assert_eq!(last.checked_add_duration(&Duration::new(1, 0).unwrap()), None);
    let early = Timespec::new(i64::MIN, 0).unwrap();
    let far = Duration::new(i64::MAX as u64, 0).unwrap();
    assert_eq!(early.checked_add_duration(&far), Timespec::new(-1, 0));
    let too_far = Duration::new(i64::MAX as u64 + 1, 0).unwrap();
    assert_eq!(early.checked_add_duration(&too_far), None);
    let zero = Timespec::new(0, 0).unwrap();
    assert_eq!(zero.checked_add_duration(&far), Timespec::new(i64::MAX, 0));
    let one = Timespec::new(1, 0).unwrap();
    assert_eq!(one.checked_add_duration(&far), None);
}

#[test]
fn points_in_time_are_ordered_by_seconds_then_nanoseconds() {
    let a = Timespec::new(1, 999_999_999).unwrap();
    let b = Timespec::new(2, 0).unwrap();
    assert!(a < b);
    assert!(SystemTime { t: a } < SystemTime { t: b });
    assert!(spinout::timespec::Instant { t: b } > spinout::timespec::Instant { t: a });
    assert_eq!(SystemTime { t: a }, SystemTime { t: a });
}

#[test]
fn minus_one_is_the_failure_of_a_system_call() {
    assert_eq!(cvt(-1i32), Err(Failed));
    assert_eq!(cvt(0i32), Ok(0));
    assert_eq!(cvt(-2i64), Ok(-2));
    assert_eq!(cvt(-1i64), Err(Failed));
    assert_eq!(cvt(-1i8), Err(Failed));
    assert_eq!(cvt(i8::MIN), Ok(i8::MIN));
    assert_eq!(cvt(-1i16), Err(Failed));
    assert_eq!(cvt(7i16), Ok(7));
    assert_eq!(cvt(-1isize), Err(Failed));
    assert_eq!(cvt(isize::MAX), Ok(isize::MAX));
    assert!((-1i32).is_minus_one());
    assert!(!1i32.is_minus_one());
}

#[test]
fn a_timebase_packs_into_one_word() {
    assert!(Timebase::new(0, 1).is_none());
    assert!(Timebase::new(1, 0).is_none());
    let info = Timebase::new(125, 3).unwrap();
    assert_eq!(info_to_bits(info), (3u64 << 32) | 125);
    assert_eq!(info_from_bits((3u64 << 32) | 125), Some(info));
    assert_eq!(info_from_bits(0), None);
    assert_eq!(info_from_bits(125), None);
    assert_eq!(info_from_bits(3u64 << 32), None);
    let wide = Timebase::new(u32::MAX, u32::MAX).unwrap();
    assert_eq!(info_to_bits(wide), u64::MAX);
    assert_eq!(info_from_bits(u64::MAX), Some(wide));
}

#[test]
fn scaling_rounds_down_and_fails_beyond_a_word() {
    assert_eq!(mul_div_u64(10, 125, 3), Some(416));
    assert_eq!(mul_div_u64(0, 125, 3), Some(0));
    assert_eq!(mul_div_u64(u64::MAX, 1, 1), Some(u64::MAX));
    assert_eq!(mul_div_u64(u64::MAX, 2, 2), Some(u64::MAX));
    assert_eq!(mul_div_u64(u64::MAX, 2, 1), None);
    assert_eq!(mul_div_u64(u64::MAX, 3, 2), None);
    assert_eq!(mul_div_u64(u64::MAX, u32::MAX, u32::MAX), Some(u64::MAX));
    assert_eq!(mul_div_u64(7, 1, 2), Some(3));
}

#[test]
fn spans_become_ticks_and_back() {
    let info = Timebase::new(125, 3).unwrap();
    // A tick is 125/3 ns: 1 s + 250 ns are 1_000_000_250 * 3 / 125 ticks.
    let span = Duration::new(1, 250).unwrap();
    assert_eq!(checked_dur2intervals(&span, info), Some(24_000_006));
    let huge = Duration::new(u64::MAX / 1_000_000_000 + 1, 0).unwrap();
    assert_eq!(checked_dur2intervals(&huge, info), None);
    let start = spinout::ticks::Instant::at(1_000);
    let later = start.checked_add_duration(&span, info).unwrap();
    assert_eq!(later, spinout::ticks::Instant::at(24_001_006));
    assert_eq!(later.checked_sub_duration(&span, info), Some(start));
    assert_eq!(start.checked_sub_duration(&span, info), None);
    let back = later.checked_sub_instant(&start, info).unwrap();
    assert_eq!((back.as_secs(), back.subsec_nanos()), (1, 250));
    assert_eq!(start.checked_sub_instant(&later, info), None);
    assert_eq!(start.checked_sub_instant(&start, info), Duration::new(0, 0));
    let end = spinout::ticks::Instant::at(u64::MAX);
    assert_eq!(end.checked_add_duration(&Duration::new(0, 42).unwrap(), info), None);
    assert_eq!(end.checked_add_duration(&Duration::new(0, 41).unwrap(), info), Some(end));
    assert_eq!(end.checked_sub_instant(&spinout::ticks::Instant::at(0), info), None);
}
