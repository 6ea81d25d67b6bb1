use chrono::{DateTime, TimeDelta, Utc};
use dex_bench::timestamp::{
    is_in_range, time_window, TimeWindow, Timestamp, MAX_SECONDS, MIN_SECONDS,
};

fn at(secs: i64, nanos: u32) -> Timestamp {
    Timestamp { secs, nanos }
}

#[test]
fn the_range_is_that_of_dates() {
    assert_eq!(MIN_SECONDS, DateTime::<Utc>::MIN_UTC.timestamp());
    assert_eq!(MAX_SECONDS, DateTime::<Utc>::MAX_UTC.timestamp());
    assert!(DateTime::<Utc>::from_timestamp(MIN_SECONDS - 1, 0).is_none());
    assert!(DateTime::<Utc>::from_timestamp(MAX_SECONDS + 1, 0).is_none());
    assert!(is_in_range(0));
    assert!(!is_in_range(MAX_SECONDS as i128 + 1));
    assert!(!is_in_range(MIN_SECONDS as i128 - 1));
}

#[test]
fn existing_moments_are_told_from_others() {
    assert!(at(0, 0).is_valid());
    assert!(at(59, 1_500_000_000).is_valid());
    assert!(at(-1, 1_000_000_000).is_valid());
    assert!(!at(58, 1_500_000_000).is_valid());
    assert!(!at(59, 2_000_000_000).is_valid());
    assert!(!at(MAX_SECONDS + 1, 0).is_valid());
    assert!(!at(i64::MIN, 0).is_valid());
    for secs in [-120i64, -61, -60, -1, 0, 59, 60, 119, MIN_SECONDS, MAX_SECONDS] {
        for nanos in [0u32, 999_999_999, 1_000_000_000, 1_999_999_999, 2_000_000_000] {
            assert_eq!(
                at(secs, nanos).is_valid(),
                DateTime::<Utc>::from_timestamp(secs, nanos).is_some()
            );
        }
    }
}

#[test]
fn moments_are_written_out() {
    let t = at(1733480430, 123_999_999);
    assert_eq!(t.format_millis(), "2024-12-06 10:20:30.123");
    assert_eq!(t.format_seconds(), "2024-12-06 10:20:30");
    assert_eq!(at(0, 0).format_millis(), "1970-01-01 00:00:00.000");
    assert_eq!(at(59, 1_500_000_000).format_millis(), "1970-01-01 00:00:60.500");
    assert_eq!(at(MAX_SECONDS, 0).format_seconds(), "+262142-12-31 23:59:59");
    assert_eq!(at(MIN_SECONDS, 0).format_seconds(), "-262143-01-01 00:00:00");
    for t in [at(MAX_SECONDS, 0), at(MIN_SECONDS, 0), t] {
        assert!(t.format_millis().chars().all(|c| "0123456789-+:. ".contains(c)));
    }
}

#[test]
fn seconds_are_added_and_taken_away() {
    assert_eq!(at(100, 7).plus_seconds(23), at(123, 7));
    assert_eq!(at(100, 7).minus_seconds(123), at(-23, 7));
    assert_eq!(at(100, 7).plus_seconds(-3), at(97, 7));
    assert_eq!(at(MAX_SECONDS, 7).minus_seconds(0), at(MAX_SECONDS, 7));
}

#[test]
fn leap_seconds_are_left_in_both_directions() {
    let leap = at(59, 1_250_000_000);
    assert_eq!(leap.plus_seconds(0), leap);
    assert_eq!(leap.plus_seconds(2), at(61, 250_000_000));
    assert_eq!(leap.minus_seconds(2), at(58, 250_000_000));
    assert_eq!(leap.minus_seconds(1), at(59, 250_000_000));
    assert_eq!(leap.moved_seconds(-2), 58);
    assert_eq!(leap.moved_seconds(2), 61);
    assert_eq!(at(1, 0).moved_seconds(i64::MIN), i64::MIN as i128 + 1);
}

#[test]
fn moves_agree_with_dates() {
    for secs in [-86401i64, -1, 0, 59, 1733480430] {
        for nanos in [0u32, 5, 1_000_000_005] {
            let t = at(secs, nanos);
            if !t.is_valid() {
                continue;
            }
            let d = DateTime::<Utc>::from_timestamp(secs, nanos).unwrap();
            for delta in [0i64, 1, 59, 86400, 604800] {
                let later = d + TimeDelta::seconds(delta);
                let earlier = d - TimeDelta::seconds(delta);
                assert_eq!(
                    t.plus_seconds(delta),
                    at(later.timestamp(), later.timestamp_subsec_nanos())
                );
                assert_eq!(
                    t.minus_seconds(delta),
                    at(earlier.timestamp(), earlier.timestamp_subsec_nanos())
                );
            }
        }
    }
}

#[test]
fn a_window_holds_its_base() {
    let base = at(1_000_000, 9);
    let w = time_window(base, 2, 1000);
    assert_eq!(w, TimeWindow { start: at(999_000, 9), end: at(1_171_800, 9) });
    assert!(w.start.secs <= base.secs && base.secs < w.end.secs);
    assert_eq!(w.end.secs - w.start.secs, 2 * 86400);
    let last = time_window(base, 1, 86399);
    assert_eq!(last.end.secs, base.secs + 1);
    assert_eq!(time_window(base, 1, 0).start, base);
}
