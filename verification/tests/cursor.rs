use chrono::{DateTime, TimeDelta, Utc};
use dex_bench::cursor::{
    cursor_near, cursors_fit, generate_cursor_condition, Cursor, CursorOffsets,
};
use dex_bench::sample::TokenSample;
use dex_bench::timestamp::{Timestamp, MAX_SECONDS, MIN_SECONDS};
use rand::rngs::StdRng;
use rand::{Rng, SeedableRng};

fn sample(secs: i64, height: i64, tx_id: Option<i64>, log_id: i64) -> TokenSample {
    TokenSample {
        token_address: "t".to_string(),
        ts: Timestamp { secs, nanos: 5_000_000 },
        volume_bits: None,
        maker: None,
        height,
        tx_id,
        log_id,
    }
}

fn offsets(ts_seconds: i64, height: i64, tx_id: i64, log_id: i64) -> CursorOffsets {
    CursorOffsets { ts_seconds, height, tx_id, log_id }
}

#[test]
fn a_cursor_lies_before_its_sample() {
    let c = cursor_near(&sample(1000, 10, Some(20), 30), offsets(-100, 4, -5, 6), true);
    assert_eq!(
        c,
        Cursor {
            ts: Timestamp { secs: 900, nanos: 5_000_000 },
            height: 6,
            tx_id: Some(15),
            log_id: 24
        }
    );
}

#[test]
fn a_cursor_lies_after_its_sample() {
    let c = cursor_near(&sample(1000, 10, None, 30), offsets(-86400, -1000, -100, -50), false);
    assert_eq!(
        c,
        Cursor {
            ts: Timestamp { secs: 87400, nanos: 5_000_000 },
            height: 1010,
            tx_id: None,
            log_id: 80
        }
    );
}

#[test]
fn a_cursor_stops_at_the_ends_of_the_numbers() {
    let low = cursor_near(
        &sample(0, i64::MIN + 1, Some(i64::MIN), i64::MIN + 50),
        offsets(0, 10, 10, -50),
        true,
    );
    assert_eq!((low.height, low.tx_id, low.log_id), (i64::MIN, Some(i64::MIN), i64::MIN));
    let high = cursor_near(&sample(0, i64::MAX, Some(i64::MAX - 3), 0), offsets(0, 1, 9, 0), false);
    assert_eq!((high.height, high.tx_id, high.log_id), (i64::MAX, Some(i64::MAX), 0));
}

#[test]
fn a_cursor_is_written_as_a_row() {
    let c = cursor_near(&sample(1733480430, 9, None, -4), offsets(0, 0, 0, 0), true);
    assert_eq!(c.to_sql(), "('2024-12-06 10:20:30.005', 9, NULL, -4)");
    let d = cursor_near(&sample(1733480430, 9, Some(-7), 4), offsets(0, 0, 0, 0), true);
    assert_eq!(d.to_sql(), "('2024-12-06 10:20:30.005', 9, -7, 4)");
}

#[test]
fn cursors_near_the_ends_of_time_do_not_fit() {
    assert!(cursors_fit(&sample(0, 0, None, 0), true));
    assert!(cursors_fit(&sample(0, 0, None, 0), false));
    assert!(!cursors_fit(&sample(MIN_SECONDS + 86399, 0, None, 0), true));
    assert!(cursors_fit(&sample(MIN_SECONDS + 86400, 0, None, 0), true));
    assert!(!cursors_fit(&sample(MAX_SECONDS - 86399, 0, None, 0), false));
    assert!(cursors_fit(&sample(MAX_SECONDS - 86400, 0, None, 0), false));
    assert!(!cursors_fit(&sample(MAX_SECONDS + 1, 0, None, 0), true));
}

fn directly(s: &TokenSample, rng: &mut StdRng, use_less_than: bool) -> String {
    let ts_seconds: i64 = rng.gen_range(-86400..86400);
    let height: i64 = rng.gen_range(-1000..1000);
    let tx: i64 = rng.gen_range(-100..100);
    let log: i64 = rng.gen_range(-50..50);
    let ts = DateTime::<Utc>::from_timestamp(s.ts.secs, s.ts.nanos).unwrap();
    let (ts, h, t, l) = if use_less_than {
        (
            ts - TimeDelta::seconds(ts_seconds.abs()),
            s.height.saturating_sub(height.abs()),
            s.tx_id.map(|id| id.saturating_sub(tx.abs())),
            s.log_id.saturating_sub(log.abs()),
        )
    } else {
        (
            ts + TimeDelta::seconds(ts_seconds.abs()),
            s.height.saturating_add(height.abs()),
            s.tx_id.map(|id| id.saturating_add(tx.abs())),
            s.log_id.saturating_add(log.abs()),
        )
    };
    let t = t.map(|id| id.to_string()).unwrap_or("NULL".to_string());
    format!("('{}', {}, {}, {})", ts.format("%Y-%m-%d %H:%M:%S%.3f"), h, t, l)
}

#[test]
fn drawn_cursors_follow_the_generator() {
    for seed in 0u64..200 {
        let s = sample(
            1733480430 + seed as i64,
            seed as i64 * 7 - 300,
            if seed % 3 == 0 { None } else { Some(i64::MAX - seed as i64) },
            40,
        );
        for use_less_than in [true, false] {
            let mut a = StdRng::seed_from_u64(seed);
            let mut b = StdRng::seed_from_u64(seed);
            assert_eq!(
                generate_cursor_condition(&s, &mut a, use_less_than),
                directly(&s, &mut b, use_less_than)
            );
        }
    }
}
