use dex_bench::draws::{
    all_samples_fit, all_windows_fit, draw_sample_selection, draw_sample_window, draw_window,
    makers_needed, merge_makers, other_makers, pick_sample, pick_single_maker, select_makers, single_maker,
};
use dex_bench::sample::{SampleData, TokenSample};
use dex_bench::timestamp::{Timestamp, MAX_SECONDS, MIN_SECONDS};
use rand::rngs::StdRng;
use rand::SeedableRng;

fn sample(address: &str, maker: Option<&str>, secs: i64) -> TokenSample {
    TokenSample {
        token_address: address.to_string(),
        ts: Timestamp { secs, nanos: 0 },
        volume_bits: None,
        maker: maker.map(|m| m.to_string()),
        height: 0,
        tx_id: None,
        log_id: 0,
    }
}

fn names(list: &[&str]) -> Vec<String> {
    list.iter().map(|s| s.to_string()).collect()
}

fn data() -> SampleData {
    SampleData {
        token_samples: vec![
            sample("a", Some("own"), 1_000_000),
            sample("b", Some(""), 2_000_000),
            sample("c", None, 3_000_000),
        ],
        makers: (0..20).map(|i| format!("m{}", i)).collect(),
    }
}

#[test]
fn every_sample_can_be_picked() {
    let d = data();
    let mut rng = StdRng::seed_from_u64(1);
    let mut seen: Vec<String> = Vec::new();
    for _ in 0..200 {
        let s = pick_sample(&d, &mut rng);
        if !seen.contains(&s.token_address) {
            seen.push(s.token_address.clone());
        }
    }
    seen.sort();
    assert_eq!(seen, names(&["a", "b", "c"]));
}

#[test]
fn drawn_windows_hold_their_base() {
    let base = Timestamp { secs: 1733480430, nanos: 77 };
    let mut rng = StdRng::seed_from_u64(2);
    let mut starts: Vec<i64> = Vec::new();
    for _ in 0..300 {
        let w = draw_window(base, 7, &mut rng);
        let length = w.end.secs - w.start.secs;
        assert!(w.start.secs <= base.secs && base.secs < w.end.secs);
        assert_eq!(length % 86400, 0);
        assert!(86400 <= length && length <= 7 * 86400);
        assert_eq!((w.start.nanos, w.end.nanos), (77, 77));
        starts.push(w.start.secs);
    }
    starts.sort();
    starts.dedup();
    assert!(starts.len() > 100);
}

#[test]
fn windows_near_the_ends_of_time_do_not_fit() {
    let at = |secs: i64| Timestamp { secs, nanos: 0 };
    assert!(all_windows_fit(at(0), 7));
    assert!(!all_windows_fit(at(0), 0));
    assert!(!all_windows_fit(at(0), -1));
    assert!(!all_windows_fit(at(0), i64::MAX));
    assert!(all_windows_fit(at(MAX_SECONDS - 86400), 1));
    assert!(!all_windows_fit(at(MAX_SECONDS - 86399), 1));
    assert!(all_windows_fit(at(MIN_SECONDS + 86399), 1));
    assert!(!all_windows_fit(at(MIN_SECONDS + 86398), 1));
    assert!(!all_windows_fit(at(MAX_SECONDS + 1), 1));
}

#[test]
fn the_own_maker_counts_toward_the_target() {
    assert_eq!(makers_needed(&Some("m".to_string()), 5), 4);
    assert_eq!(makers_needed(&Some("".to_string()), 5), 5);
    assert_eq!(makers_needed(&None, 5), 5);
    assert_eq!(makers_needed(&Some("m".to_string()), 0), 0);
}

#[test]
fn makers_are_merged_without_repetition() {
    let own = Some("x".to_string());
    assert_eq!(merge_makers(&own, names(&["y", "x", "y", "z"])), names(&["x", "y", "z"]));
    assert_eq!(merge_makers(&Some("".to_string()), names(&["y"])), names(&["y"]));
    assert!(merge_makers(&None, Vec::new()).is_empty());
}

#[test]
fn the_selection_reaches_its_count() {
    let d = data();
    let mut rng = StdRng::seed_from_u64(3);
    for _ in 0..50 {
        let list = select_makers(&d.token_samples[0], &d.makers, 6, &mut rng);
        assert_eq!(list.len(), 6);
        assert_eq!(list[0], "own");
        assert!(list[1..].iter().all(|m| d.makers.contains(m)));
        let mut sorted = list.clone();
        sorted.sort();
        sorted.dedup();
        assert_eq!(sorted.len(), 6);
    }
    assert_eq!(select_makers(&d.token_samples[1], &d.makers, 6, &mut rng).len(), 6);
    let mut orders: Vec<Vec<String>> = Vec::new();
    for _ in 0..20 {
        let list = select_makers(&d.token_samples[2], &d.makers, 20, &mut rng);
        if !orders.contains(&list) {
            orders.push(list);
        }
    }
    assert!(orders.len() > 1);
}

#[test]
fn the_selection_reaches_its_count_from_a_pool_with_the_own_maker() {
    let pool = names(&["m", "x", "own", "y", "z"]);
    let s = sample("a", Some("own"), 0);
    let mut rng = StdRng::seed_from_u64(7);
    for _ in 0..200 {
        for count in 1..=5 {
            let mut list = select_makers(&s, &pool, count, &mut rng);
            assert_eq!(list.len(), count);
            assert_eq!(list[0], "own");
            list.sort();
            list.dedup();
            assert_eq!(list.len(), count);
            assert!(list.iter().all(|m| pool.contains(m)));
        }
        assert_eq!(select_makers(&s, &pool, 6, &mut rng).len(), 5);
    }
    let two = names(&["m", "x"]);
    let own = sample("a", Some("m"), 0);
    for _ in 0..50 {
        assert_eq!(select_makers(&own, &two, 2, &mut rng), names(&["m", "x"]));
    }
}

#[test]
fn the_own_maker_is_left_out_of_the_others() {
    let pool = names(&["m", "x", "m", "y"]);
    assert_eq!(other_makers(&Some("m".to_string()), &pool), names(&["x", "y"]));
    assert_eq!(other_makers(&Some("n".to_string()), &pool), pool);
    assert_eq!(other_makers(&None, &pool), pool);
    let with_empty = names(&["", "x"]);
    assert_eq!(other_makers(&Some("".to_string()), &with_empty), with_empty);
}

#[test]
fn the_selection_stops_at_the_pool_and_at_the_own_maker() {
    let d = data();
    let mut rng = StdRng::seed_from_u64(4);
    assert_eq!(select_makers(&d.token_samples[0], &d.makers, 500, &mut rng).len(), 21);
    assert_eq!(select_makers(&d.token_samples[0], &d.makers, 1, &mut rng), names(&["own"]));
    assert_eq!(select_makers(&d.token_samples[0], &d.makers, 0, &mut rng), names(&["own"]));
    assert!(select_makers(&d.token_samples[2], &d.makers, 0, &mut rng).is_empty());
    assert!(select_makers(&d.token_samples[2], &Vec::new(), 9, &mut rng).is_empty());
}

#[test]
fn a_single_maker_is_asked_for_by_three_types() {
    let own = Some("own".to_string());
    let drawn = Some("drawn".to_string());
    for query_type in 1u8..=10 {
        let wanted = query_type == 4 || query_type == 6 || query_type == 10;
        let own_first = single_maker(query_type, &own, drawn.clone());
        assert_eq!(own_first, if wanted { own.clone() } else { None });
        let empty = single_maker(query_type, &Some("".to_string()), drawn.clone());
        assert_eq!(empty, if wanted { drawn.clone() } else { None });
        assert_eq!(single_maker(query_type, &None, None), None);
    }
}

#[test]
fn a_missing_maker_is_drawn_from_the_pool() {
    let d = data();
    let mut rng = StdRng::seed_from_u64(5);
    for _ in 0..20 {
        let m = pick_single_maker(4, &d.token_samples[1], &d.makers, &mut rng).unwrap();
        assert!(d.makers.contains(&m));
    }
    assert_eq!(
        pick_single_maker(6, &d.token_samples[0], &d.makers, &mut rng),
        Some("own".to_string())
    );
    assert_eq!(pick_single_maker(10, &d.token_samples[2], &Vec::new(), &mut rng), None);
    assert_eq!(pick_single_maker(2, &d.token_samples[0], &d.makers, &mut rng), None);
}

#[test]
fn samples_that_do_not_fit_are_found() {
    let mut d = data();
    assert!(all_samples_fit(&d, 7, 1));
    assert!(all_samples_fit(&d, 7, 3));
    d.token_samples.push(sample("edge", None, MIN_SECONDS + 86399));
    assert!(all_samples_fit(&d, 1, 1));
    assert!(!all_samples_fit(&d, 1, 3));
    assert!(all_samples_fit(&d, 1, 5));
    assert!(!all_samples_fit(&d, 2, 5));
}

#[test]
fn a_draw_belongs_to_its_sample() {
    let d = data();
    let mut rng = StdRng::seed_from_u64(6);
    for _ in 0..100 {
        let one = draw_sample_window(&d, 3, 3, &mut rng);
        let base = one.sample.ts.secs;
        assert!(one.window.start.secs <= base && base < one.window.end.secs);
        let two = draw_sample_selection(&d, 3, 4, &mut rng);
        let base = two.sample.ts.secs;
        assert!(two.window.start.secs <= base && base < two.window.end.secs);
        assert_eq!(two.makers.len(), 4);
        assert_eq!(two.makers[0] == "own", two.sample.token_address == "a");
    }
}
