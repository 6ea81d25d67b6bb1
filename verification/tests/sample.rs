use dex_bench::makers::MakerSet;
use dex_bench::sample::{
    distinct_samples, FetchRequest, FetchStage, SampleData, SampleFetch, TokenSample,
};
use dex_bench::timestamp::Timestamp;

fn row(address: &str, maker: Option<&str>, height: i64) -> TokenSample {
    TokenSample {
        token_address: address.to_string(),
        ts: Timestamp { secs: 1733480430, nanos: 0 },
        volume_bits: Some(1.5f64.to_bits()),
        maker: maker.map(|m| m.to_string()),
        height,
        tx_id: Some(1),
        log_id: 2,
    }
}

fn heights(samples: &[TokenSample]) -> Vec<i64> {
    samples.iter().map(|s| s.height).collect()
}

#[test]
fn the_first_row_of_each_address_is_kept() {
    let rows = vec![row("a", None, 1), row("b", None, 2), row("a", None, 3), row("c", None, 4)];
    assert_eq!(heights(&distinct_samples(rows, 10)), vec![1, 2, 4]);
}

#[test]
fn no_more_rows_are_kept_than_asked_for() {
    let rows = || vec![row("a", None, 1), row("a", None, 2), row("b", None, 3), row("c", None, 4)];
    assert_eq!(heights(&distinct_samples(rows(), 2)), vec![1, 3]);
    assert!(distinct_samples(rows(), 0).is_empty());
    assert!(distinct_samples(Vec::new(), 5).is_empty());
}

#[test]
fn makers_are_listed_once() {
    let mut set = MakerSet::new();
    set.insert("x".to_string());
    set.insert_all(vec!["y".to_string(), "x".to_string(), "".to_string(), "y".to_string()]);
    assert_eq!(set.len(), 3);
    assert_eq!(set.into_list(), vec!["x".to_string(), "y".to_string(), "".to_string()]);
}

fn sql(request: FetchRequest) -> String {
    match request {
        FetchRequest::Token0Rows(s) => s,
        FetchRequest::Token1Rows(s) => s,
        FetchRequest::MakerRows(s) => s,
        FetchRequest::Nothing => "nothing".to_string(),
    }
}

#[test]
fn a_fetch_asks_for_both_tokens_and_then_for_makers() {
    let mut fetch = SampleFetch::new(2);
    assert_eq!(
        sql(fetch.request()),
        "SELECT token0_address, ts, volume, maker, height, tx_id, log_id FROM dquery_dex.dex_swap_tx_solana_1206 TABLESAMPLE REGIONS() WHERE token0_address IS NOT NULL LIMIT 6"
    );
    let kept = fetch.accept_rows(vec![
        row("a", Some("m1"), 1),
        row("a", Some("m9"), 2),
        row("b", Some(""), 3),
        row("c", Some("m8"), 4),
    ]);
    assert_eq!(kept, 2);
    assert_eq!(
        sql(fetch.request()),
        "SELECT token1_address, ts, volume, maker, height, tx_id, log_id FROM dquery_dex_new.dex_swap_tx_solana TABLESAMPLE REGIONS() WHERE token1_address IS NOT NULL LIMIT 6"
    );
    let kept = fetch.accept_rows(vec![row("a", Some("m2"), 5), row("d", Some("m1"), 6)]);
    assert_eq!(kept, 2);
    assert_eq!(fetch.stage, FetchStage::Makers);
    assert_eq!(
        sql(fetch.request()),
        "SELECT DISTINCT maker FROM dquery_dex.dex_swap_tx_solana_1206 TABLESAMPLE REGIONS() WHERE maker IS NOT NULL AND maker != '' LIMIT 998"
    );
    fetch.accept_makers(vec!["m2".to_string(), "m3".to_string()]);
    assert!(matches!(fetch.request(), FetchRequest::Nothing));
    let data = fetch.finish();
    assert_eq!(heights(&data.token_samples), vec![1, 3, 5, 6]);
    assert_eq!(data.makers, vec!["m1".to_string(), "m2".to_string(), "m3".to_string()]);
    assert!(data.is_usable());
}

#[test]
fn a_fetch_with_enough_makers_asks_for_no_more() {
    let mut fetch = SampleFetch::new(2000);
    let rows = (0..1000i64)
        .map(|i| row(&i.to_string(), Some(&format!("maker {}", i)), i))
        .collect();
    assert_eq!(fetch.accept_rows(rows), 1000);
    assert_eq!(fetch.accept_rows(Vec::new()), 0);
    assert_eq!(fetch.stage, FetchStage::Done);
    assert!(matches!(fetch.request(), FetchRequest::Nothing));
    assert_eq!(fetch.finish().makers.len(), 1000);
}

#[test]
fn a_fetch_one_maker_short_asks_for_one() {
    let mut fetch = SampleFetch::new(2000);
    let rows = (0..999i64)
        .map(|i| row(&i.to_string(), Some(&format!("maker {}", i)), i))
        .collect();
    fetch.accept_rows(rows);
    fetch.accept_rows(Vec::new());
    assert!(sql(fetch.request()).ends_with(" LIMIT 1"));
}

#[test]
fn data_is_usable_only_with_samples_and_makers() {
    let data = |n: usize, m: usize| SampleData {
        token_samples: (0..n).map(|i| row(&i.to_string(), None, 0)).collect(),
        makers: (0..m).map(|i| i.to_string()).collect(),
    };
    assert!(data(1, 1).is_usable());
    assert!(!data(0, 1).is_usable());
    assert!(!data(1, 0).is_usable());
    assert!(!data(0, 0).is_usable());
}
