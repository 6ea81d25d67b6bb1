use dex_bench::number::Decimal;
use dex_bench::report::{slow_query_line, verification_report, Line};
use dex_bench::rows::{
    compare_rows, ResultRow, UnionQueryResult, UnionQueryResultWithPosition, Verification,
};
use dex_bench::timestamp::Timestamp;

fn text(s: &str) -> Option<String> {
    Some(s.to_string())
}

fn number(unscaled: &str, scale: i64) -> Option<Decimal> {
    Decimal::read(unscaled, scale)
}

fn swap() -> UnionQueryResult {
    UnionQueryResult {
        ts: Timestamp { secs: 10, nanos: 20 },
        tx_type: 1,
        token0_address: "a0".to_string(),
        token1_address: text("a1"),
        token0_symbol: text("s0"),
        token1_symbol: None,
        token0_volume: number("15", 1),
        token1_volume: None,
        token0_price_usd: number("1", 1),
        token1_price_usd: number("2", 1),
        quote: number("3", 0),
        volume: number("400", 0),
        quote_index: Some(1),
        maker: text("m"),
        exclude: None,
        factory: text("f"),
        tx_hash: "hash".to_string(),
        height: 5,
        tx_id: Some(6),
        log_id: 7,
        token0_top_pools: 0,
        token1_top_pools: 1,
    }
}

fn with_position(p: Option<i8>, q: Option<i8>) -> UnionQueryResultWithPosition {
    UnionQueryResultWithPosition { swap: swap(), token0_position_type: p, token1_position_type: q }
}

#[test]
fn equal_rows_agree() {
    assert!(swap().is_same(&swap()));
    assert!(with_position(Some(1), None).is_same(&with_position(Some(1), None)));
}

#[test]
fn every_column_is_compared() {
    let changes: Vec<fn(&mut UnionQueryResult)> = vec![
        |r| r.ts.secs = 11,
        |r| r.ts.nanos = 21,
        |r| r.tx_type = 0,
        |r| r.token0_address = "x".to_string(),
        |r| r.token1_address = None,
        |r| r.token0_symbol = Some("x".to_string()),
        |r| r.token1_symbol = Some("".to_string()),
        |r| r.token0_volume = None,
        |r| r.token1_volume = Decimal::read("1", 0),
        |r| r.token0_price_usd = Decimal::read("11", 2),
        |r| r.token1_price_usd = None,
        |r| r.quote = Decimal::read("-3", 0),
        |r| r.volume = None,
        |r| r.quote_index = None,
        |r| r.maker = Some("M".to_string()),
        |r| r.exclude = Some(0),
        |r| r.factory = None,
        |r| r.tx_hash = "".to_string(),
        |r| r.height = 6,
        |r| r.tx_id = None,
        |r| r.log_id = 8,
        |r| r.token0_top_pools = 1,
        |r| r.token1_top_pools = 0,
    ];
    for change in changes {
        let mut other = swap();
        change(&mut other);
        assert!(!swap().is_same(&other));
        assert!(!other.is_same(&swap()));
    }
    let row = with_position(Some(1), Some(2));
    assert!(!row.is_same(&with_position(Some(1), Some(3))));
    assert!(!row.is_same(&with_position(None, Some(2))));
    let mut moved = with_position(Some(1), Some(2));
    moved.swap.height = 9;
    assert!(!row.is_same(&moved));
}

#[test]
fn numbers_are_compared_by_value() {
    let mut other = swap();
    other.token0_volume = number("1500", 3);
    other.volume = number("4", -2);
    assert!(swap().is_same(&other));
    assert_eq!(compare_rows(&vec![swap()], &vec![other]), Verification::Passed { rows: 1 });
}

#[test]
fn answers_are_compared_by_length_and_then_by_content() {
    let mut other = swap();
    other.height = 6;
    assert_eq!(
        compare_rows(&vec![swap()], &Vec::new()),
        Verification::RowCountMismatch { target: 1, verify: 0 }
    );
    assert_eq!(
        compare_rows(&vec![swap(), swap()], &vec![swap(), other]),
        Verification::ContentMismatch { rows: 2 }
    );
    assert_eq!(
        compare_rows(&vec![swap(), swap()], &vec![swap(), swap()]),
        Verification::Passed { rows: 2 }
    );
}

#[test]
fn an_answer_verifies_itself() {
    let rows = vec![with_position(None, None), with_position(Some(3), None)];
    assert_eq!(compare_rows(&rows, &rows), Verification::Passed { rows: 2 });
    let none: Vec<UnionQueryResult> = Vec::new();
    assert_eq!(compare_rows(&none, &none), Verification::Passed { rows: 0 });
}

fn shown(lines: &[Line]) -> Vec<(bool, String)> {
    lines
        .iter()
        .map(|l| match l {
            Line::Info(s) => (false, s.clone()),
            Line::Problem(s) => (true, s.clone()),
        })
        .collect()
}

#[test]
fn a_failed_verification_shows_both_statements() {
    let lines = verification_report(
        "Union Query 4",
        "idx_desc",
        "T",
        "V",
        12,
        3,
        Verification::RowCountMismatch { target: 2, verify: 3 },
    );
    assert_eq!(
        shown(&lines),
        vec![
            (false, "[Verify Query] Latency: 12ms | Rows: 3 | Index: primary".to_string()),
            (
                true,
                "❌ Verify Failed for [Union Query 4]: Target Rows 2, Verify Rows 3".to_string()
            ),
            (true, "Target SQL (using idx_desc index):\nT".to_string()),
            (true, "Verify SQL (using primary index):\nV".to_string()),
        ]
    );
    let content = verification_report(
        "Union Query",
        "idx_asc",
        "T",
        "V",
        1,
        3,
        Verification::ContentMismatch { rows: 3 },
    );
    assert_eq!(
        shown(&content)[1],
        (
            true,
            "❌ Verify Failed for [Union Query]: Content Mismatch (Row count matches: 3)"
                .to_string()
        )
    );
    assert_eq!(content.len(), 4);
}

#[test]
fn a_passed_verification_is_one_line_more() {
    let lines =
        verification_report("L", "i", "T", "V", 0, 9, Verification::Passed { rows: 9 });
    assert_eq!(
        shown(&lines),
        vec![
            (false, "[Verify Query] Latency: 0ms | Rows: 9 | Index: primary".to_string()),
            (false, "✅ Verify Passed: Rows match (9), Content match".to_string()),
        ]
    );
}

#[test]
fn only_slow_queries_are_warned_about() {
    assert!(slow_query_line(1000, "S").is_none());
    let line = slow_query_line(1001, "S").unwrap();
    assert_eq!(shown(&[line]), vec![(false, "⚠️  Slow query (1001ms):\nS".to_string())]);
}
