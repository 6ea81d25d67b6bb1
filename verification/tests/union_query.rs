use chrono::{DateTime, TimeDelta, Utc};
use dex_bench::draws::SampleSelection;
use dex_bench::filters::SortOrder;
use dex_bench::report::Line;
use dex_bench::rows::UnionQueryResult;
use dex_bench::sample::TokenSample;
use dex_bench::timestamp::{TimeWindow, Timestamp};
use dex_bench::union_query::UnionQuery;

const START: i64 = 1733480430;

fn window() -> TimeWindow {
    TimeWindow {
        start: Timestamp { secs: START, nanos: 250_000_000 },
        end: Timestamp { secs: START + 86400, nanos: 250_000_000 },
    }
}

fn query(token: &str, makers: &[&str], use_desc: bool) -> UnionQuery {
    let sample = TokenSample {
        token_address: token.to_string(),
        ts: Timestamp { secs: START, nanos: 0 },
        volume_bits: None,
        maker: None,
        height: 1,
        tx_id: None,
        log_id: 1,
    };
    let drawn = SampleSelection {
        sample: &sample,
        makers: makers.iter().map(|m| m.to_string()).collect(),
        window: window(),
    };
    UnionQuery::new(drawn, "500".to_string(), "6234.5".to_string(), use_desc)
}

fn row() -> UnionQueryResult {
    UnionQueryResult {
        ts: Timestamp { secs: 10, nanos: 20 },
        tx_type: 1,
        token0_address: "a0".to_string(),
        token1_address: None,
        token0_symbol: None,
        token1_symbol: None,
        token0_volume: None,
        token1_volume: None,
        token0_price_usd: None,
        token1_price_usd: None,
        quote: None,
        volume: None,
        quote_index: None,
        maker: None,
        exclude: None,
        factory: None,
        tx_hash: "hash".to_string(),
        height: 5,
        tx_id: None,
        log_id: 7,
        token0_top_pools: 0,
        token1_top_pools: 1,
    }
}

fn expected(index: &str, token: &str, makers: &str, direction: &str) -> String {
    let start = DateTime::<Utc>::from_timestamp(START, 250_000_000).unwrap();
    let end = start + TimeDelta::seconds(86400);
    let from = start.format("%Y-%m-%d %H:%M:%S%.3f").to_string();
    let to = end.format("%Y-%m-%d %H:%M:%S%.3f").to_string();
    format!(
        r#"
        SELECT 
            ts, type, token0_address, token1_address, 
            token0_symbol, token1_symbol, 
            token0_volume, token1_volume, 
            token0_price_usd, token1_price_usd, 
            quote, volume, quote_index, maker, exclude, 
            factory, tx_hash, height, tx_id, log_id, 
            t0top AS token0TopPools, 
            t1top AS token1TopPools 
        FROM 
            dquery_dex_new.dex_swap_tx_solana
            USE INDEX ({})
        WHERE 
            token0_address = '{}' 
            AND platform = {} 
            AND no_anchor = {} 
            AND type = 0 
            AND maker IN ({}) 
            AND ts >= '{}' 
            AND ts <= '{}' 
            AND volume >= {} 
            AND volume <= {} 
        UNION ALL
        SELECT 
            ts, type, token0_address, token1_address, 
            token0_symbol, token1_symbol, 
            token0_volume, token1_volume, 
            token0_price_usd, token1_price_usd, 
            quote, volume, quote_index, maker, exclude, 
            factory, tx_hash, height, tx_id, log_id, 
            t0top AS token0TopPools, 
            t1top AS token1TopPools 
        FROM 
            dquery_dex.dex_swap_tx_solana_1206
            USE INDEX ({})
        WHERE 
            token1_address = '{}' 
            AND platform = {} 
            AND no_anchor = {} 
            AND type = 1 
            AND maker IN ({}) 
            AND ts >= '{}' 
            AND ts <= '{}' 
            AND volume >= {} 
            AND volume <= {} 
        ORDER BY 
            ts {}, height {}, tx_id {}, log_id {} 
        LIMIT 100
        "#,
        index, token, 16, 0, makers, from, to, 500.0, 6234.5, index, token, 16, 0, makers, from, to,
        500.0, 6234.5, direction, direction, direction, direction
    )
}

#[test]
fn the_statement_reads_both_tables_downwards() {
    let q = query("So'l", &["m1", "o'neil"], true);
    assert_eq!(q.order, SortOrder::Desc);
    assert_eq!(q.base_sql(), expected("{}", "So''l", "'m1', 'o''neil'", "DESC"));
    assert_eq!(q.target_sql(), expected("idx_desc", "So''l", "'m1', 'o''neil'", "DESC"));
}

#[test]
fn the_statement_reads_both_tables_upwards() {
    let q = query("token", &["m"], false);
    assert_eq!(q.order, SortOrder::Asc);
    assert_eq!(q.target_sql(), expected("idx_asc", "token", "'m'", "ASC"));
}

#[test]
fn the_verifying_statement_differs_in_the_index_alone() {
    let q = query("token", &["m"], true);
    assert!(q.verify_sql(false).is_none());
    let verify = q.verify_sql(true).unwrap();
    assert_eq!(verify, expected("primary", "token", "'m'", "DESC"));
    assert_eq!(q.target_sql().replace("(idx_desc)", "(primary)"), verify);
}

#[test]
fn a_placeholder_in_a_value_is_filled_too() {
    let q = query("a{}b", &["m"], true);
    assert_eq!(q.target_sql(), expected("idx_desc", "aidx_descb", "'m'", "DESC"));
    let split = query("a{", &["}m"], true);
    assert_eq!(split.target_sql(), expected("idx_desc", "a{", "'}m'", "DESC"));
}

#[test]
fn the_log_line_names_what_was_asked_for() {
    let q = query("So'l", &["m1", "m2"], false);
    assert_eq!(
        q.log_line(37, 100),
        "[Union Query] Latency: 37ms | Rows: 100 | Token: So'l | Makers: 2 | Platform: 16 | NoAnchor: 0 | TS: 2024-12-06 10:20:30 to 2024-12-07 10:20:30 | Volume: 500 to 6234.5 | Sort: ASC | Index: idx_asc"
    );
}

#[test]
fn the_statement_is_shown_on_demand_after_the_log_line() {
    let q = query("t", &["m"], true);
    let quiet = q.closing(1, 2, false, "SELECT 1");
    assert_eq!(quiet.len(), 1);
    assert!(matches!(&quiet[0], Line::Info(s) if *s == q.log_line(1, 2)));
    let verbose = q.closing(1, 2, true, "SELECT 1");
    assert_eq!(verbose.len(), 2);
    assert!(matches!(&verbose[1], Line::Info(s) if s == "  Full SQL:\nSELECT 1"));
}

#[test]
fn a_verification_names_the_query_and_its_index() {
    let q = query("t", &["m"], false);
    let lines = q.verification("T", "V", 7, &Vec::new(), &Vec::new());
    assert!(matches!(&lines[0], Line::Info(s) if s == "[Verify Query] Latency: 7ms | Rows: 0 | Index: primary"));
    assert!(matches!(&lines[1], Line::Info(s) if s == "✅ Verify Passed: Rows match (0), Content match"));
    let lines = q.verification("T", "V", 7, &vec![row()], &Vec::new());
    assert!(matches!(&lines[1], Line::Problem(s) if s == "❌ Verify Failed for [Union Query]: Target Rows 1, Verify Rows 0"));
    assert!(matches!(&lines[2], Line::Problem(s) if s == "Target SQL (using idx_asc index):\nT"));
    assert!(matches!(&lines[3], Line::Problem(s) if s == "Verify SQL (using primary index):\nV"));
}
