use dex_bench::cursor::cursors_fit;
use dex_bench::draws::SampleWindow;
use dex_bench::report::Line;
use dex_bench::rows::{UnionQueryResult, UnionQueryResultWithPosition};
use dex_bench::sample::TokenSample;
use dex_bench::timestamp::{TimeWindow, Timestamp};
use dex_bench::union_query_v2::{exchange_column, UnionQueryV2};
use rand::rngs::StdRng;
use rand::SeedableRng;

const START: i64 = 1733480430;

fn window() -> TimeWindow {
    TimeWindow {
        start: Timestamp { secs: START, nanos: 250_000_000 },
        end: Timestamp { secs: START + 86400, nanos: 250_000_000 },
    }
}

fn query(query_type: u8, token: &str, maker: Option<&str>, cursor: Option<&str>) -> UnionQueryV2 {
    UnionQueryV2 {
        query_type,
        token_address: token.to_string(),
        window: window(),
        maker: maker.map(|m| m.to_string()),
        volume_min: "12.5".to_string(),
        cursor: cursor.map(|c| c.to_string()),
    }
}

fn row() -> UnionQueryResult {
    UnionQueryResult {
        ts: Timestamp { secs: 10, nanos: 20 },
        tx_type: 1,
        token0_address: "a0".to_string(),
        token1_address: None,
        token0_symbol: None,
        token1_symbol: None,
        token0_volume: None,
        token1_volume: None,
        token0_price_usd: None,
        token1_price_usd: None,
        quote: None,
        volume: None,
        quote_index: None,
        maker: None,
        exclude: None,
        factory: None,
        tx_hash: "hash".to_string(),
        height: 5,
        tx_id: None,
        log_id: 7,
        token0_top_pools: 0,
        token1_top_pools: 1,
    }
}

fn expected(index: &str, where0: &str, where1: &str, direction: &str) -> String {
    format!(
        r#"
        SELECT
          `ts`,
          TYPE,
          `token0_address`,
          `token1_address`,
          `token0_symbol`,
          `token1_symbol`,
          `token0_volume`,
          `token1_volume`,
          `token0_price_usd`,
          `token1_price_usd`,
          `quote`,
          `volume`,
          `quote_index`,
          `maker`,
          `exclude`,
          `factory`,
          `tx_hash`,
          `height`,
          `tx_id`,
          `log_id`,
          `t0top` AS `token0toppools`,
          `t1top` AS `token1toppools`,
          `token0_position_type`,
          `token1_position_type`
        FROM
          `dquery_dex_new`.`dex_swap_tx_solana`
          USE INDEX ({})
        WHERE
          {}
        UNION
        ALL
        SELECT
          `ts`,
          TYPE,
          `token0_address`,
          `token1_address`,
          `token0_symbol`,
          `token1_symbol`,
          `token0_volume`,
          `token1_volume`,
          `token0_price_usd`,
          `token1_price_usd`,
          `quote`,
          `volume`,
          `quote_index`,
          `maker`,
          `exclude`,
          `factory`,
          `tx_hash`,
          `height`,
          `tx_id`,
          `log_id`,
          `t0top` AS `token0toppools`,
          `t1top` AS `token1toppools`,
          `token0_position_type`,
          `token1_position_type`
        FROM
          `dquery_dex`.`dex_swap_tx_solana_1206`
          USE INDEX ({})
        WHERE
          {}
        ORDER BY
          `ts` {},
          `height` {},
          `tx_id` {},
          `log_id` {}
        LIMIT
          100
        "#,
        index, where0, index, where1, direction, direction, direction, direction
    )
}

const CURSOR: &str = "('2024-12-06 10:20:30.250', 9, NULL, -4)";

fn conditions(column: &str, token: &str) -> Vec<String> {
    vec![
        format!("`{}` = '{}'", column, token),
        "`platform` = 16".to_string(),
        "`no_anchor` = false".to_string(),
        "`ts` >= '2024-12-06 10:20:30.250'".to_string(),
        "`ts` <= '2024-12-07 10:20:30.250'".to_string(),
    ]
}

#[test]
fn a_query_without_filters_has_the_fixed_conditions() {
    let q = query(2, "So'l", None, None);
    assert_eq!(q.token0_conditions(), conditions("token0_address", "So''l"));
    assert_eq!(q.token1_conditions(), conditions("token1_address", "So''l"));
}

#[test]
fn a_query_with_all_filters_adds_them_in_order() {
    let q = query(10, "t", Some("o'neil"), Some(CURSOR));
    let mut first = conditions("token0_address", "t");
    first.push("`maker` = 'o''neil'".to_string());
    first.push("`volume` >= 12.5".to_string());
    first.push(format!("(`ts`, `height`, `tx_id`, `log_id`) < {}", CURSOR));
    assert_eq!(q.token0_conditions(), first);
    let second = q.token1_conditions();
    assert_eq!(second[0], "`token1_address` = 't'");
    assert_eq!(second[1..], first[1..]);
}

#[test]
fn the_fifth_type_looks_after_its_cursor() {
    let q = query(5, "t", None, Some(CURSOR));
    let list = q.token0_conditions();
    assert_eq!(list[5], format!("(`ts`, `height`, `tx_id`, `log_id`) > {}", CURSOR));
    assert!(q.target_sql().contains("(idx_asc)"));
}

#[test]
fn the_least_volume_is_asked_for_by_three_types() {
    for query_type in 2u8..=10 {
        let list = query(query_type, "t", None, None).token0_conditions();
        let has = list.iter().any(|c| c == "`volume` >= 12.5");
        assert_eq!(has, query_type == 7 || query_type == 9 || query_type == 10);
    }
}

#[test]
fn the_statement_joins_the_conditions() {
    let q = query(6, "t", Some("m"), Some(CURSOR));
    let and = "\n            AND ";
    let first = q.token0_conditions().join(and);
    let second = q.token1_conditions().join(and);
    assert_eq!(q.base_sql(), expected("{}", &first, &second, "DESC"));
    assert_eq!(q.target_sql(), expected("idx_desc", &first, &second, "DESC"));
    assert_eq!(q.verify_sql(true).unwrap(), expected("primary", &first, &second, "DESC"));
    assert!(q.verify_sql(false).is_none());
    let up = query(8, "t", None, None);
    let first = up.token0_conditions().join(and);
    let second = up.token1_conditions().join(and);
    assert_eq!(up.target_sql(), expected("idx_asc", &first, &second, "ASC"));
}

#[test]
fn the_column_is_exchanged_inside_values_too() {
    let q = query(2, "x`token0_address`y", None, None);
    assert_eq!(q.token1_conditions()[0], "`token1_address` = 'x`token1_address`y'");
    let list = vec!["`token0_address` `token0_address`".to_string(), "token0_address".to_string()];
    assert_eq!(
        exchange_column(&list),
        vec!["`token1_address` `token1_address`".to_string(), "token0_address".to_string()]
    );
}

#[test]
fn a_placeholder_in_a_maker_is_filled_too() {
    let q = query(4, "t", Some("{}"), None);
    assert!(q.target_sql().contains("`maker` = 'idx_desc'"));
    assert!(q.verify_sql(true).unwrap().contains("`maker` = 'primary'"));
}

#[test]
fn the_log_line_names_the_filters() {
    let q = query(10, "t", Some("m"), Some("(c)"));
    assert_eq!(q.label(), "Union Query 10");
    assert_eq!(
        q.log_line(5, 0),
        "[Union Query 10] Latency: 5ms | Rows: 0 | Token: t | Platform: 16 | NoAnchor: 0 | TS: 2024-12-06 10:20:30 to 2024-12-07 10:20:30 | Maker: m | Volume >= 12.5 | Cursor: (c) | Sort: DESC | Index: idx_desc"
    );
    let plain = query(8, "t", None, None);
    assert_eq!(
        plain.log_line(5, 0),
        "[Union Query 8] Latency: 5ms | Rows: 0 | Token: t | Platform: 16 | NoAnchor: 0 | TS: 2024-12-06 10:20:30 to 2024-12-07 10:20:30 | No maker filter | No volume filter | No cursor | Sort: ASC | Index: idx_asc"
    );
    let lines = plain.closing(5, 0, true, "S");
    assert_eq!(lines.len(), 2);
    assert!(matches!(&lines[0], Line::Info(s) if *s == plain.log_line(5, 0)));
    assert!(matches!(&lines[1], Line::Info(s) if s == "  Full SQL:\nS"));
}

#[test]
fn a_drawn_query_has_the_filters_of_its_type() {
    let sample = TokenSample {
        token_address: "addr".to_string(),
        ts: Timestamp { secs: START, nanos: 0 },
        volume_bits: None,
        maker: Some("own".to_string()),
        height: 500,
        tx_id: Some(7),
        log_id: 3,
    };
    let pool = vec!["p".to_string()];
    let mut rng = StdRng::seed_from_u64(11);
    for query_type in 2u8..=10 {
        let side = match query_type {
            3 | 6 | 9 | 10 => Some(true),
            5 => Some(false),
            _ => None,
        };
        if let Some(backwards) = side {
            assert!(cursors_fit(&sample, backwards));
        }
        let drawn = SampleWindow { sample: &sample, window: window() };
        let q = UnionQueryV2::draw(query_type, drawn, &pool, "1".to_string(), &mut rng);
        assert_eq!(q.query_type, query_type);
        assert_eq!(q.token_address, "addr");
        assert_eq!(q.window, window());
        assert_eq!(q.volume_min, "1");
        assert_eq!(q.cursor.is_some(), side.is_some());
        let wants_maker = matches!(query_type, 4 | 6 | 10);
        assert_eq!(q.maker, if wants_maker { Some("own".to_string()) } else { None });
        if let Some(cursor) = &q.cursor {
            assert!(!cursor.contains('{') && !cursor.contains('}') && !cursor.contains('`'));
        }
    }
}

#[test]
fn a_verification_names_the_query_type() {
    let q = query(5, "t", None, None);
    let with = |p: Option<i8>| UnionQueryResultWithPosition {
        swap: row(),
        token0_position_type: p,
        token1_position_type: None,
    };
    let lines = q.verification("T", "V", 7, &vec![with(None)], &vec![with(Some(1))]);
    assert!(matches!(&lines[1], Line::Problem(s) if s == "❌ Verify Failed for [Union Query 5]: Content Mismatch (Row count matches: 1)"));
    assert!(matches!(&lines[2], Line::Problem(s) if s == "Target SQL (using idx_asc index):\nT"));
}
