use dex_bench::args::{
    max_connections, Args, ArgsError, DEFAULT_CONCURRENCY, DEFAULT_DAYS_BACK, DEFAULT_DURATION,
    DEFAULT_MAKER_COUNT, DEFAULT_QUERY, DEFAULT_SAMPLE_SIZE,
};
use dex_bench::run::{next_action, summary, Action};

fn args(days_back: i64, query: u8) -> Args {
    Args {
        url: "mysql://localhost".to_string(),
        concurrency: DEFAULT_CONCURRENCY,
        duration: DEFAULT_DURATION,
        sample_size: DEFAULT_SAMPLE_SIZE,
        days_back,
        verbose: false,
        verify: false,
        maker_count: DEFAULT_MAKER_COUNT,
        query,
    }
}

#[test]
fn the_defaults_are_accepted() {
    assert_eq!(args(DEFAULT_DAYS_BACK, DEFAULT_QUERY).validate(), Ok(()));
    assert_eq!(
        (DEFAULT_CONCURRENCY, DEFAULT_DURATION, DEFAULT_SAMPLE_SIZE, DEFAULT_DAYS_BACK),
        (10, 30, 2000, 7)
    );
    assert_eq!((DEFAULT_MAKER_COUNT, DEFAULT_QUERY), (500, 1));
}

#[test]
fn settings_out_of_range_are_refused() {
    assert_eq!(args(0, 1).validate(), Err(ArgsError::DaysBack));
    assert_eq!(args(-5, 0).validate(), Err(ArgsError::DaysBack));
    assert_eq!(args(1, 0).validate(), Err(ArgsError::Query));
    assert_eq!(args(1, 11).validate(), Err(ArgsError::Query));
    assert_eq!(args(1, 10).validate(), Ok(()));
    assert_eq!(ArgsError::DaysBack.message(), "❌ --days-back must be at least 1");
    assert_eq!(ArgsError::Query.message(), "❌ --query must be between 1 and 10");
}

#[test]
fn the_banner_lists_the_settings() {
    let mut a = args(14, 3);
    assert_eq!(
        a.banner(),
        vec![
            "--- Starting Solana DEX Benchmark (UNION ALL Query 3) ---".to_string(),
            "Concurrency: 10".to_string(),
            "Sample Size: 2000".to_string(),
            "Max Days Back: 14".to_string(),
            "Logging: DISABLED".to_string(),
        ]
    );
    a.verbose = true;
    assert_eq!(a.banner()[4], "Logging: ENABLED (Full SQL)");
}

#[test]
fn latencies_are_named_after_the_query() {
    assert_eq!(args(1, 1).query_name(), "Union Query 1");
    assert_eq!(args(1, 10).query_name(), "Union Query 10");
}

#[test]
fn there_are_spare_connections() {
    assert_eq!(max_connections(10), 20);
    assert_eq!(max_connections(0), 10);
    assert_eq!(max_connections((1usize << 32) + 3), 13);
}

#[test]
fn workers_run_their_type_until_the_time_is_up() {
    assert_eq!(next_action(0, 30, 1), Action::RunUnionQuery);
    assert_eq!(next_action(29_999_999_999, 30, 2), Action::RunUnionQueryV2);
    assert_eq!(next_action(30_000_000_000, 30, 1), Action::Finish);
    assert_eq!(next_action(30_000_000_001, 30, 1), Action::Finish);
    assert_eq!(next_action(0, 0, 1), Action::Finish);
    assert_eq!(next_action(u64::MAX as u128, u64::MAX, 10), Action::RunUnionQueryV2);
}

#[test]
fn the_summary_counts_requests_and_errors() {
    assert_eq!(
        summary("30.01s", 120, 3, "4.00"),
        vec![
            "\n--- 📊 Benchmark Summary ---".to_string(),
            "Total Time: 30.01s".to_string(),
            "Total Requests: 120".to_string(),
            "Total Errors: 3".to_string(),
            "QPS: 4.00".to_string(),
            "\n--- ⏱️  Latency Statistics (ms) ---".to_string(),
        ]
    );
}
