use dex_bench::stats::{
    latency_percentiles, no_data_line, percentile_line, percentile_rank, BenchTotals,
    Percentiles, QueryOutcome, ThreadStats,
};

#[test]
fn new_stats_are_empty() {
    let s = ThreadStats::new();
    assert!(s.query_latencies.is_empty());
    assert_eq!(s.errors, 0);
}

#[test]
fn every_query_is_counted_once() {
    let mut s = ThreadStats::new();
    s.record(QueryOutcome::Completed { micros: 30 });
    s.record(QueryOutcome::Failed);
    s.record(QueryOutcome::Completed { micros: 10 });
    s.record(QueryOutcome::Failed);
    assert_eq!(s.query_latencies, vec![30, 10]);
    assert_eq!(s.errors, 2);
    assert_eq!(s.query_latencies.len() + s.errors, 4);
}

#[test]
fn totals_follow_the_workers() {
    let mut t = BenchTotals::new();
    assert!(t.latencies.is_empty());
    t.add_worker(ThreadStats { query_latencies: vec![5, 1], errors: 2 });
    t.add_worker(ThreadStats { query_latencies: vec![3], errors: 1 });
    assert_eq!(t.latencies, vec![5, 1, 3]);
    assert_eq!(t.errors, 3);
}

#[test]
fn ranks_round_down_as_fractions_of_the_count() {
    for count in (1usize..5000).chain([1_000_000, 123_456_789, 1 << 40]) {
        let len = count as f64;
        assert_eq!(percentile_rank(count, 50), (len * 0.50) as usize);
        assert_eq!(percentile_rank(count, 95), (len * 0.95) as usize);
        assert_eq!(percentile_rank(count, 99), (len * 0.99) as usize);
        assert!(percentile_rank(count, 99) < count);
    }
    assert_eq!(percentile_rank(20, 95), 19);
    assert_eq!(percentile_rank(usize::MAX, 100), usize::MAX);
}

#[test]
fn percentiles_are_picked_from_the_sorted_latencies() {
    let mut latencies: Vec<u128> = (0..100).map(|i| 1000 - 10 * i).collect();
    let p = latency_percentiles(&mut latencies).unwrap();
    assert!(latencies.windows(2).all(|w| w[0] <= w[1]));
    assert_eq!(p, Percentiles { count: 100, p50: 510, p95: 960, p99: 1000, max: 1000 });
    assert!(p.p50 <= p.p95 && p.p95 <= p.p99 && p.p99 <= p.max);
}

#[test]
fn percentiles_of_one_latency_are_that_latency() {
    let mut one = vec![7u128];
    let p = latency_percentiles(&mut one).unwrap();
    assert_eq!(p, Percentiles { count: 1, p50: 7, p95: 7, p99: 7, max: 7 });
}

#[test]
fn there_are_no_percentiles_without_latencies() {
    let mut none: Vec<u128> = Vec::new();
    assert!(latency_percentiles(&mut none).is_none());
    assert_eq!(no_data_line("Union Query 3"), "Union Query 3: No data");
}

#[test]
fn percentile_lines_are_aligned() {
    let ms = |us: u128| format!("{:.2}", us as f64 / 1000.0);
    let line = percentile_line("Union Query 1", 42, &ms(1500), &ms(2500), &ms(9999), &ms(12345));
    assert_eq!(
        line,
        format!(
            "{:<25} | Cnt:{:<5} | P50:{:.2}ms | P95:{:.2}ms | P99:{:.2}ms | Max:{:.2}ms",
            "Union Query 1", 42, 1.5, 2.5, 9.999, 12.345
        )
    );
    assert_eq!(
        percentile_line("a name that is longer than the column", 1234567, "1", "2", "3", "4"),
        "a name that is longer than the column | Cnt:1234567 | P50:1ms | P95:2ms | P99:3ms | Max:4ms"
    );
}
