//! What the workers of a run measured, and the percentiles of it.

use crate::reading::{reads_as, Found, Part, Reading};
use crate::text::{push_decimal, push_padded};
use vstd::prelude::*;

verus! {

/// How one query of a worker ended.
#[derive(Clone, Copy, PartialEq, Eq, Debug, Structural)]
pub enum QueryOutcome {
    /// The query returned after so many microseconds.
    Completed { micros: u128 },
    /// The query failed.
    Failed,
}

/// What one worker measured.
#[derive(Debug)]
pub struct ThreadStats {
    /// The latency of each query that returned, in microseconds, in the order of the queries.
    pub query_latencies: Vec<u128>,
    /// How many queries failed.
    pub errors: usize,
}

/// The latencies of the queries that returned, in order.
pub open spec fn completed(outcomes: Seq<QueryOutcome>) -> Seq<u128>
    decreases outcomes.len(),
{
    if outcomes.len() == 0 {
        Seq::empty()
    } else {
        let before = completed(outcomes.drop_last());
        match outcomes.last() {
            QueryOutcome::Completed { micros } => before.push(micros),
            QueryOutcome::Failed => before,
        }
    }
}

/// The number of queries that failed.
pub open spec fn failures(outcomes: Seq<QueryOutcome>) -> nat
    decreases outcomes.len(),
{
    if outcomes.len() == 0 {
        0
    } else {
        failures(outcomes.drop_last()) + if outcomes.last() is Failed {
            1nat
        } else {
            0nat
        }
    }
}

impl ThreadStats {
    /// The stats are those of a worker whose queries ended as `outcomes` says.
    pub open spec fn tallies(self, outcomes: Seq<QueryOutcome>) -> bool {
        &&& self.query_latencies@ == completed(outcomes)
        &&& self.errors == failures(outcomes)
    }

    /// The stats of a worker that has not run a query.
    pub fn new() -> (r: ThreadStats)
        ensures
            r.query_latencies@ == Seq::<u128>::empty(),
            r.errors == 0,
            r.tallies(Seq::empty()),
    {
        ThreadStats { query_latencies: Vec::with_capacity(1000), errors: 0 }
    }

    /// Counts one more query.
    pub fn record(&mut self, outcome: QueryOutcome)
        requires
            outcome is Failed ==> old(self).errors < usize::MAX,
        ensures
            final(self).query_latencies@ == match outcome {
                QueryOutcome::Completed { micros } => old(self).query_latencies@.push(micros),
                QueryOutcome::Failed => old(self).query_latencies@,
            },
            final(self).errors == old(self).errors + if outcome is Failed {
                1int
            } else {
                0int
            },
    {
        match outcome {
            QueryOutcome::Completed { micros } => {
                self.query_latencies.push(micros);
            },
            QueryOutcome::Failed => {
                self.errors = self.errors + 1;
            },
        }
    }
}

/// Counting one more query keeps the stats true to the queries that were run.
pub proof fn recording_keeps_the_tally(
    before: ThreadStats,
    after: ThreadStats,
    outcomes: Seq<QueryOutcome>,
    outcome: QueryOutcome,
)
    requires
        before.tallies(outcomes),
        after.query_latencies@ == match outcome {
            QueryOutcome::Completed { micros } => before.query_latencies@.push(micros),
            QueryOutcome::Failed => before.query_latencies@,
        },
        after.errors == before.errors + if outcome is Failed {
            1int
        } else {
            0int
        },
    ensures
        after.tallies(outcomes.push(outcome)),
{
    assert(outcomes.push(outcome).drop_last() =~= outcomes);
}

/// Every query of a worker is counted once: as a latency or as an error.
pub proof fn every_query_is_counted_once(stats: ThreadStats, outcomes: Seq<QueryOutcome>)
    requires
        stats.tallies(outcomes),
    ensures
        stats.query_latencies@.len() + stats.errors == outcomes.len(),
{
    counts_add_up(outcomes);
}

proof fn counts_add_up(outcomes: Seq<QueryOutcome>)
    ensures
        completed(outcomes).len() + failures(outcomes) == outcomes.len(),
    decreases outcomes.len(),
{
    if outcomes.len() > 0 {
        counts_add_up(outcomes.drop_last());
    }
}

/// What all workers measured.
#[derive(Debug)]
pub struct BenchTotals {
    /// The latencies of all workers, one worker's after the other's.
    pub latencies: Vec<u128>,
    /// How many queries failed in all.
    pub errors: usize,
}

impl BenchTotals {
    /// The totals over no worker.
    pub fn new() -> (r: BenchTotals)
        ensures
            r.latencies@ == Seq::<u128>::empty(),
            r.errors == 0,
    {
        BenchTotals { latencies: Vec::new(), errors: 0 }
    }

    /// Adds what one more worker measured.
    pub fn add_worker(&mut self, stats: ThreadStats)
        requires
            old(self).errors + stats.errors <= usize::MAX,
        ensures
            final(self).latencies@ == old(self).latencies@ + stats.query_latencies@,
            final(self).errors == old(self).errors + stats.errors,
    {
        let mut measured = stats.query_latencies;
        self.latencies.append(&mut measured);
        self.errors = self.errors + stats.errors;
    }
}

/// `s` never falls.
pub open spec fn sorted(s: Seq<u128>) -> bool {
    forall|i: int, j: int| 0 <= i <= j < s.len() ==> s[i] <= s[j]
}

/// `slice::sort_unstable` on numbers: the same numbers, in ascending order.
#[verifier::external_body]
fn sort_latencies(latencies: &mut Vec<u128>)
    ensures
        sorted(final(latencies)@),
        final(latencies)@.to_multiset() == old(latencies)@.to_multiset(),
{
    latencies.sort_unstable();
}

/// The position below which `percent` percent of `count` sorted values lie, rounded down.
pub open spec fn rank(count: nat, percent: nat) -> nat {
    count * percent / 100
}

/// The position below which `percent` percent of `count` sorted values lie, rounded down.
pub fn percentile_rank(count: usize, percent: usize) -> (r: usize)
    requires
        percent <= 100,
    ensures
        r == rank(count as nat, percent as nat),
        r * 100 <= count * percent < (r + 1) * 100,
        r <= count,
        percent < 100 && count > 0 ==> r < count,
{
    assert(count * percent <= count * 100) by (nonlinear_arith)
        requires
            percent <= 100,
    ;
    assert(count > 0 && percent < 100 ==> count * percent < count * 100) by (nonlinear_arith)
        requires
            percent <= 100,
    ;
    assert(count * percent >= 0) by (nonlinear_arith);
    let scaled: u128 = count as u128 * percent as u128;
    (scaled / 100) as usize
}

/// A rank splits sorted values at their percentage: the values below it are no more than `percent`
/// in a hundred, and one value more would be.
pub proof fn a_rank_splits_at_its_percentage(count: nat, percent: nat)
    ensures
        rank(count, percent) * 100 <= count * percent,
        count * percent < (rank(count, percent) + 1) * 100,
{
}

/// The percentiles of a run's latencies, in microseconds.
#[derive(Clone, Copy, PartialEq, Eq, Debug, Structural)]
pub struct Percentiles {
    pub count: usize,
    pub p50: u128,
    pub p95: u128,
    pub p99: u128,
    pub max: u128,
}

/// Sorts the latencies and picks their percentiles. There are none where no query returned.
pub fn latency_percentiles(latencies: &mut Vec<u128>) -> (r: Option<Percentiles>)
    ensures
        sorted(final(latencies)@),
        final(latencies)@.to_multiset() == old(latencies)@.to_multiset(),
        final(latencies)@.len() == old(latencies)@.len(),
        r is None <==> old(latencies)@.len() == 0,
        r matches Some(p) ==> {
            let s = final(latencies)@;
            &&& p.count == s.len()
            &&& p.p50 == s[rank(s.len(), 50) as int]
            &&& p.p95 == s[rank(s.len(), 95) as int]
            &&& p.p99 == s[rank(s.len(), 99) as int]
            &&& p.max == s.last()
            &&& p.p50 <= p.p95 <= p.p99 <= p.max
        },
        forall|i: int, j: int|
            0 <= i <= j < final(latencies)@.len() ==> final(latencies)@[i] <= final(latencies)@[j],
        r matches Some(p) ==> {
            let s = final(latencies)@;
            &&& p.p50 == s[s.len() as int * 50 / 100]
            &&& p.p95 == s[s.len() as int * 95 / 100]
            &&& p.p99 == s[s.len() as int * 99 / 100]
            &&& p.max == s[s.len() - 1]
        },
{
    let count = latencies.len();
    if count == 0 {
        return None;
    }
    sort_latencies(latencies);
    proof {
        latencies@.to_multiset_ensures();
        old(latencies)@.to_multiset_ensures();
    }
    let p50: u128 = latencies[percentile_rank(count, 50)];
    let p95: u128 = latencies[percentile_rank(count, 95)];
    let p99: u128 = latencies[percentile_rank(count, 99)];
    let max: u128 = latencies[count - 1];
    Some(Percentiles { count, p50, p95, p99, max })
}

/// The line that reports percentiles, already written in milliseconds, under a name.
pub open spec fn percentile_text(
    name: Seq<char>,
    count: nat,
    p50: Seq<char>,
    p95: Seq<char>,
    p99: Seq<char>,
    max: Seq<char>,
) -> Seq<char> {
    crate::text::padded(name, 25) + " | Cnt:"@ + crate::text::padded(
        crate::text::decimal(count),
        5,
    ) + " | P50:"@ + p50 + "ms | P95:"@ + p95 + "ms | P99:"@ + p99 + "ms | Max:"@ + max + "ms"@
}

/// A reader of the line with the percentiles finds the padded name, the padded count and the four
/// latencies in it, in that order.
pub proof fn percentile_line_reads_back(
    name: Seq<char>,
    count: nat,
    p50: Seq<char>,
    p95: Seq<char>,
    p99: Seq<char>,
    max: Seq<char>,
)
    ensures
        reads_as(
            percentile_text(name, count, p50, p95, p99, max),
            seq![
                Part::Fixed(crate::text::padded(name, 25)),
                Part::Fixed(" | Cnt:"@),
                Part::Chars(crate::text::padded(crate::text::decimal(count), 5).len()),
                Part::Fixed(" | P50:"@),
                Part::Chars(p50.len()),
                Part::Fixed("ms | P95:"@),
                Part::Chars(p95.len()),
                Part::Fixed("ms | P99:"@),
                Part::Chars(p99.len()),
                Part::Fixed("ms | Max:"@),
                Part::Chars(max.len()),
                Part::Fixed("ms"@),
            ],
            seq![
                Found::Text(crate::text::padded(crate::text::decimal(count), 5)),
                Found::Text(p50),
                Found::Text(p95),
                Found::Text(p99),
                Found::Text(max),
            ],
        ),
{
    let r0 = Reading::start(crate::text::padded(name, 25));
    crate::reading::start_holds(crate::text::padded(name, 25));
    crate::reading::fixed_holds(r0, " | Cnt:"@);
    let r1 = r0.fixed(" | Cnt:"@);
    crate::reading::chars_hold(r1, crate::text::padded(crate::text::decimal(count), 5));
    let r2 = r1.chars(crate::text::padded(crate::text::decimal(count), 5));
    crate::reading::fixed_holds(r2, " | P50:"@);
    let r3 = r2.fixed(" | P50:"@);
    crate::reading::chars_hold(r3, p50);
    let r4 = r3.chars(p50);
    crate::reading::fixed_holds(r4, "ms | P95:"@);
    let r5 = r4.fixed("ms | P95:"@);
    crate::reading::chars_hold(r5, p95);
    let r6 = r5.chars(p95);
    crate::reading::fixed_holds(r6, "ms | P99:"@);
    let r7 = r6.fixed("ms | P99:"@);
    crate::reading::chars_hold(r7, p99);
    let r8 = r7.chars(p99);
    crate::reading::fixed_holds(r8, "ms | Max:"@);
    let r9 = r8.fixed("ms | Max:"@);
    crate::reading::chars_hold(r9, max);
    let r10 = r9.chars(max);
    crate::reading::fixed_holds(r10, "ms"@);
    let r11 = r10.fixed("ms"@);
    let text = percentile_text(name, count, p50, p95, p99, max);
    let layout = seq![
        Part::Fixed(crate::text::padded(name, 25)),
        Part::Fixed(" | Cnt:"@),
        Part::Chars(crate::text::padded(crate::text::decimal(count), 5).len()),
        Part::Fixed(" | P50:"@),
        Part::Chars(p50.len()),
        Part::Fixed("ms | P95:"@),
        Part::Chars(p95.len()),
        Part::Fixed("ms | P99:"@),
        Part::Chars(p99.len()),
        Part::Fixed("ms | Max:"@),
        Part::Chars(max.len()),
        Part::Fixed("ms"@),
    ];
    let found = seq![
        Found::Text(crate::text::padded(crate::text::decimal(count), 5)),
        Found::Text(p50),
        Found::Text(p95),
        Found::Text(p99),
        Found::Text(max),
    ];
    crate::reading::whole_text_reads(r11, text, layout, found);
}

/// The line that reports percentiles, already written in milliseconds, under a name.
pub fn percentile_line(
    name: &str,
    count: usize,
    p50: &str,
    p95: &str,
    p99: &str,
    max: &str,
) -> (r: String)
    ensures
        r@ == percentile_text(name@, count as nat, p50@, p95@, p99@, max@),
{
    let mut number = String::new();
    push_decimal(&mut number, count as u128);
    assert(number@ =~= crate::text::decimal(count as nat));
    let mut out = String::new();
    push_padded(&mut out, name, 25);
    assert(out@ =~= crate::text::padded(name@, 25));
    out.append(" | Cnt:");
    push_padded(&mut out, number.as_str(), 5);
    out.append(" | P50:");
    out.append(p50);
    out.append("ms | P95:");
    out.append(p95);
    out.append("ms | P99:");
    out.append(p99);
    out.append("ms | Max:");
    out.append(max);
    out.append("ms");
    out
}

/// The line that stands in for the percentiles where no query returned.
pub fn no_data_line(name: &str) -> (r: String)
    ensures
        r@ == name@ + ": No data"@,
{
    let mut out = name.to_owned();
    out.append(": No data");
    out
}

} // verus!
