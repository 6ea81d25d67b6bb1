//! The course of a run: what a worker does next, and how the run is summed up.

use crate::reading::{reads_as, Found, Part};
use crate::text::{decimal, push_decimal, texts};
use vstd::prelude::*;

verus! {

/// What a worker does next.
#[derive(Clone, Copy, PartialEq, Eq, Debug, Structural)]
pub enum Action {
    /// Run a query of the first type.
    RunUnionQuery,
    /// Run a query of the second or a later type.
    RunUnionQueryV2,
    /// Hand in what was measured.
    Finish,
}

/// What a worker does next: it runs queries of its type until the time is up.
pub open spec fn action_after(elapsed_nanos: nat, duration_secs: nat, query_type: u8) -> Action {
    if elapsed_nanos >= duration_secs * 1_000_000_000 {
        Action::Finish
    } else if query_type == 1 {
        Action::RunUnionQuery
    } else {
        Action::RunUnionQueryV2
    }
}

/// What a worker does next, so many nanoseconds into a run of so many seconds.
pub fn next_action(elapsed_nanos: u128, duration_secs: u64, query_type: u8) -> (r: Action)
    ensures
        r == action_after(elapsed_nanos as nat, duration_secs as nat, query_type),
        r is Finish <==> elapsed_nanos >= duration_secs * 1_000_000_000,
        r is RunUnionQuery <==> elapsed_nanos < duration_secs * 1_000_000_000 && query_type == 1,
        r is RunUnionQueryV2 <==> elapsed_nanos < duration_secs * 1_000_000_000 && query_type != 1,
{
    if elapsed_nanos < duration_secs as u128 * 1_000_000_000u128 {
        if query_type == 1 {
            Action::RunUnionQuery
        } else {
            Action::RunUnionQueryV2
        }
    } else {
        Action::Finish
    }
}

/// Before the time is up a worker always runs a query: one of the first kind where its type is 1,
/// and one of the second kind for every other type. When the time is up it runs none.
pub proof fn a_worker_runs_its_own_type(elapsed_nanos: nat, duration_secs: nat, query_type: u8)
    ensures
        elapsed_nanos < duration_secs * 1_000_000_000 && query_type == 1 ==> action_after(
            elapsed_nanos,
            duration_secs,
            query_type,
        ) is RunUnionQuery,
        elapsed_nanos < duration_secs * 1_000_000_000 && query_type != 1 ==> action_after(
            elapsed_nanos,
            duration_secs,
            query_type,
        ) is RunUnionQueryV2,
        elapsed_nanos >= duration_secs * 1_000_000_000 ==> action_after(
            elapsed_nanos,
            duration_secs,
            query_type,
        ) is Finish,
{
}

/// What a worker does depends on the time only through whether the time is up.
pub proof fn a_worker_keeps_its_kind_of_query(
    one: nat,
    other: nat,
    duration_secs: nat,
    query_type: u8,
)
    requires
        one < duration_secs * 1_000_000_000,
        other < duration_secs * 1_000_000_000,
    ensures
        action_after(one, duration_secs, query_type) == action_after(
            other,
            duration_secs,
            query_type,
        ),
        !(action_after(one, duration_secs, query_type) is Finish),
{
}

/// A worker that has finished never starts again.
pub proof fn finishing_is_final(earlier: nat, later: nat, duration_secs: nat, query_type: u8)
    requires
        earlier <= later,
        action_after(earlier, duration_secs, query_type) == Action::Finish,
    ensures
        action_after(later, duration_secs, query_type) == Action::Finish,
{
}

/// The lines that sum a run up, above the percentiles.
pub open spec fn summary_texts(
    total_time: Seq<char>,
    requests: nat,
    errors: nat,
    qps: Seq<char>,
) -> Seq<Seq<char>> {
    seq![
        "\n--- 📊 Benchmark Summary ---"@,
        "Total Time: "@ + total_time,
        "Total Requests: "@ + decimal(requests),
        "Total Errors: "@ + decimal(errors),
        "QPS: "@ + qps,
        "\n--- ⏱️  Latency Statistics (ms) ---"@,
    ]
}

/// The lines that sum a run up hold the time, the requests, the errors and the rate, each in a line
/// of its own and in that order, between two headings.
pub proof fn summary_reads_back(total_time: Seq<char>, requests: nat, errors: nat, qps: Seq<char>)
    ensures
        ({
            let lines = summary_texts(total_time, requests, errors, qps);
            &&& lines.len() == 6
            &&& lines[0] == "\n--- 📊 Benchmark Summary ---"@
            &&& reads_as(
                lines[1],
                seq![Part::Fixed("Total Time: "@), Part::Chars(total_time.len())],
                seq![Found::Text(total_time)],
            )
            &&& reads_as(
                lines[2],
                seq![Part::Fixed("Total Requests: "@), Part::Number],
                seq![Found::Number(requests as int)],
            )
            &&& reads_as(
                lines[3],
                seq![Part::Fixed("Total Errors: "@), Part::Number],
                seq![Found::Number(errors as int)],
            )
            &&& reads_as(
                lines[4],
                seq![Part::Fixed("QPS: "@), Part::Chars(qps.len())],
                seq![Found::Text(qps)],
            )
            &&& lines[5] == "\n--- ⏱️  Latency Statistics (ms) ---"@
        }),
{
    crate::reading::chars_behind_read("Total Time: "@, total_time);
    crate::reading::number_behind_reads("Total Requests: "@, requests);
    crate::reading::number_behind_reads("Total Errors: "@, errors);
    crate::reading::chars_behind_read("QPS: "@, qps);
}

/// The lines that sum a run up, above the percentiles. The time and the rate are written out
/// already.
pub fn summary(total_time: &str, requests: usize, errors: usize, qps: &str) -> (r: Vec<String>)
    ensures
        texts(r@) == summary_texts(total_time@, requests as nat, errors as nat, qps@),
{
    let mut lines: Vec<String> = Vec::new();
    lines.push("\n--- 📊 Benchmark Summary ---".to_owned());
    let mut time = "Total Time: ".to_owned();
    time.append(total_time);
    lines.push(time);
    let mut total = "Total Requests: ".to_owned();
    push_decimal(&mut total, requests as u128);
    lines.push(total);
    let mut failed = "Total Errors: ".to_owned();
    push_decimal(&mut failed, errors as u128);
    lines.push(failed);
    let mut rate = "QPS: ".to_owned();
    rate.append(qps);
    lines.push(rate);
    lines.push("\n--- ⏱️  Latency Statistics (ms) ---".to_owned());
    assert(texts(lines@) =~= summary_texts(total_time@, requests as nat, errors as nat, qps@));
    lines
}

} // verus!
