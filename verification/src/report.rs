//! The lines that a query leaves behind.

use crate::reading::{reads_as, Found, Part, Reading};
use crate::rows::Verification;
use crate::text::{decimal, push_decimal};
use vstd::prelude::*;

verus! {

/// A line: information for standard output, or a problem for standard error.
#[derive(Debug)]
pub enum Line {
    Info(String),
    Problem(String),
}

impl View for Line {
    type V = (bool, Seq<char>);

    /// Whether the line goes to standard error, and its text.
    open spec fn view(&self) -> (bool, Seq<char>) {
        match self {
            Line::Info(text) => (false, text@),
            Line::Problem(text) => (true, text@),
        }
    }
}

/// Where the lines go, and their texts.
pub open spec fn shown(lines: Seq<Line>) -> Seq<(bool, Seq<char>)> {
    Seq::new(lines.len(), |i: int| lines[i]@)
}

/// A query is slow when it takes longer than this many milliseconds.
pub const SLOW_MILLIS: u128 = 1000;

/// The warning about a slow query.
pub open spec fn slow_text(millis: nat, sql: Seq<char>) -> Seq<char> {
    "⚠️  Slow query ("@ + decimal(millis) + "ms):\n"@ + sql
}

/// The warning about a query, where it was slow.
pub fn slow_query_line(millis: u128, target_sql: &str) -> (r: Option<Line>)
    ensures
        r is Some <==> millis > SLOW_MILLIS,
        r is Some <==> millis > 1000,
        r matches Some(line) ==> line@ == (false, slow_text(millis as nat, target_sql@)),
{
    if millis > SLOW_MILLIS {
        let mut text = "⚠️  Slow query (".to_owned();
        push_decimal(&mut text, millis);
        text.append("ms):\n");
        text.append(target_sql);
        Some(Line::Info(text))
    } else {
        None
    }
}

/// The line about the query that verifies another.
pub open spec fn verify_query_text(millis: nat, rows: nat) -> Seq<char> {
    "[Verify Query] Latency: "@ + decimal(millis) + "ms | Rows: "@ + decimal(rows)
        + " | Index: primary"@
}

/// The line about answers that differ in their number of rows.
pub open spec fn row_count_text(label: Seq<char>, target: nat, verify: nat) -> Seq<char> {
    "❌ Verify Failed for ["@ + label + "]: Target Rows "@ + decimal(target) + ", Verify Rows "@
        + decimal(verify)
}

/// The line about answers that differ in their rows.
pub open spec fn content_text(label: Seq<char>, rows: nat) -> Seq<char> {
    "❌ Verify Failed for ["@ + label + "]: Content Mismatch (Row count matches: "@ + decimal(rows)
        + ")"@
}

/// The line about answers that are the same.
pub open spec fn passed_text(rows: nat) -> Seq<char> {
    "✅ Verify Passed: Rows match ("@ + decimal(rows) + "), Content match"@
}

/// The line that shows the statement that was verified.
pub open spec fn target_sql_text(index: Seq<char>, sql: Seq<char>) -> Seq<char> {
    "Target SQL (using "@ + index + " index):\n"@ + sql
}

/// The line that shows the statement that verified it.
pub open spec fn verify_sql_text(sql: Seq<char>) -> Seq<char> {
    "Verify SQL (using primary index):\n"@ + sql
}

/// The lines about a verification: the latency of the verifying query, and either that it
/// passed or what differs, with both statements.
pub open spec fn verification_lines(
    label: Seq<char>,
    index: Seq<char>,
    target_sql: Seq<char>,
    verify_sql: Seq<char>,
    millis: nat,
    verify_rows: nat,
    outcome: Verification,
) -> Seq<(bool, Seq<char>)> {
    let first = (false, verify_query_text(millis, verify_rows));
    let target = (true, target_sql_text(index, target_sql));
    let verify = (true, verify_sql_text(verify_sql));
    match outcome {
        Verification::RowCountMismatch { target: t, verify: v } => seq![
            first,
            (true, row_count_text(label, t as nat, v as nat)),
            target,
            verify,
        ],
        Verification::ContentMismatch { rows } => seq![
            first,
            (true, content_text(label, rows as nat)),
            target,
            verify,
        ],
        Verification::Passed { rows } => seq![first, (false, passed_text(rows as nat))],
    }
}

/// The two lines that show the statements of a failed verification.
fn push_statements(
    lines: &mut Vec<Line>,
    index_name: &str,
    target_sql: &str,
    verify_sql: &str,
)
    ensures
        shown(final(lines)@) == shown(old(lines)@) + seq![
            (true, target_sql_text(index_name@, target_sql@)),
            (true, verify_sql_text(verify_sql@)),
        ],
{
    let mut target = "Target SQL (using ".to_owned();
    target.append(index_name);
    target.append(" index):\n");
    target.append(target_sql);
    lines.push(Line::Problem(target));
    let mut verify = "Verify SQL (using primary index):\n".to_owned();
    verify.append(verify_sql);
    lines.push(Line::Problem(verify));
    assert(shown(lines@) =~= shown(old(lines)@) + seq![
        (true, target_sql_text(index_name@, target_sql@)),
        (true, verify_sql_text(verify_sql@)),
    ]);
}

/// The lines about a verification.
pub fn verification_report(
    label: &str,
    index_name: &str,
    target_sql: &str,
    verify_sql: &str,
    millis: u128,
    verify_rows: usize,
    outcome: Verification,
) -> (r: Vec<Line>)
    ensures
        shown(r@) == verification_lines(
            label@,
            index_name@,
            target_sql@,
            verify_sql@,
            millis as nat,
            verify_rows as nat,
            outcome,
        ),
{
    let mut lines: Vec<Line> = Vec::new();
    let mut first = "[Verify Query] Latency: ".to_owned();
    push_decimal(&mut first, millis);
    first.append("ms | Rows: ");
    push_decimal(&mut first, verify_rows as u128);
    first.append(" | Index: primary");
    lines.push(Line::Info(first));
    match outcome {
        Verification::RowCountMismatch { target, verify } => {
            let mut text = "❌ Verify Failed for [".to_owned();
            text.append(label);
            text.append("]: Target Rows ");
            push_decimal(&mut text, target as u128);
            text.append(", Verify Rows ");
            push_decimal(&mut text, verify as u128);
            lines.push(Line::Problem(text));
            push_statements(&mut lines, index_name, target_sql, verify_sql);
        },
        Verification::ContentMismatch { rows } => {
            let mut text = "❌ Verify Failed for [".to_owned();
            text.append(label);
            text.append("]: Content Mismatch (Row count matches: ");
            push_decimal(&mut text, rows as u128);
            text.append(")");
            lines.push(Line::Problem(text));
            push_statements(&mut lines, index_name, target_sql, verify_sql);
        },
        Verification::Passed { rows } => {
            let mut text = "✅ Verify Passed: Rows match (".to_owned();
            push_decimal(&mut text, rows as u128);
            text.append("), Content match");
            lines.push(Line::Info(text));
        },
    }
    assert(shown(lines@) =~= verification_lines(
        label@,
        index_name@,
        target_sql@,
        verify_sql@,
        millis as nat,
        verify_rows as nat,
        outcome,
    ));
    lines
}

/// The lines that close a query: its log line, and its statement where that is asked for.
pub open spec fn closing_lines(
    log: Seq<char>,
    verbose: bool,
    target_sql: Seq<char>,
) -> Seq<(bool, Seq<char>)> {
    if verbose {
        seq![(false, log), (false, "  Full SQL:\n"@ + target_sql)]
    } else {
        seq![(false, log)]
    }
}

/// The lines that close a query.
pub fn closing_report(log: String, verbose: bool, target_sql: &str) -> (r: Vec<Line>)
    ensures
        shown(r@) == closing_lines(log@, verbose, target_sql@),
{
    let mut lines: Vec<Line> = Vec::new();
    lines.push(Line::Info(log));
    if verbose {
        let mut text = "  Full SQL:\n".to_owned();
        text.append(target_sql);
        lines.push(Line::Info(text));
    }
    assert(shown(lines@) =~= closing_lines(log@, verbose, target_sql@));
    lines
}

/// A reader of the warning about a slow query finds the latency and the whole statement in it.
pub proof fn slow_warning_reads_back(millis: nat, sql: Seq<char>)
    ensures
        reads_as(
            slow_text(millis, sql),
            seq![
                Part::Fixed("⚠️  Slow query ("@),
                Part::Number,
                Part::Fixed("ms):\n"@),
                Part::Chars(sql.len()),
            ],
            seq![
                Found::Number(millis as int),
                Found::Text(sql),
            ],
        ),
{
    reveal_strlit("ms):\n");
    let r0 = Reading::start("⚠️  Slow query ("@);
    crate::reading::start_holds("⚠️  Slow query ("@);
    crate::reading::number_holds(r0, millis, "ms):\n"@);
    let r1 = r0.number(millis, "ms):\n"@);
    crate::reading::chars_hold(r1, sql);
    let r2 = r1.chars(sql);
    let text = slow_text(millis, sql);
    let layout = seq![
        Part::Fixed("⚠️  Slow query ("@),
        Part::Number,
        Part::Fixed("ms):\n"@),
        Part::Chars(sql.len()),
    ];
    let found = seq![
        Found::Number(millis as int),
        Found::Text(sql),
    ];
    crate::reading::whole_text_reads(r2, text, layout, found);
}

/// A reader of the line about a verifying query finds its latency and its number of rows in it.
pub proof fn verify_query_line_reads_back(millis: nat, rows: nat)
    ensures
        reads_as(
            verify_query_text(millis, rows),
            seq![
                Part::Fixed("[Verify Query] Latency: "@),
                Part::Number,
                Part::Fixed("ms | Rows: "@),
                Part::Number,
                Part::Fixed(" | Index: primary"@),
            ],
            seq![
                Found::Number(millis as int),
                Found::Number(rows as int),
            ],
        ),
{
    reveal_strlit(" | Index: primary");
    reveal_strlit("ms | Rows: ");
    let r0 = Reading::start("[Verify Query] Latency: "@);
    crate::reading::start_holds("[Verify Query] Latency: "@);
    crate::reading::number_holds(r0, millis, "ms | Rows: "@);
    let r1 = r0.number(millis, "ms | Rows: "@);
    crate::reading::number_holds(r1, rows, " | Index: primary"@);
    let r2 = r1.number(rows, " | Index: primary"@);
    let text = verify_query_text(millis, rows);
    let layout = seq![
        Part::Fixed("[Verify Query] Latency: "@),
        Part::Number,
        Part::Fixed("ms | Rows: "@),
        Part::Number,
        Part::Fixed(" | Index: primary"@),
    ];
    let found = seq![
        Found::Number(millis as int),
        Found::Number(rows as int),
    ];
    crate::reading::whole_text_reads(r2, text, layout, found);
}

/// A reader of the line about different numbers of rows finds the label and both numbers in it, the
/// target's first.
pub proof fn row_count_line_reads_back(label: Seq<char>, target: nat, verify: nat)
    ensures
        reads_as(
            row_count_text(label, target, verify),
            seq![
                Part::Fixed("❌ Verify Failed for ["@),
                Part::Chars(label.len()),
                Part::Fixed("]: Target Rows "@),
                Part::Number,
                Part::Fixed(", Verify Rows "@),
                Part::Number,
            ],
            seq![
                Found::Text(label),
                Found::Number(target as int),
                Found::Number(verify as int),
            ],
        ),
{
    reveal_strlit(", Verify Rows ");
    let r0 = Reading::start("❌ Verify Failed for ["@);
    crate::reading::start_holds("❌ Verify Failed for ["@);
    crate::reading::chars_hold(r0, label);
    let r1 = r0.chars(label);
    crate::reading::fixed_holds(r1, "]: Target Rows "@);
    let r2 = r1.fixed("]: Target Rows "@);
    crate::reading::number_holds(r2, target, ", Verify Rows "@);
    let r3 = r2.number(target, ", Verify Rows "@);
    let text = row_count_text(label, target, verify);
    let layout = seq![
        Part::Fixed("❌ Verify Failed for ["@),
        Part::Chars(label.len()),
        Part::Fixed("]: Target Rows "@),
        Part::Number,
        Part::Fixed(", Verify Rows "@),
        Part::Number,
    ];
    let found = seq![
        Found::Text(label),
        Found::Number(target as int),
        Found::Number(verify as int),
    ];
    crate::reading::last_number_reads(r3, verify, text, layout, found);
}

/// A reader of the line about different rows finds the label and the number of rows in it.
pub proof fn content_line_reads_back(label: Seq<char>, rows: nat)
    ensures
        reads_as(
            content_text(label, rows),
            seq![
                Part::Fixed("❌ Verify Failed for ["@),
                Part::Chars(label.len()),
                Part::Fixed("]: Content Mismatch (Row count matches: "@),
                Part::Number,
                Part::Fixed(")"@),
            ],
            seq![
                Found::Text(label),
                Found::Number(rows as int),
            ],
        ),
{
    reveal_strlit(")");
    let r0 = Reading::start("❌ Verify Failed for ["@);
    crate::reading::start_holds("❌ Verify Failed for ["@);
    crate::reading::chars_hold(r0, label);
    let r1 = r0.chars(label);
    crate::reading::fixed_holds(r1, "]: Content Mismatch (Row count matches: "@);
    let r2 = r1.fixed("]: Content Mismatch (Row count matches: "@);
    crate::reading::number_holds(r2, rows, ")"@);
    let r3 = r2.number(rows, ")"@);
    let text = content_text(label, rows);
    let layout = seq![
        Part::Fixed("❌ Verify Failed for ["@),
        Part::Chars(label.len()),
        Part::Fixed("]: Content Mismatch (Row count matches: "@),
        Part::Number,
        Part::Fixed(")"@),
    ];
    let found = seq![
        Found::Text(label),
        Found::Number(rows as int),
    ];
    crate::reading::whole_text_reads(r3, text, layout, found);
}

/// A reader of the line about the same answers finds the number of rows in it.
pub proof fn passed_line_reads_back(rows: nat)
    ensures
        reads_as(
            passed_text(rows),
            seq![
                Part::Fixed("✅ Verify Passed: Rows match ("@),
                Part::Number,
                Part::Fixed("), Content match"@),
            ],
            seq![
                Found::Number(rows as int),
            ],
        ),
{
    reveal_strlit("), Content match");
    let r0 = Reading::start("✅ Verify Passed: Rows match ("@);
    crate::reading::start_holds("✅ Verify Passed: Rows match ("@);
    crate::reading::number_holds(r0, rows, "), Content match"@);
    let r1 = r0.number(rows, "), Content match"@);
    let text = passed_text(rows);
    let layout = seq![
        Part::Fixed("✅ Verify Passed: Rows match ("@),
        Part::Number,
        Part::Fixed("), Content match"@),
    ];
    let found = seq![
        Found::Number(rows as int),
    ];
    crate::reading::whole_text_reads(r1, text, layout, found);
}

/// A reader of the line with the target statement finds the index and the whole statement in it.
pub proof fn target_statement_is_shown_whole(index: Seq<char>, sql: Seq<char>)
    ensures
        reads_as(
            target_sql_text(index, sql),
            seq![
                Part::Fixed("Target SQL (using "@),
                Part::Chars(index.len()),
                Part::Fixed(" index):\n"@),
                Part::Chars(sql.len()),
            ],
            seq![
                Found::Text(index),
                Found::Text(sql),
            ],
        ),
{
    let r0 = Reading::start("Target SQL (using "@);
    crate::reading::start_holds("Target SQL (using "@);
    crate::reading::chars_hold(r0, index);
    let r1 = r0.chars(index);
    crate::reading::fixed_holds(r1, " index):\n"@);
    let r2 = r1.fixed(" index):\n"@);
    crate::reading::chars_hold(r2, sql);
    let r3 = r2.chars(sql);
    let text = target_sql_text(index, sql);
    let layout = seq![
        Part::Fixed("Target SQL (using "@),
        Part::Chars(index.len()),
        Part::Fixed(" index):\n"@),
        Part::Chars(sql.len()),
    ];
    let found = seq![
        Found::Text(index),
        Found::Text(sql),
    ];
    crate::reading::whole_text_reads(r3, text, layout, found);
}

/// A reader of the line with the verifying statement finds the whole statement in it.
pub proof fn verifying_statement_is_shown_whole(sql: Seq<char>)
    ensures
        reads_as(
            verify_sql_text(sql),
            seq![
                Part::Fixed("Verify SQL (using primary index):\n"@),
                Part::Chars(sql.len()),
            ],
            seq![
                Found::Text(sql),
            ],
        ),
{
    let r0 = Reading::start("Verify SQL (using primary index):\n"@);
    crate::reading::start_holds("Verify SQL (using primary index):\n"@);
    crate::reading::chars_hold(r0, sql);
    let r1 = r0.chars(sql);
    let text = verify_sql_text(sql);
    let layout = seq![
        Part::Fixed("Verify SQL (using primary index):\n"@),
        Part::Chars(sql.len()),
    ];
    let found = seq![
        Found::Text(sql),
    ];
    crate::reading::whole_text_reads(r1, text, layout, found);
}

/// A verification begins with the line about the verifying query. One that passed has one line
/// more and no problem in it. One that failed has three lines more, all of them problems: what
/// differs, the target statement and the verifying statement.
pub proof fn a_failed_verification_shows_both_statements(
    label: Seq<char>,
    index: Seq<char>,
    target_sql: Seq<char>,
    verify_sql: Seq<char>,
    millis: nat,
    verify_rows: nat,
    outcome: Verification,
)
    ensures
        ({
            let lines = verification_lines(
                label,
                index,
                target_sql,
                verify_sql,
                millis,
                verify_rows,
                outcome,
            );
            &&& lines.len() >= 2
            &&& lines[0] == (false, verify_query_text(millis, verify_rows))
            &&& lines[1].0 <==> !(outcome is Passed)
            &&& outcome matches Verification::Passed { rows } ==> lines.len() == 2 && lines[1].1
                == passed_text(rows as nat)
            &&& outcome matches Verification::RowCountMismatch { target, verify } ==> lines[1].1
                == row_count_text(label, target as nat, verify as nat)
            &&& outcome matches Verification::ContentMismatch { rows } ==> lines[1].1
                == content_text(label, rows as nat)
            &&& !(outcome is Passed) ==> {
                &&& lines.len() == 4
                &&& lines[2] == (true, target_sql_text(index, target_sql))
                &&& lines[3] == (true, verify_sql_text(verify_sql))
            }
        }),
{
}

/// The lines that close a query are its log line alone, or, where that is asked for, the log line
/// and the whole statement. None of them is a problem.
pub proof fn closing_shows_the_statement_on_demand(
    log: Seq<char>,
    verbose: bool,
    target_sql: Seq<char>,
)
    ensures
        closing_lines(log, verbose, target_sql).len() == if verbose {
            2nat
        } else {
            1nat
        },
        closing_lines(log, verbose, target_sql)[0] == (false, log),
        verbose ==> !closing_lines(log, verbose, target_sql)[1].0 && reads_as(
            closing_lines(log, verbose, target_sql)[1].1,
            seq![Part::Fixed("  Full SQL:\n"@), Part::Chars(target_sql.len())],
            seq![Found::Text(target_sql)],
        ),
{
    crate::reading::chars_behind_read("  Full SQL:\n"@, target_sql);
}

/// The lines are shown one by one, each with its own text, and exactly the problems go to standard
/// error.
pub proof fn lines_are_shown_one_by_one(lines: Seq<Line>)
    ensures
        shown(lines).len() == lines.len(),
        forall|i: int|
            0 <= i < lines.len() ==> #[trigger] shown(lines)[i] == match lines[i] {
                Line::Info(text) => (false, text@),
                Line::Problem(text) => (true, text@),
            },
{
}

} // verus!
