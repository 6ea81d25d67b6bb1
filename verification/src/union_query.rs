//! The first query type: swaps of a token by a list of makers, in a window of time and a range
//! of volumes.

use crate::draws::SampleSelection;
use crate::filters::SortOrder;
use crate::quote::{escape_quotes, escaped, quote_list, quoted_list, read_list, read_literal};
use crate::reading::{reads_as, Found, Part, Reading};
use crate::report::{
    closing_lines, closing_report, shown, verification_lines, verification_report, Line,
};
use crate::rows::{compare_rows, verification_of, UnionQueryResult};
use crate::template::{is_piece, unmarked, PLACEHOLDER, PRIMARY_INDEX};
use crate::text::{decimal, push_decimal, replace, replaced, texts};
use crate::timestamp::{date_time_text, is_date_time, TimeWindow};
use crate::union_sql::{
    FIXED_FILTERS0, FIXED_FILTERS1, LIMIT, ORDER_HEIGHT, ORDER_LOG_ID, ORDER_TS, ORDER_TX_ID,
    SELECT_NEW, SELECT_OLD, TS_FROM, TS_TO, VOLUME_FROM, VOLUME_TO, WHERE_TOKEN0, WHERE_TOKEN1,
};
use vstd::prelude::*;

verus! {

/// The name of the query in reports.
pub const LABEL: &'static str = "Union Query";

/// What a query of the first type asks for. The bounds of the volume are written out already.
#[derive(Debug)]
pub struct UnionQuery {
    pub token_address: String,
    pub makers: Vec<String>,
    pub window: TimeWindow,
    pub volume_min: String,
    pub volume_max: String,
    pub order: SortOrder,
}

impl UnionQuery {
    /// The filters of one half of the statement, behind the name of its index.
    pub open spec fn filters(self, column: Seq<char>, fixed: Seq<char>) -> Seq<char> {
        column + escaped(self.token_address@) + fixed + quoted_list(texts(self.makers@)) + TS_FROM@
            + self.window.start.millis_text() + TS_TO@ + self.window.end.millis_text()
            + VOLUME_FROM@ + self.volume_min@ + VOLUME_TO@ + self.volume_max@
    }

    /// The sorting that ends the statement.
    pub open spec fn sorting(self) -> Seq<char> {
        ORDER_TS@ + self.order.keyword() + ORDER_HEIGHT@ + self.order.keyword() + ORDER_TX_ID@
            + self.order.keyword() + ORDER_LOG_ID@ + self.order.keyword() + LIMIT@
    }

    /// What stands between the two names of the index.
    pub open spec fn middle(self) -> Seq<char> {
        self.filters(WHERE_TOKEN0@, FIXED_FILTERS0@) + SELECT_OLD@
    }

    /// What stands behind the second name of the index.
    pub open spec fn tail(self) -> Seq<char> {
        self.filters(WHERE_TOKEN1@, FIXED_FILTERS1@) + self.sorting()
    }

    /// The statement that reads both tables through an index.
    pub open spec fn statement(self, index: Seq<char>) -> Seq<char> {
        SELECT_NEW@ + index + self.middle() + index + self.tail()
    }

    /// Neither the token nor a maker nor a bound holds the placeholder of the index name.
    pub open spec fn is_unmarked(self) -> bool {
        &&& unmarked(self.token_address@)
        &&& forall|i: int| 0 <= i < self.makers@.len() ==> unmarked((#[trigger] self.makers@[i])@)
        &&& unmarked(self.volume_min@)
        &&& unmarked(self.volume_max@)
    }

    /// `sql` is the statement through the index that suits the sorting: the placeholders of the
    /// statement are filled with its name, and where no value holds a placeholder, nothing else
    /// is.
    pub open spec fn is_target(self, sql: Seq<char>) -> bool {
        self.is_filled(sql, self.order.index())
    }

    /// `sql` is the statement through the primary index.
    pub open spec fn is_verifier(self, sql: Seq<char>) -> bool {
        self.is_filled(sql, PRIMARY_INDEX@)
    }

    /// `sql` is the statement with the placeholders filled with the name of an index.
    pub open spec fn is_filled(self, sql: Seq<char>, index: Seq<char>) -> bool {
        &&& sql == replaced(self.statement(PLACEHOLDER@), PLACEHOLDER@, index)
        &&& self.is_unmarked() ==> sql == self.statement(index)
    }

    /// The queries ask for the same.
    pub open spec fn asks_the_same(self, other: UnionQuery) -> bool {
        &&& self.token_address@ == other.token_address@
        &&& texts(self.makers@) == texts(other.makers@)
        &&& self.window == other.window
        &&& self.volume_min@ == other.volume_min@
        &&& self.volume_max@ == other.volume_max@
        &&& self.order == other.order
    }

    /// The line that logs the query.
    pub open spec fn log_text(self, millis: nat, rows: nat) -> Seq<char> {
        "[Union Query] Latency: "@ + decimal(millis) + "ms | Rows: "@ + decimal(rows)
            + " | Token: "@ + self.token_address@ + " | Makers: "@ + decimal(self.makers@.len())
            + " | Platform: 16 | NoAnchor: 0 | TS: "@ + self.window.start.seconds_text() + " to "@
            + self.window.end.seconds_text() + " | Volume: "@ + self.volume_min@ + " to "@
            + self.volume_max@ + " | Sort: "@ + self.order.keyword() + " | Index: "@
            + self.order.index()
    }

    /// The query about what was drawn.
    pub fn new(
        drawn: SampleSelection,
        volume_min: String,
        volume_max: String,
        use_desc: bool,
    ) -> (r: UnionQuery)
        ensures
            r.token_address@ == drawn.sample.token_address@,
            r.makers@ == drawn.makers@,
            r.window == drawn.window,
            r.volume_min@ == volume_min@,
            r.volume_max@ == volume_max@,
            r.order == if use_desc {
                SortOrder::Desc
            } else {
                SortOrder::Asc
            },
    {
        UnionQuery {
            token_address: drawn.sample.token_address.clone(),
            makers: drawn.makers,
            window: drawn.window,
            volume_min,
            volume_max,
            order: SortOrder::from_flag(use_desc),
        }
    }

    /// Appends the filters of one half of the statement.
    fn push_filters(&self, out: &mut String, column: &str, fixed: &str)
        requires
            self.window.valid(),
        ensures
            final(out)@ == old(out)@ + self.filters(column@, fixed@),
            is_date_time(self.window.start.millis_text()),
            is_date_time(self.window.end.millis_text()),
    {
        out.append(column);
        out.append(escape_quotes(self.token_address.as_str()).as_str());
        out.append(fixed);
        out.append(quote_list(&self.makers).as_str());
        out.append(TS_FROM);
        out.append(self.window.start.format_millis().as_str());
        out.append(TS_TO);
        out.append(self.window.end.format_millis().as_str());
        out.append(VOLUME_FROM);
        out.append(self.volume_min.as_str());
        out.append(VOLUME_TO);
        out.append(self.volume_max.as_str());
        assert(out@ =~= old(out)@ + self.filters(column@, fixed@));
    }

    /// Appends the sorting that ends the statement.
    fn push_sorting(&self, out: &mut String)
        ensures
            final(out)@ == old(out)@ + self.sorting(),
    {
        out.append(ORDER_TS);
        out.append(self.order.direction());
        out.append(ORDER_HEIGHT);
        out.append(self.order.direction());
        out.append(ORDER_TX_ID);
        out.append(self.order.direction());
        out.append(ORDER_LOG_ID);
        out.append(self.order.direction());
        out.append(LIMIT);
        assert(out@ =~= old(out)@ + self.sorting());
    }

    /// The statement with a placeholder in each place where the name of the index goes.
    pub fn base_sql(&self) -> (r: String)
        requires
            self.window.valid(),
        ensures
            r@ == self.statement(PLACEHOLDER@),
            is_date_time(self.window.start.millis_text()),
            is_date_time(self.window.end.millis_text()),
    {
        let mut sql = SELECT_NEW.to_owned();
        sql.append(PLACEHOLDER);
        self.push_filters(&mut sql, WHERE_TOKEN0, FIXED_FILTERS0);
        sql.append(SELECT_OLD);
        sql.append(PLACEHOLDER);
        self.push_filters(&mut sql, WHERE_TOKEN1, FIXED_FILTERS1);
        self.push_sorting(&mut sql);
        proof {
            regrouped(
                SELECT_NEW@,
                PLACEHOLDER@,
                self.filters(WHERE_TOKEN0@, FIXED_FILTERS0@),
                SELECT_OLD@,
                self.filters(WHERE_TOKEN1@, FIXED_FILTERS1@),
                self.sorting(),
            );
        }
        sql
    }

    /// The statement with the given name in place of each placeholder. Where no value of the
    /// query holds a placeholder, that is the statement through the index of that name, and
    /// nothing but the two names tells it from the statement through another index.
    fn sql_through(&self, index_name: &str) -> (r: String)
        requires
            self.window.valid(),
        ensures
            self.is_filled(r@, index_name@),
    {
        let base = self.base_sql();
        proof {
            crate::template::placeholder_text();
            if self.is_unmarked() {
                self.pieces_are_unmarked();
                crate::template::both_placeholders_are_filled(
                    SELECT_NEW@,
                    self.middle(),
                    self.tail(),
                    index_name@,
                );
            }
        }
        replace(base.as_str(), PLACEHOLDER, index_name)
    }

    /// The statement through the index that suits the sorting.
    pub fn target_sql(&self) -> (r: String)
        requires
            self.window.valid(),
        ensures
            self.is_target(r@),
            self.order is Desc ==> r@ == replaced(self.statement("{}"@), "{}"@, "idx_desc"@),
            self.order is Asc ==> r@ == replaced(self.statement("{}"@), "{}"@, "idx_asc"@),
            self.is_unmarked() && self.order is Desc ==> r@ == self.statement("idx_desc"@),
            self.is_unmarked() && self.order is Asc ==> r@ == self.statement("idx_asc"@),
    {
        self.sql_through(self.order.index_name())
    }

    /// The statement through the primary index, where verification is asked for.
    pub fn verify_sql(&self, verify: bool) -> (r: Option<String>)
        requires
            self.window.valid(),
        ensures
            r is Some <==> verify,
            r matches Some(sql) ==> self.is_verifier(sql@),
            r matches Some(sql) ==> sql@ == replaced(self.statement("{}"@), "{}"@, "primary"@),
            r matches Some(sql) ==> self.is_unmarked() ==> sql@ == self.statement("primary"@),
    {
        if verify {
            Some(self.sql_through(PRIMARY_INDEX))
        } else {
            None
        }
    }

    /// The line that logs the query.
    pub fn log_line(&self, millis: u128, rows: usize) -> (r: String)
        requires
            self.window.valid(),
        ensures
            r@ == self.log_text(millis as nat, rows as nat),
    {
        let mut text = "[Union Query] Latency: ".to_owned();
        push_decimal(&mut text, millis);
        text.append("ms | Rows: ");
        push_decimal(&mut text, rows as u128);
        text.append(" | Token: ");
        text.append(self.token_address.as_str());
        text.append(" | Makers: ");
        push_decimal(&mut text, self.makers.len() as u128);
        text.append(" | Platform: 16 | NoAnchor: 0 | TS: ");
        text.append(self.window.start.format_seconds().as_str());
        text.append(" to ");
        text.append(self.window.end.format_seconds().as_str());
        text.append(" | Volume: ");
        text.append(self.volume_min.as_str());
        text.append(" to ");
        text.append(self.volume_max.as_str());
        text.append(" | Sort: ");
        text.append(self.order.direction());
        text.append(" | Index: ");
        text.append(self.order.index_name());
        text
    }

    /// The lines about the verification of the query's answer by that of the primary index.
    pub fn verification(
        &self,
        target_sql: &str,
        verify_sql: &str,
        millis: u128,
        target_rows: &Vec<UnionQueryResult>,
        verify_rows: &Vec<UnionQueryResult>,
    ) -> (r: Vec<Line>)
        ensures
            shown(r@) == verification_lines(
                LABEL@,
                self.order.index(),
                target_sql@,
                verify_sql@,
                millis as nat,
                verify_rows@.len(),
                verification_of(target_rows@, verify_rows@),
            ),
    {
        let outcome = compare_rows(target_rows, verify_rows);
        verification_report(
            LABEL,
            self.order.index_name(),
            target_sql,
            verify_sql,
            millis,
            verify_rows.len(),
            outcome,
        )
    }

    /// The lines that close the query: its log line, and its statement where that is asked for.
    pub fn closing(&self, millis: u128, rows: usize, verbose: bool, target_sql: &str) -> (r: Vec<
        Line,
    >)
        requires
            self.window.valid(),
        ensures
            shown(r@) == closing_lines(
                self.log_text(millis as nat, rows as nat),
                verbose,
                target_sql@,
            ),
    {
        closing_report(self.log_line(millis, rows), verbose, target_sql)
    }

    /// A reader of one half's filters finds the query's own token in the literal behind `column`
    /// and the query's own makers in the list behind `fixed`.
    pub open spec fn is_readable(self, column: Seq<char>, fixed: Seq<char>) -> bool {
        let token = column.len() as int;
        let list = (column + escaped(self.token_address@) + fixed).len() as int;
        &&& read_literal(self.filters(column, fixed).skip(token)) matches Some((value, _))
            && value == self.token_address@
        &&& read_list(self.filters(column, fixed).skip(list), self.makers@.len()) matches Some(
            (values, _),
        ) && values == texts(self.makers@)
    }

    /// A reader of the statement finds the query's own token and makers in both halves, whatever
    /// characters they hold.
    pub proof fn values_survive_in_the_filters(self)
        ensures
            self.is_readable(WHERE_TOKEN0@, FIXED_FILTERS0@),
            self.is_readable(WHERE_TOKEN1@, FIXED_FILTERS1@),
    {
        reveal_strlit("' 
            AND platform = 16 
            AND no_anchor = 0 
            AND type = 0 
            AND maker IN (");
        reveal_strlit("' 
            AND platform = 16 
            AND no_anchor = 0 
            AND type = 1 
            AND maker IN (");
        self.values_survive_in(WHERE_TOKEN0@, FIXED_FILTERS0@);
        self.values_survive_in(WHERE_TOKEN1@, FIXED_FILTERS1@);
    }

    proof fn values_survive_in(self, column: Seq<char>, fixed: Seq<char>)
        requires
            fixed.len() >= 2,
            fixed[0] == '\'',
            fixed[1] != '\'',
        ensures
            self.is_readable(column, fixed),
    {
        reveal_strlit(") 
            AND ts >= '");
        let token = escaped(self.token_address@);
        let list = quoted_list(texts(self.makers@));
        let behind = TS_FROM@ + self.window.start.millis_text() + TS_TO@
            + self.window.end.millis_text() + VOLUME_FROM@ + self.volume_min@ + VOLUME_TO@
            + self.volume_max@;
        let rest = fixed.skip(1) + list + behind;
        assert(self.filters(column, fixed).skip(column.len() as int) =~= token + seq!['\''] + rest);
        crate::quote::body_reads_back(self.token_address@, rest);
        assert(self.filters(column, fixed).skip((column + token + fixed).len() as int) =~= list
            + behind);
        assert(behind[0] == TS_FROM@[0]);
        crate::quote::quoted_list_reads_back(texts(self.makers@), behind);
    }

    proof fn filters_are_unmarked(self, column: Seq<char>, fixed: Seq<char>)
        requires
            self.is_unmarked(),
            is_piece(column),
            is_piece(fixed),
            is_date_time(self.window.start.millis_text()),
            is_date_time(self.window.end.millis_text()),
        ensures
            unmarked(self.filters(column, fixed)),
    {
        crate::union_sql::pieces_hold_no_braces();
        let token = escaped(self.token_address@);
        let makers = quoted_list(texts(self.makers@));
        let start = self.window.start.millis_text();
        let end = self.window.end.millis_text();
        crate::template::unmarked_escaped(self.token_address@);
        assert forall|i: int| 0 <= i < texts(self.makers@).len() implies unmarked(
            #[trigger] texts(self.makers@)[i],
        ) by {
            assert(unmarked(self.makers@[i]@));
        }
        crate::template::unmarked_quoted_list(texts(self.makers@));
        crate::template::date_time_is_unmarked(start);
        crate::template::date_time_is_unmarked(end);
        let none = Seq::<char>::empty();
        crate::template::brace_free_is_unmarked(none);
        crate::template::unmarked_piece(none, column, token);
        assert(none + column + token =~= column + token);
        let a = column + token;
        crate::template::unmarked_piece(a, fixed, makers);
        let b = a + fixed + makers;
        crate::template::unmarked_piece(b, TS_FROM@, start);
        let c = b + TS_FROM@ + start;
        crate::template::unmarked_piece(c, TS_TO@, end);
        let d = c + TS_TO@ + end;
        crate::template::unmarked_piece(d, VOLUME_FROM@, self.volume_min@);
        let e = d + VOLUME_FROM@ + self.volume_min@;
        crate::template::unmarked_piece(e, VOLUME_TO@, self.volume_max@);
    }

    proof fn pieces_are_unmarked(self)
        requires
            self.is_unmarked(),
            is_date_time(self.window.start.millis_text()),
            is_date_time(self.window.end.millis_text()),
        ensures
            unmarked(SELECT_NEW@),
            unmarked(self.middle()),
            unmarked(self.tail()),
            SELECT_NEW@.len() > 0 && SELECT_NEW@.last() != '{',
            self.middle().len() > 0 && self.middle().last() != '{',
    {
        crate::union_sql::pieces_hold_no_braces();
        crate::template::brace_free_is_unmarked(SELECT_NEW@);
        self.filters_are_unmarked(WHERE_TOKEN0@, FIXED_FILTERS0@);
        self.filters_are_unmarked(WHERE_TOKEN1@, FIXED_FILTERS1@);
        let first = self.filters(WHERE_TOKEN0@, FIXED_FILTERS0@);
        crate::template::brace_free_is_unmarked(SELECT_OLD@);
        crate::template::unmarked_sum(first, SELECT_OLD@);
        assert(self.middle().last() == SELECT_OLD@.last());
        let second = self.filters(WHERE_TOKEN1@, FIXED_FILTERS1@);
        reveal_strlit("ASC");
        reveal_strlit("DESC");
        crate::template::brace_free_is_unmarked(self.sorting());
        crate::template::unmarked_sum(second, self.sorting());
    }
}

/// Verification does not change a query. Two queries that ask for the same have the same target
/// statement and the same log line, whether or not one of them is verified. The statement that
/// verifies it is made of the same pieces as the target statement, with the primary index named
/// in both places, where no value holds a placeholder.
pub proof fn verification_changes_the_index_alone(
    plain: UnionQuery,
    plain_target: Seq<char>,
    verified: UnionQuery,
    verified_target: Seq<char>,
    verifier: Seq<char>,
    millis: nat,
    rows: nat,
)
    requires
        plain.asks_the_same(verified),
        plain.is_target(plain_target),
        verified.is_target(verified_target),
        verified.is_verifier(verifier),
    ensures
        plain_target == verified_target,
        plain.log_text(millis, rows) == verified.log_text(millis, rows),
        plain.is_unmarked() ==> plain_target == SELECT_NEW@ + plain.order.index()
            + plain.middle() + plain.order.index() + plain.tail(),
        plain.is_unmarked() ==> verifier == SELECT_NEW@ + PRIMARY_INDEX@ + plain.middle()
            + PRIMARY_INDEX@ + plain.tail(),
{
    assert(plain.makers@.len() == texts(plain.makers@).len());
    assert(verified.makers@.len() == texts(verified.makers@).len());
    if plain.is_unmarked() {
        assert forall|i: int| 0 <= i < verified.makers@.len() implies unmarked(
            (#[trigger] verified.makers@[i])@,
        ) by {
            assert(unmarked(plain.makers@[i]@));
            assert(texts(plain.makers@)[i] == texts(verified.makers@)[i]);
        }
    }
}

proof fn regrouped(
    head: Seq<char>,
    index: Seq<char>,
    first: Seq<char>,
    select: Seq<char>,
    second: Seq<char>,
    sorting: Seq<char>,
)
    ensures
        head + index + first + select + index + second + sorting == head + index + (first + select)
            + index + (second + sorting),
{
    assert(head + index + first + select + index + second + sorting =~= head + index + (first
        + select) + index + (second + sorting));
}

impl UnionQuery {
    /// A reading followed by the sorting that ends the statement.
    spec fn read_sorting(self, r: Reading) -> Reading {
        let way = self.order.keyword();
        r.fixed(ORDER_TS@).chars(way).fixed(ORDER_HEIGHT@).chars(way).fixed(ORDER_TX_ID@).chars(
            way,
        ).fixed(ORDER_LOG_ID@).chars(way).fixed(LIMIT@)
    }

    proof fn sorting_is_read(self, r: Reading)
        requires
            r.holds(),
        ensures
            self.read_sorting(r).holds(),
            self.read_sorting(r).text == r.text + self.sorting(),
    {
        let way = self.order.keyword();
        let a = r.fixed(ORDER_TS@);
        crate::reading::fixed_holds(r, ORDER_TS@);
        let b = a.chars(way);
        crate::reading::chars_hold(a, way);
        let c = b.fixed(ORDER_HEIGHT@);
        crate::reading::fixed_holds(b, ORDER_HEIGHT@);
        let d = c.chars(way);
        crate::reading::chars_hold(c, way);
        let e = d.fixed(ORDER_TX_ID@);
        crate::reading::fixed_holds(d, ORDER_TX_ID@);
        let f = e.chars(way);
        crate::reading::chars_hold(e, way);
        let g = f.fixed(ORDER_LOG_ID@);
        crate::reading::fixed_holds(f, ORDER_LOG_ID@);
        let h = g.chars(way);
        crate::reading::chars_hold(g, way);
        crate::reading::fixed_holds(h, LIMIT@);
        assert(self.read_sorting(r).text =~= r.text + self.sorting());
    }

    /// A reading of the statement through an index.
    spec fn reading(self, index: Seq<char>) -> Reading {
        let head = Reading::start(SELECT_NEW@).chars(index);
        let half = self.read_on(head, WHERE_TOKEN0@, FIXED_FILTERS0@).fixed(SELECT_OLD@).chars(
            index,
        );
        self.read_sorting(self.read_on(half, WHERE_TOKEN1@, FIXED_FILTERS1@))
    }

    #[verifier::spinoff_prover]
    proof fn statement_is_read(self, index: Seq<char>)
        ensures
            self.reading(index).holds(),
            self.reading(index).text == self.statement(index),
    {
        reveal_strlit("' 
            AND platform = 16 
            AND no_anchor = 0 
            AND type = 0 
            AND maker IN (");
        reveal_strlit("' 
            AND platform = 16 
            AND no_anchor = 0 
            AND type = 1 
            AND maker IN (");
        let a = Reading::start(SELECT_NEW@);
        crate::reading::start_holds(SELECT_NEW@);
        let b = a.chars(index);
        crate::reading::chars_hold(a, index);
        let c = self.read_on(b, WHERE_TOKEN0@, FIXED_FILTERS0@);
        self.filters_are_read(b, WHERE_TOKEN0@, FIXED_FILTERS0@);
        let d = c.fixed(SELECT_OLD@);
        crate::reading::fixed_holds(c, SELECT_OLD@);
        let e = d.chars(index);
        crate::reading::chars_hold(d, index);
        let f = self.read_on(e, WHERE_TOKEN1@, FIXED_FILTERS1@);
        self.filters_are_read(e, WHERE_TOKEN1@, FIXED_FILTERS1@);
        self.sorting_is_read(f);
        regrouped(
            SELECT_NEW@,
            index,
            self.filters(WHERE_TOKEN0@, FIXED_FILTERS0@),
            SELECT_OLD@,
            self.filters(WHERE_TOKEN1@, FIXED_FILTERS1@),
            self.sorting(),
        );
    }

    /// A reading followed by the filters of one half of the statement.
    spec fn read_on(self, r: Reading, column: Seq<char>, fixed: Seq<char>) -> Reading {
        r.fixed(column).quoted(self.token_address@, fixed).literals(
            texts(self.makers@),
            TS_FROM@,
        ).chars(self.window.start.millis_text()).fixed(TS_TO@).chars(
            self.window.end.millis_text(),
        ).fixed(VOLUME_FROM@).chars(self.volume_min@).fixed(VOLUME_TO@).chars(self.volume_max@)
    }

    proof fn filters_are_read(self, r: Reading, column: Seq<char>, fixed: Seq<char>)
        requires
            r.holds(),
            fixed.len() >= 2,
            fixed[0] == '\'',
            fixed[1] != '\'',
        ensures
            self.read_on(r, column, fixed).holds(),
            self.read_on(r, column, fixed).text == r.text + self.filters(column, fixed),
    {
        reveal_strlit(") 
            AND ts >= '");
        let makers = texts(self.makers@);
        let start = self.window.start.millis_text();
        let end = self.window.end.millis_text();
        let a = r.fixed(column);
        crate::reading::fixed_holds(r, column);
        let b = a.quoted(self.token_address@, fixed);
        crate::reading::quoted_holds(a, self.token_address@, fixed);
        let c = b.literals(makers, TS_FROM@);
        crate::reading::literals_hold(b, makers, TS_FROM@);
        let d = c.chars(start);
        crate::reading::chars_hold(c, start);
        let e = d.fixed(TS_TO@);
        crate::reading::fixed_holds(d, TS_TO@);
        let f = e.chars(end);
        crate::reading::chars_hold(e, end);
        let g = f.fixed(VOLUME_FROM@);
        crate::reading::fixed_holds(f, VOLUME_FROM@);
        let h = g.chars(self.volume_min@);
        crate::reading::chars_hold(g, self.volume_min@);
        let i = h.fixed(VOLUME_TO@);
        crate::reading::fixed_holds(h, VOLUME_TO@);
        crate::reading::chars_hold(i, self.volume_max@);
        assert(self.read_on(r, column, fixed).text =~= r.text + self.filters(column, fixed));
    }
}

/// A reader of the statement through an index finds in both of its halves the name of the index,
/// the query's own token and makers, both ends of its window and both bounds of the volume, and
/// behind them the direction of the sorting for each of the four columns that it sorts by.
#[verifier::spinoff_prover]
pub proof fn statement_reads_back(query: UnionQuery, index: Seq<char>)
    ensures
        ({
            let makers = texts(query.makers@);
            let start = date_time_text(query.window.start.secs, query.window.start.nanos, "%Y-%m-%d %H:%M:%S%.3f"@);
            let end = date_time_text(query.window.end.secs, query.window.end.nanos, "%Y-%m-%d %H:%M:%S%.3f"@);
            let way = if query.order is Desc {
                "DESC"@
            } else {
                "ASC"@
            };
            reads_as(
                query.statement(index),
                seq![
                    Part::Fixed(SELECT_NEW@),
                    Part::Chars(index.len()),
                    Part::Fixed(WHERE_TOKEN0@),
                    Part::Quoted,
                    Part::Fixed(FIXED_FILTERS0@),
                    Part::Literals(makers.len()),
                    Part::Fixed(TS_FROM@),
                    Part::Chars(start.len()),
                    Part::Fixed(TS_TO@),
                    Part::Chars(end.len()),
                    Part::Fixed(VOLUME_FROM@),
                    Part::Chars(query.volume_min@.len()),
                    Part::Fixed(VOLUME_TO@),
                    Part::Chars(query.volume_max@.len()),
                    Part::Fixed(SELECT_OLD@),
                    Part::Chars(index.len()),
                    Part::Fixed(WHERE_TOKEN1@),
                    Part::Quoted,
                    Part::Fixed(FIXED_FILTERS1@),
                    Part::Literals(makers.len()),
                    Part::Fixed(TS_FROM@),
                    Part::Chars(start.len()),
                    Part::Fixed(TS_TO@),
                    Part::Chars(end.len()),
                    Part::Fixed(VOLUME_FROM@),
                    Part::Chars(query.volume_min@.len()),
                    Part::Fixed(VOLUME_TO@),
                    Part::Chars(query.volume_max@.len()),
                    Part::Fixed(ORDER_TS@),
                    Part::Chars(way.len()),
                    Part::Fixed(ORDER_HEIGHT@),
                    Part::Chars(way.len()),
                    Part::Fixed(ORDER_TX_ID@),
                    Part::Chars(way.len()),
                    Part::Fixed(ORDER_LOG_ID@),
                    Part::Chars(way.len()),
                    Part::Fixed(LIMIT@),
                ],
                seq![
                    Found::Text(index),
                    Found::Text(query.token_address@),
                    Found::Texts(makers),
                    Found::Text(start),
                    Found::Text(end),
                    Found::Text(query.volume_min@),
                    Found::Text(query.volume_max@),
                    Found::Text(index),
                    Found::Text(query.token_address@),
                    Found::Texts(makers),
                    Found::Text(start),
                    Found::Text(end),
                    Found::Text(query.volume_min@),
                    Found::Text(query.volume_max@),
                    Found::Text(way),
                    Found::Text(way),
                    Found::Text(way),
                    Found::Text(way),
                ],
            )
        }),
{
    let makers = texts(query.makers@);
    let start = query.window.start.millis_text();
    let end = query.window.end.millis_text();
    let way = query.order.keyword();
    query.statement_is_read(index);
    crate::reading::whole_text_reads(
        query.reading(index),
        query.statement(index),
        seq![
            Part::Fixed(SELECT_NEW@),
            Part::Chars(index.len()),
            Part::Fixed(WHERE_TOKEN0@),
            Part::Quoted,
            Part::Fixed(FIXED_FILTERS0@),
            Part::Literals(makers.len()),
            Part::Fixed(TS_FROM@),
            Part::Chars(start.len()),
            Part::Fixed(TS_TO@),
            Part::Chars(end.len()),
            Part::Fixed(VOLUME_FROM@),
            Part::Chars(query.volume_min@.len()),
            Part::Fixed(VOLUME_TO@),
            Part::Chars(query.volume_max@.len()),
            Part::Fixed(SELECT_OLD@),
            Part::Chars(index.len()),
            Part::Fixed(WHERE_TOKEN1@),
            Part::Quoted,
            Part::Fixed(FIXED_FILTERS1@),
            Part::Literals(makers.len()),
            Part::Fixed(TS_FROM@),
            Part::Chars(start.len()),
            Part::Fixed(TS_TO@),
            Part::Chars(end.len()),
            Part::Fixed(VOLUME_FROM@),
            Part::Chars(query.volume_min@.len()),
            Part::Fixed(VOLUME_TO@),
            Part::Chars(query.volume_max@.len()),
            Part::Fixed(ORDER_TS@),
            Part::Chars(way.len()),
            Part::Fixed(ORDER_HEIGHT@),
            Part::Chars(way.len()),
            Part::Fixed(ORDER_TX_ID@),
            Part::Chars(way.len()),
            Part::Fixed(ORDER_LOG_ID@),
            Part::Chars(way.len()),
            Part::Fixed(LIMIT@),
        ],
        seq![
            Found::Text(index),
            Found::Text(query.token_address@),
            Found::Texts(makers),
            Found::Text(start),
            Found::Text(end),
            Found::Text(query.volume_min@),
            Found::Text(query.volume_max@),
            Found::Text(index),
            Found::Text(query.token_address@),
            Found::Texts(makers),
            Found::Text(start),
            Found::Text(end),
            Found::Text(query.volume_min@),
            Found::Text(query.volume_max@),
            Found::Text(way),
            Found::Text(way),
            Found::Text(way),
            Found::Text(way),
        ],
    );
}

/// The direction of a sorting, in letters.
pub open spec fn way(order: SortOrder) -> Seq<char> {
    if order is Desc {
        "DESC"@
    } else {
        "ASC"@
    }
}

/// The index that suits a sorting.
pub open spec fn suiting_index(order: SortOrder) -> Seq<char> {
    if order is Desc {
        "idx_desc"@
    } else {
        "idx_asc"@
    }
}

/// A reader of the line that logs a query finds in it the latency, the number of rows, the token, the
/// number of makers, both ends of the window, both bounds of the volume, the direction of the sorting
/// and the index that suits it.
pub proof fn log_line_reads_back(query: UnionQuery, millis: nat, rows: nat)
    ensures
        reads_as(
            query.log_text(millis, rows),
            seq![
                Part::Fixed("[Union Query] Latency: "@),
                Part::Number,
                Part::Fixed("ms | Rows: "@),
                Part::Number,
                Part::Fixed(" | Token: "@),
                Part::Chars(query.token_address@.len()),
                Part::Fixed(" | Makers: "@),
                Part::Number,
                Part::Fixed(" | Platform: 16 | NoAnchor: 0 | TS: "@),
                Part::Chars(date_time_text(query.window.start.secs, query.window.start.nanos, "%Y-%m-%d %H:%M:%S"@).len()),
                Part::Fixed(" to "@),
                Part::Chars(date_time_text(query.window.end.secs, query.window.end.nanos, "%Y-%m-%d %H:%M:%S"@).len()),
                Part::Fixed(" | Volume: "@),
                Part::Chars(query.volume_min@.len()),
                Part::Fixed(" to "@),
                Part::Chars(query.volume_max@.len()),
                Part::Fixed(" | Sort: "@),
                Part::Chars(way(query.order).len()),
                Part::Fixed(" | Index: "@),
                Part::Chars(suiting_index(query.order).len()),
            ],
            seq![
                Found::Number(millis as int),
                Found::Number(rows as int),
                Found::Text(query.token_address@),
                Found::Number(query.makers@.len() as int),
                Found::Text(date_time_text(query.window.start.secs, query.window.start.nanos, "%Y-%m-%d %H:%M:%S"@)),
                Found::Text(date_time_text(query.window.end.secs, query.window.end.nanos, "%Y-%m-%d %H:%M:%S"@)),
                Found::Text(query.volume_min@),
                Found::Text(query.volume_max@),
                Found::Text(way(query.order)),
                Found::Text(suiting_index(query.order)),
            ],
        ),
{
    reveal_strlit(" | Platform: 16 | NoAnchor: 0 | TS: ");
    reveal_strlit(" | Token: ");
    reveal_strlit("ms | Rows: ");
    let r0 = Reading::start("[Union Query] Latency: "@);
    crate::reading::start_holds("[Union Query] Latency: "@);
    crate::reading::number_holds(r0, millis, "ms | Rows: "@);
    let r1 = r0.number(millis, "ms | Rows: "@);
    crate::reading::number_holds(r1, rows, " | Token: "@);
    let r2 = r1.number(rows, " | Token: "@);
    crate::reading::chars_hold(r2, query.token_address@);
    let r3 = r2.chars(query.token_address@);
    crate::reading::fixed_holds(r3, " | Makers: "@);
    let r4 = r3.fixed(" | Makers: "@);
    crate::reading::number_holds(r4, query.makers@.len(), " | Platform: 16 | NoAnchor: 0 | TS: "@);
    let r5 = r4.number(query.makers@.len(), " | Platform: 16 | NoAnchor: 0 | TS: "@);
    crate::reading::chars_hold(r5, date_time_text(query.window.start.secs, query.window.start.nanos, "%Y-%m-%d %H:%M:%S"@));
    let r6 = r5.chars(date_time_text(query.window.start.secs, query.window.start.nanos, "%Y-%m-%d %H:%M:%S"@));
    crate::reading::fixed_holds(r6, " to "@);
    let r7 = r6.fixed(" to "@);
    crate::reading::chars_hold(r7, date_time_text(query.window.end.secs, query.window.end.nanos, "%Y-%m-%d %H:%M:%S"@));
    let r8 = r7.chars(date_time_text(query.window.end.secs, query.window.end.nanos, "%Y-%m-%d %H:%M:%S"@));
    crate::reading::fixed_holds(r8, " | Volume: "@);
    let r9 = r8.fixed(" | Volume: "@);
    crate::reading::chars_hold(r9, query.volume_min@);
    let r10 = r9.chars(query.volume_min@);
    crate::reading::fixed_holds(r10, " to "@);
    let r11 = r10.fixed(" to "@);
    crate::reading::chars_hold(r11, query.volume_max@);
    let r12 = r11.chars(query.volume_max@);
    crate::reading::fixed_holds(r12, " | Sort: "@);
    let r13 = r12.fixed(" | Sort: "@);
    crate::reading::chars_hold(r13, way(query.order));
    let r14 = r13.chars(way(query.order));
    crate::reading::fixed_holds(r14, " | Index: "@);
    let r15 = r14.fixed(" | Index: "@);
    crate::reading::chars_hold(r15, suiting_index(query.order));
    let r16 = r15.chars(suiting_index(query.order));
    let text = query.log_text(millis, rows);
    let layout = seq![
        Part::Fixed("[Union Query] Latency: "@),
        Part::Number,
        Part::Fixed("ms | Rows: "@),
        Part::Number,
        Part::Fixed(" | Token: "@),
        Part::Chars(query.token_address@.len()),
        Part::Fixed(" | Makers: "@),
        Part::Number,
        Part::Fixed(" | Platform: 16 | NoAnchor: 0 | TS: "@),
        Part::Chars(date_time_text(query.window.start.secs, query.window.start.nanos, "%Y-%m-%d %H:%M:%S"@).len()),
        Part::Fixed(" to "@),
        Part::Chars(date_time_text(query.window.end.secs, query.window.end.nanos, "%Y-%m-%d %H:%M:%S"@).len()),
        Part::Fixed(" | Volume: "@),
        Part::Chars(query.volume_min@.len()),
        Part::Fixed(" to "@),
        Part::Chars(query.volume_max@.len()),
        Part::Fixed(" | Sort: "@),
        Part::Chars(way(query.order).len()),
        Part::Fixed(" | Index: "@),
        Part::Chars(suiting_index(query.order).len()),
    ];
    let found = seq![
        Found::Number(millis as int),
        Found::Number(rows as int),
        Found::Text(query.token_address@),
        Found::Number(query.makers@.len() as int),
        Found::Text(date_time_text(query.window.start.secs, query.window.start.nanos, "%Y-%m-%d %H:%M:%S"@)),
        Found::Text(date_time_text(query.window.end.secs, query.window.end.nanos, "%Y-%m-%d %H:%M:%S"@)),
        Found::Text(query.volume_min@),
        Found::Text(query.volume_max@),
        Found::Text(way(query.order)),
        Found::Text(suiting_index(query.order)),
    ];
    crate::reading::whole_text_reads(r16, text, layout, found);
}

} // verus!
