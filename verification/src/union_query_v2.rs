//! The second and later query types: swaps of a token in a window of time, filtered by a maker,
//! a least volume and a cursor as the query type asks for them.

use crate::cursor::{cursor_fits, generate_cursor_condition, is_cursor_condition, is_inert};
use crate::draws::{
    is_drawn_maker, maker_text, pick_single_maker, single_maker_of, SampleWindow,
};
use crate::filters::{
    cursor_direction, cursor_operator, cursor_side, needs_volume, operator_of, order_of,
    sort_order, wants_maker, wants_volume,
};
use crate::quote::{escape_quotes, escaped, read_literal};
use crate::reading::{reads_as, Found, Part, Reading};
use crate::report::{
    closing_lines, closing_report, shown, verification_lines, verification_report, Line,
};
use crate::rows::{compare_rows, verification_of, UnionQueryResultWithPosition};
use crate::sample::{named_maker, TokenSample};
use crate::template::{
    is_piece, names_other_columns, unmarked, PLACEHOLDER, PRIMARY_INDEX, TOKEN0_COLUMN,
    TOKEN1_COLUMN,
};
use crate::text::{decimal, join, joined, occurs, push_decimal, replace, replaced, texts};
use crate::timestamp::{date_time_text, is_date_time, TimeWindow};
use crate::union_sql_v2::{
    AND, LIMIT, ORDER_HEIGHT, ORDER_LOG_ID, ORDER_TS, ORDER_TX_ID, SELECT_NEW, SELECT_OLD,
    WHERE_CONDITIONS,
};
use rand::rngs::StdRng;
use vstd::prelude::*;

verus! {

/// What a query of the second or a later type asks for. The least volume is written out already.
#[derive(Debug)]
pub struct UnionQueryV2 {
    pub query_type: u8,
    pub token_address: String,
    pub window: TimeWindow,
    pub maker: Option<String>,
    pub volume_min: String,
    pub cursor: Option<String>,
}

/// The condition that an optional filter adds.
pub open spec fn at_will(wanted: bool, condition: Seq<char>) -> Seq<Seq<char>> {
    if wanted {
        seq![condition]
    } else {
        Seq::empty()
    }
}

/// The condition on the token in a column.
pub open spec fn token_condition(column: Seq<char>, token: Seq<char>) -> Seq<char> {
    column + " = '"@ + escaped(token) + "'"@
}

impl UnionQueryV2 {
    /// The condition on the maker.
    pub open spec fn maker_condition(self) -> Seq<char> {
        "`maker` = '"@ + escaped(self.maker->0@) + "'"@
    }

    /// The condition on the volume.
    pub open spec fn volume_condition(self) -> Seq<char> {
        "`volume` >= "@ + self.volume_min@
    }

    /// The condition on the cursor.
    pub open spec fn cursor_condition(self) -> Seq<char> {
        "(`ts`, `height`, `tx_id`, `log_id`) "@ + operator_of(self.query_type) + " "@
            + self.cursor->0@
    }

    /// The conditions on the swaps whose token stands in the given column.
    pub open spec fn conditions(self, column: Seq<char>) -> Seq<Seq<char>> {
        seq![
            token_condition(column, self.token_address@),
            "`platform` = 16"@,
            "`no_anchor` = false"@,
            "`ts` >= '"@ + self.window.start.millis_text() + "'"@,
            "`ts` <= '"@ + self.window.end.millis_text() + "'"@,
        ] + at_will(self.maker is Some, self.maker_condition()) + at_will(
            wants_volume(self.query_type),
            self.volume_condition(),
        ) + at_will(self.cursor is Some, self.cursor_condition())
    }

    /// The conditions of the second half: those of the first with the column exchanged.
    pub open spec fn exchanged_conditions(self) -> Seq<Seq<char>> {
        exchanged(self.conditions(TOKEN0_COLUMN@))
    }

    /// The sorting that ends the statement.
    pub open spec fn sorting(self) -> Seq<char> {
        let way = order_of(self.query_type).keyword();
        ORDER_TS@ + way + ORDER_HEIGHT@ + way + ORDER_TX_ID@ + way + ORDER_LOG_ID@ + way + LIMIT@
    }

    /// What stands between the two names of the index.
    pub open spec fn middle(self) -> Seq<char> {
        WHERE_CONDITIONS@ + joined(self.conditions(TOKEN0_COLUMN@), AND@) + SELECT_OLD@
    }

    /// What stands behind the second name of the index.
    pub open spec fn tail(self) -> Seq<char> {
        WHERE_CONDITIONS@ + joined(self.exchanged_conditions(), AND@) + self.sorting()
    }

    /// The statement that reads both tables through an index.
    pub open spec fn statement(self, index: Seq<char>) -> Seq<char> {
        SELECT_NEW@ + index + self.middle() + index + self.tail()
    }

    /// No value that the statement uses holds the placeholder of the index name.
    pub open spec fn is_unmarked(self) -> bool {
        &&& unmarked(self.token_address@)
        &&& (self.maker matches Some(m) ==> unmarked(m@))
        &&& (wants_volume(self.query_type) ==> unmarked(self.volume_min@))
        &&& (self.cursor matches Some(c) ==> unmarked(c@))
    }

    /// No value that the conditions use holds the column of the first token.
    pub open spec fn is_column_free(self) -> bool {
        &&& !occurs(TOKEN0_COLUMN@, self.token_address@)
        &&& (self.maker matches Some(m) ==> !occurs(TOKEN0_COLUMN@, m@))
        &&& (wants_volume(self.query_type) ==> !occurs(TOKEN0_COLUMN@, self.volume_min@))
        &&& (self.cursor matches Some(c) ==> !occurs(TOKEN0_COLUMN@, c@))
    }

    /// What the log says of the maker.
    pub open spec fn maker_info(self) -> Seq<char> {
        match self.maker {
            Some(m) => "Maker: "@ + m@,
            None => "No maker filter"@,
        }
    }

    /// What the log says of the volume.
    pub open spec fn volume_info(self) -> Seq<char> {
        if wants_volume(self.query_type) {
            "Volume >= "@ + self.volume_min@
        } else {
            "No volume filter"@
        }
    }

    /// What the log says of the cursor.
    pub open spec fn cursor_info(self) -> Seq<char> {
        match self.cursor {
            Some(c) => "Cursor: "@ + c@,
            None => "No cursor"@,
        }
    }

    /// The name of the query in reports.
    pub open spec fn label_text(self) -> Seq<char> {
        "Union Query "@ + decimal(self.query_type as nat)
    }

    /// `sql` is the statement through the index that suits the sorting: the placeholders of the
    /// statement are filled with its name, and where no value holds a placeholder, nothing else
    /// is.
    pub open spec fn is_target(self, sql: Seq<char>) -> bool {
        self.is_filled(sql, order_of(self.query_type).index())
    }

    /// `sql` is the statement through the primary index.
    pub open spec fn is_verifier(self, sql: Seq<char>) -> bool {
        self.is_filled(sql, PRIMARY_INDEX@)
    }

    /// `sql` is the statement with the placeholders filled with the name of an index.
    pub open spec fn is_filled(self, sql: Seq<char>, index: Seq<char>) -> bool {
        &&& sql == replaced(self.statement(PLACEHOLDER@), PLACEHOLDER@, index)
        &&& self.is_unmarked() ==> sql == self.statement(index)
    }

    /// The queries ask for the same.
    pub open spec fn asks_the_same(self, other: UnionQueryV2) -> bool {
        &&& self.query_type == other.query_type
        &&& self.token_address@ == other.token_address@
        &&& self.window == other.window
        &&& maker_text(self.maker) == maker_text(other.maker)
        &&& self.volume_min@ == other.volume_min@
        &&& maker_text(self.cursor) == maker_text(other.cursor)
    }

    /// The line that logs the query.
    pub open spec fn log_text(self, millis: nat, rows: nat) -> Seq<char> {
        "["@ + self.label_text() + "] Latency: "@ + decimal(millis) + "ms | Rows: "@ + decimal(rows)
            + " | Token: "@ + self.token_address@ + " | Platform: 16 | NoAnchor: 0 | TS: "@
            + self.window.start.seconds_text() + " to "@ + self.window.end.seconds_text() + " | "@
            + self.maker_info() + " | "@ + self.volume_info() + " | "@ + self.cursor_info()
            + " | Sort: "@ + order_of(self.query_type).keyword() + " | Index: "@ + order_of(
            self.query_type,
        ).index()
    }
}

// ---------------------------------------------------------------------------
// Planning
// ---------------------------------------------------------------------------

impl UnionQueryV2 {
    /// The query has the filters of its type: a cursor exactly where the type has one, on the
    /// type's side of the sample, and the maker that the type asks for.
    pub open spec fn is_plan(
        self,
        query_type: u8,
        sample: TokenSample,
        pool: Seq<String>,
        window: TimeWindow,
        volume_min: Seq<char>,
    ) -> bool {
        &&& self.query_type == query_type
        &&& self.token_address@ == sample.token_address@
        &&& self.window == window
        &&& self.volume_min@ == volume_min
        &&& exists|drawn: Option<Seq<char>>| #[trigger]
            is_drawn_maker(drawn, pool) && maker_text(self.maker) == single_maker_of(
                query_type,
                named_maker(sample.maker),
                drawn,
            )
        &&& match cursor_side(query_type) {
            Some(backwards) => self.cursor is Some && is_cursor_condition(
                self.cursor->0@,
                sample,
                backwards,
            ) && is_inert(self.cursor->0@),
            None => self.cursor is None,
        }
    }

    /// Draws what the query type asks for beside the window: a maker and a cursor.
    pub fn draw(
        query_type: u8,
        drawn: SampleWindow,
        pool: &Vec<String>,
        volume_min: String,
        rng: &mut StdRng,
    ) -> (r: UnionQueryV2)
        requires
            cursor_side(query_type) matches Some(backwards) ==> cursor_fits(
                *drawn.sample,
                backwards,
            ),
        ensures
            r.is_plan(query_type, *drawn.sample, pool@, drawn.window, volume_min@),
            r.query_type == query_type,
            r.token_address@ == drawn.sample.token_address@,
            r.window == drawn.window,
            r.volume_min@ == volume_min@,
            r.cursor is Some <==> query_type == 3 || query_type == 5 || query_type == 6
                || query_type == 9 || query_type == 10,
            r.cursor is Some ==> is_cursor_condition(
                r.cursor->0@,
                *drawn.sample,
                query_type != 5,
            ),
            r.maker is Some ==> query_type == 4 || query_type == 6 || query_type == 10,
            (query_type == 4 || query_type == 6 || query_type == 10) && drawn.sample.maker is Some
                && drawn.sample.maker->0@.len() > 0 ==> r.maker is Some && r.maker->0@
                == drawn.sample.maker->0@,
            (query_type == 4 || query_type == 6 || query_type == 10) && (drawn.sample.maker is None
                || drawn.sample.maker->0@.len() == 0) ==> (r.maker is Some <==> pool@.len() > 0)
                && (r.maker is Some ==> texts(pool@).contains(r.maker->0@)),
    {
        let token_sample = drawn.sample;
        let maker = pick_single_maker(query_type, token_sample, pool, rng);
        let cursor: Option<String> = match cursor_direction(query_type) {
            Some(use_less_than) => Some(
                generate_cursor_condition(token_sample, rng, use_less_than),
            ),
            None => None,
        };
        UnionQueryV2 {
            query_type,
            token_address: token_sample.token_address.clone(),
            window: drawn.window,
            maker,
            volume_min,
            cursor,
        }
    }
}

/// A planned query has the filters of its type and no others: a maker only where the type asks
/// for one, and always where one can be had; a cursor exactly where the type has one.
pub proof fn planned_filters_follow_the_type(
    query: UnionQueryV2,
    query_type: u8,
    sample: TokenSample,
    pool: Seq<String>,
    window: TimeWindow,
    volume_min: Seq<char>,
)
    requires
        query.is_plan(query_type, sample, pool, window, volume_min),
    ensures
        query.maker is Some <==> wants_maker(query_type) && (named_maker(sample.maker) is Some
            || pool.len() > 0),
        query.cursor is Some <==> cursor_side(query_type) is Some,
        query.conditions(TOKEN0_COLUMN@).len() == 5 + at_will(
            query.maker is Some,
            query.maker_condition(),
        ).len() + at_will(wants_volume(query_type), query.volume_condition()).len() + at_will(
            cursor_side(query_type) is Some,
            query.cursor_condition(),
        ).len(),
{
}

/// The cursor of a planned query holds neither mark, so only the token, the maker and the least
/// volume can.
pub proof fn planned_cursor_holds_no_mark(
    query: UnionQueryV2,
    query_type: u8,
    sample: TokenSample,
    pool: Seq<String>,
    window: TimeWindow,
    volume_min: Seq<char>,
)
    requires
        query.is_plan(query_type, sample, pool, window, volume_min),
        query.cursor is Some,
    ensures
        unmarked(query.cursor->0@),
        !occurs(TOKEN0_COLUMN@, query.cursor->0@),
{
    let s = query.cursor->0@;
    crate::template::brace_free_is_unmarked(s);
    column_text();
    let c = TOKEN0_COLUMN@;
    assert forall|i: int| 0 <= i && i + c.len() <= s.len() implies #[trigger] s.subrange(
        i,
        i + c.len(),
    ) != c by {
        assert(s.subrange(i, i + c.len())[0] == s[i]);
    }
}

// ---------------------------------------------------------------------------
// Conditions
// ---------------------------------------------------------------------------

/// The conditions with the column of the second token in place of that of the first.
pub open spec fn exchanged(conditions: Seq<Seq<char>>) -> Seq<Seq<char>> {
    Seq::new(
        conditions.len(),
        |i: int| replaced(conditions[i], TOKEN0_COLUMN@, TOKEN1_COLUMN@),
    )
}

/// The conditions with the column of the second token in place of that of the first.
pub fn exchange_column(conditions: &Vec<String>) -> (r: Vec<String>)
    ensures
        texts(r@) == exchanged(texts(conditions@)),
        r@.len() == conditions@.len(),
        forall|i: int|
            0 <= i < r@.len() ==> #[trigger] r@[i]@ == replaced(
                conditions@[i]@,
                "`token0_address`"@,
                "`token1_address`"@,
            ),
{
    let mut list: Vec<String> = Vec::new();
    let mut i: usize = 0;
    proof {
        column_text();
    }
    while i < conditions.len()
        invariant
            i <= conditions@.len(),
            list@.len() == i,
            TOKEN0_COLUMN@.len() > 0,
            forall|j: int|
                0 <= j < i ==> #[trigger] list@[j]@ == replaced(
                    conditions@[j]@,
                    TOKEN0_COLUMN@,
                    TOKEN1_COLUMN@,
                ),
        decreases conditions@.len() - i,
    {
        list.push(replace(conditions[i].as_str(), TOKEN0_COLUMN, TOKEN1_COLUMN));
        i += 1;
    }
    assert(texts(list@) =~= exchanged(texts(conditions@)));
    list
}

/// A text between two others.
fn wrapped(open: &str, value: &str, close: &str) -> (r: String)
    ensures
        r@ == open@ + value@ + close@,
{
    let mut out = open.to_owned();
    out.append(value);
    out.append(close);
    out
}

impl UnionQueryV2 {
    /// The conditions of the first half.
    pub fn token0_conditions(&self) -> (r: Vec<String>)
        requires
            self.window.valid(),
        ensures
            texts(r@) == self.conditions(TOKEN0_COLUMN@),
            is_date_time(self.window.start.millis_text()),
            is_date_time(self.window.end.millis_text()),
    {
        let mut list: Vec<String> = Vec::new();
        let mut token = TOKEN0_COLUMN.to_owned();
        token.append(" = '");
        token.append(escape_quotes(self.token_address.as_str()).as_str());
        token.append("'");
        list.push(token);
        list.push("`platform` = 16".to_owned());
        list.push("`no_anchor` = false".to_owned());
        list.push(wrapped("`ts` >= '", self.window.start.format_millis().as_str(), "'"));
        list.push(wrapped("`ts` <= '", self.window.end.format_millis().as_str(), "'"));
        if let Some(maker) = &self.maker {
            list.push(wrapped("`maker` = '", escape_quotes(maker.as_str()).as_str(), "'"));
        }
        if needs_volume(self.query_type) {
            let mut volume = "`volume` >= ".to_owned();
            volume.append(self.volume_min.as_str());
            list.push(volume);
        }
        if let Some(cursor) = &self.cursor {
            let mut condition = "(`ts`, `height`, `tx_id`, `log_id`) ".to_owned();
            condition.append(cursor_operator(self.query_type));
            condition.append(" ");
            condition.append(cursor.as_str());
            list.push(condition);
        }
        assert(texts(list@) =~= self.conditions(TOKEN0_COLUMN@));
        list
    }

    /// The conditions of the second half. Where no value holds the column of the first token,
    /// they ask of the second token what the first half asks of the first.
    pub fn token1_conditions(&self) -> (r: Vec<String>)
        requires
            self.window.valid(),
        ensures
            texts(r@) == self.exchanged_conditions(),
            self.is_column_free() ==> texts(r@) == self.conditions(TOKEN1_COLUMN@),
    {
        let first = self.token0_conditions();
        proof {
            if self.is_column_free() {
                self.exchange_renames_the_column();
            }
        }
        exchange_column(&first)
    }

    proof fn exchange_renames_the_column(self)
        requires
            self.is_column_free(),
            is_date_time(self.window.start.millis_text()),
            is_date_time(self.window.end.millis_text()),
        ensures
            self.exchanged_conditions() == self.conditions(TOKEN1_COLUMN@),
    {
        column_text();
        pieces_name_other_columns();
        let c0 = TOKEN0_COLUMN@;
        let c1 = TOKEN1_COLUMN@;
        let a = self.conditions(c0);
        let b = self.conditions(c1);
        let x = self.exchanged_conditions();
        let none = Seq::<char>::empty();
        // The token's own condition begins with the column.
        let rest = " = '"@ + escaped(self.token_address@) + "'"@;
        crate::quote::escaping_adds_no_pattern(self.token_address@, c0);
        crate::template::column_is_absent(" = '"@, escaped(self.token_address@), "'"@);
        crate::text::replacing_the_absent_changes_nothing(rest, c0, c1);
        assert(a[0] =~= c0 + rest);
        assert(b[0] =~= c1 + rest);
        assert(a[0].take(c0.len() as int) =~= c0);
        assert(a[0].skip(c0.len() as int) =~= rest);
        assert(replaced(a[0], c0, c1) == b[0]);
        // No other condition holds the column.
        short_text_lacks_the_column(none);
        crate::template::column_is_absent("`platform` = 16"@, none, none);
        assert("`platform` = 16"@ + none + none =~= "`platform` = 16"@);
        crate::text::replacing_the_absent_changes_nothing("`platform` = 16"@, c0, c1);
        crate::template::column_is_absent("`no_anchor` = false"@, none, none);
        assert("`no_anchor` = false"@ + none + none =~= "`no_anchor` = false"@);
        crate::text::replacing_the_absent_changes_nothing("`no_anchor` = false"@, c0, c1);
        let start = self.window.start.millis_text();
        let end = self.window.end.millis_text();
        date_time_lacks_the_column(start);
        date_time_lacks_the_column(end);
        crate::template::column_is_absent("`ts` >= '"@, start, "'"@);
        crate::text::replacing_the_absent_changes_nothing("`ts` >= '"@ + start + "'"@, c0, c1);
        crate::template::column_is_absent("`ts` <= '"@, end, "'"@);
        crate::text::replacing_the_absent_changes_nothing("`ts` <= '"@ + end + "'"@, c0, c1);
        if self.maker is Some {
            let m = self.maker->0@;
            crate::quote::escaping_adds_no_pattern(m, c0);
            crate::template::column_is_absent("`maker` = '"@, escaped(m), "'"@);
            crate::text::replacing_the_absent_changes_nothing(self.maker_condition(), c0, c1);
        }
        if wants_volume(self.query_type) {
            crate::template::column_is_absent("`volume` >= "@, self.volume_min@, none);
            assert(self.volume_condition() + none =~= self.volume_condition());
            crate::text::replacing_the_absent_changes_nothing(self.volume_condition(), c0, c1);
        }
        if self.cursor is Some {
            let open = "(`ts`, `height`, `tx_id`, `log_id`) "@ + operator_of(self.query_type)
                + " "@;
            cursor_piece_names_other_columns(self.query_type);
            crate::template::column_is_absent(open, self.cursor->0@, none);
            assert(self.cursor_condition() + none =~= self.cursor_condition());
            crate::text::replacing_the_absent_changes_nothing(self.cursor_condition(), c0, c1);
        }
        assert(a.len() == b.len());
        assert forall|i: int| 0 <= i < a.len() implies x[i] == b[i] by {
            if i >= 1 {
                assert(a[i] == b[i]);
                assert(replaced(a[i], c0, c1) == a[i]);
            }
        }
        assert(x =~= b);
    }
}

// ---------------------------------------------------------------------------
// Statements
// ---------------------------------------------------------------------------

impl UnionQueryV2 {
    /// The statement with a placeholder in each place where the name of the index goes.
    pub fn base_sql(&self) -> (r: String)
        requires
            self.window.valid(),
        ensures
            r@ == self.statement(PLACEHOLDER@),
            is_date_time(self.window.start.millis_text()),
            is_date_time(self.window.end.millis_text()),
    {
        let order = sort_order(self.query_type);
        let first = self.token0_conditions();
        let second = self.token1_conditions();
        let mut sql = SELECT_NEW.to_owned();
        sql.append(PLACEHOLDER);
        sql.append(WHERE_CONDITIONS);
        sql.append(join(&first, AND).as_str());
        sql.append(SELECT_OLD);
        sql.append(PLACEHOLDER);
        sql.append(WHERE_CONDITIONS);
        sql.append(join(&second, AND).as_str());
        sql.append(ORDER_TS);
        sql.append(order.direction());
        sql.append(ORDER_HEIGHT);
        sql.append(order.direction());
        sql.append(ORDER_TX_ID);
        sql.append(order.direction());
        sql.append(ORDER_LOG_ID);
        sql.append(order.direction());
        sql.append(LIMIT);
        assert(sql@ =~= self.statement(PLACEHOLDER@));
        sql
    }

    /// The statement with the given name in place of each placeholder. Where no value of the
    /// query holds a placeholder, that is the statement through the index of that name, and
    /// nothing but the two names tells it from the statement through another index.
    fn sql_through(&self, index_name: &str) -> (r: String)
        requires
            self.window.valid(),
        ensures
            self.is_filled(r@, index_name@),
    {
        let base = self.base_sql();
        proof {
            crate::template::placeholder_text();
            if self.is_unmarked() {
                self.pieces_are_unmarked();
                crate::template::both_placeholders_are_filled(
                    SELECT_NEW@,
                    self.middle(),
                    self.tail(),
                    index_name@,
                );
            }
        }
        replace(base.as_str(), PLACEHOLDER, index_name)
    }

    /// The statement through the index that suits the sorting of the query type.
    pub fn target_sql(&self) -> (r: String)
        requires
            self.window.valid(),
        ensures
            self.is_target(r@),
            self.query_type == 5 || self.query_type == 8 ==> r@ == replaced(
                self.statement("{}"@),
                "{}"@,
                "idx_asc"@,
            ) && (self.is_unmarked() ==> r@ == self.statement("idx_asc"@)),
            self.query_type != 5 && self.query_type != 8 ==> r@ == replaced(
                self.statement("{}"@),
                "{}"@,
                "idx_desc"@,
            ) && (self.is_unmarked() ==> r@ == self.statement("idx_desc"@)),
    {
        self.sql_through(sort_order(self.query_type).index_name())
    }

    /// The statement through the primary index, where verification is asked for.
    pub fn verify_sql(&self, verify: bool) -> (r: Option<String>)
        requires
            self.window.valid(),
        ensures
            r is Some <==> verify,
            r matches Some(sql) ==> self.is_verifier(sql@),
            r matches Some(sql) ==> sql@ == replaced(self.statement("{}"@), "{}"@, "primary"@),
            r matches Some(sql) ==> self.is_unmarked() ==> sql@ == self.statement("primary"@),
    {
        if verify {
            Some(self.sql_through(PRIMARY_INDEX))
        } else {
            None
        }
    }

    proof fn conditions_are_unmarked(self)
        requires
            self.is_unmarked(),
            is_date_time(self.window.start.millis_text()),
            is_date_time(self.window.end.millis_text()),
        ensures
            forall|i: int|
                0 <= i < self.conditions(TOKEN0_COLUMN@).len() ==> unmarked(
                    #[trigger] self.conditions(TOKEN0_COLUMN@)[i],
                ),
    {
        column_text();
        let c0 = TOKEN0_COLUMN@;
        let a = self.conditions(c0);
        let none = Seq::<char>::empty();
        let token = escaped(self.token_address@);
        let start = self.window.start.millis_text();
        let end = self.window.end.millis_text();
        reveal_strlit(" = '");
        reveal_strlit("'");
        reveal_strlit("`platform` = 16");
        reveal_strlit("`no_anchor` = false");
        reveal_strlit("`ts` >= '");
        reveal_strlit("`ts` <= '");
        reveal_strlit("`maker` = '");
        reveal_strlit("`volume` >= ");
        crate::template::unmarked_escaped(self.token_address@);
        crate::template::brace_free_is_unmarked(none);
        crate::template::brace_free_is_unmarked(c0);
        crate::template::unmarked_piece(c0, " = '"@, token);
        crate::template::unmarked_piece(c0 + " = '"@ + token, "'"@, none);
        crate::template::brace_free_is_unmarked("`platform` = 16"@);
        crate::template::brace_free_is_unmarked("`no_anchor` = false"@);
        crate::template::date_time_is_unmarked(start);
        crate::template::date_time_is_unmarked(end);
        unmarked_between("`ts` >= '"@, start);
        unmarked_between("`ts` <= '"@, end);
        if self.maker is Some {
            crate::template::unmarked_escaped(self.maker->0@);
            unmarked_between("`maker` = '"@, escaped(self.maker->0@));
        }
        if wants_volume(self.query_type) {
            crate::template::unmarked_piece(none, "`volume` >= "@, self.volume_min@);
            assert(none + "`volume` >= "@ + self.volume_min@ =~= self.volume_condition());
        }
        if self.cursor is Some {
            reveal_strlit("(`ts`, `height`, `tx_id`, `log_id`) ");
            reveal_strlit("<");
            reveal_strlit(">");
            reveal_strlit(" ");
            let open = "(`ts`, `height`, `tx_id`, `log_id`) "@ + operator_of(self.query_type)
                + " "@;
            crate::template::unmarked_piece(none, open, self.cursor->0@);
            assert(none + open + self.cursor->0@ =~= self.cursor_condition());
        }
        assert(unmarked(a[0]) && unmarked(a[1]) && unmarked(a[2]) && unmarked(a[3]) && unmarked(
            a[4],
        ));
    }

    proof fn pieces_are_unmarked(self)
        requires
            self.is_unmarked(),
            is_date_time(self.window.start.millis_text()),
            is_date_time(self.window.end.millis_text()),
        ensures
            unmarked(SELECT_NEW@),
            unmarked(self.middle()),
            unmarked(self.tail()),
            SELECT_NEW@.len() > 0 && SELECT_NEW@.last() != '{',
            self.middle().len() > 0 && self.middle().last() != '{',
    {
        crate::union_sql_v2::pieces_hold_no_braces();
        column_text();
        let none = Seq::<char>::empty();
        crate::template::brace_free_is_unmarked(none);
        crate::template::brace_free_is_unmarked(SELECT_NEW@);
        self.conditions_are_unmarked();
        let a = self.conditions(TOKEN0_COLUMN@);
        let x = self.exchanged_conditions();
        assert forall|i: int| 0 <= i < x.len() implies unmarked(#[trigger] x[i]) by {
            crate::template::unmarked_replaced(a[i], TOKEN0_COLUMN@, TOKEN1_COLUMN@);
        }
        crate::template::unmarked_join(a, AND@);
        crate::template::unmarked_join(x, AND@);
        crate::template::unmarked_piece(none, WHERE_CONDITIONS@, joined(a, AND@));
        crate::template::unmarked_piece(none, WHERE_CONDITIONS@, joined(x, AND@));
        let first = WHERE_CONDITIONS@ + joined(a, AND@);
        let second = WHERE_CONDITIONS@ + joined(x, AND@);
        assert(none + WHERE_CONDITIONS@ + joined(a, AND@) =~= first);
        assert(none + WHERE_CONDITIONS@ + joined(x, AND@) =~= second);
        crate::template::brace_free_is_unmarked(SELECT_OLD@);
        crate::template::unmarked_sum(first, SELECT_OLD@);
        assert(self.middle().last() == SELECT_OLD@.last());
        reveal_strlit("ASC");
        reveal_strlit("DESC");
        crate::template::brace_free_is_unmarked(self.sorting());
        crate::template::unmarked_sum(second, self.sorting());
    }
}

proof fn unmarked_between(open: Seq<char>, value: Seq<char>)
    requires
        is_piece(open),
        unmarked(value),
    ensures
        unmarked(open + value + "'"@),
{
    reveal_strlit("'");
    let none = Seq::<char>::empty();
    crate::template::brace_free_is_unmarked(none);
    crate::template::unmarked_piece(none, open, value);
    assert(none + open + value =~= open + value);
    crate::template::unmarked_piece(open + value, "'"@, none);
}

/// Verification does not change a query. Two queries that ask for the same have the same target
/// statement and the same log line, whether or not one of them is verified. The statement that
/// verifies it is made of the same pieces as the target statement, with the primary index named
/// in both places, where no value holds a placeholder.
pub proof fn verification_changes_the_index_alone(
    plain: UnionQueryV2,
    plain_target: Seq<char>,
    verified: UnionQueryV2,
    verified_target: Seq<char>,
    verifier: Seq<char>,
    millis: nat,
    rows: nat,
)
    requires
        plain.asks_the_same(verified),
        plain.is_target(plain_target),
        verified.is_target(verified_target),
        verified.is_verifier(verifier),
    ensures
        plain_target == verified_target,
        plain.log_text(millis, rows) == verified.log_text(millis, rows),
        plain.is_unmarked() ==> plain_target == SELECT_NEW@ + order_of(plain.query_type).index()
            + plain.middle() + order_of(plain.query_type).index() + plain.tail(),
        plain.is_unmarked() ==> verifier == SELECT_NEW@ + PRIMARY_INDEX@ + plain.middle()
            + PRIMARY_INDEX@ + plain.tail(),
{
    let a = plain.conditions(TOKEN0_COLUMN@);
    let b = verified.conditions(TOKEN0_COLUMN@);
    assert(a =~= b);
}

// ---------------------------------------------------------------------------
// Reading the statement
// ---------------------------------------------------------------------------

proof fn one_condition_more(list: Seq<Seq<char>>, wanted: bool, condition: Seq<char>)
    requires
        list.len() > 0,
    ensures
        wanted ==> joined(list + at_will(wanted, condition), AND@) == joined(list, AND@) + AND@
            + condition,
        !wanted ==> joined(list + at_will(wanted, condition), AND@) == joined(list, AND@),
{
    if wanted {
        crate::text::joining_goes_list_by_list(list, seq![condition], AND@);
        crate::text::joining_goes_list_by_list(seq![condition], seq![condition], AND@);
    } else {
        assert(list + at_will(wanted, condition) =~= list);
    }
}

proof fn five_conditions(
    a: Seq<char>,
    b: Seq<char>,
    c: Seq<char>,
    d: Seq<char>,
    e: Seq<char>,
)
    ensures
        joined(seq![a, b, c, d, e], AND@) == a + AND@ + b + AND@ + c + AND@ + d + AND@ + e,
{
    assert(seq![a, b, c, d, e].drop_last() =~= seq![a, b, c, d]);
    assert(seq![a, b, c, d].drop_last() =~= seq![a, b, c]);
    assert(seq![a, b, c].drop_last() =~= seq![a, b]);
    assert(seq![a, b].drop_last() =~= seq![a]);
    assert(joined(seq![a], AND@) == a);
    assert(joined(seq![a, b], AND@) == a + AND@ + b);
    assert(joined(seq![a, b, c], AND@) == a + AND@ + b + AND@ + c);
    assert(joined(seq![a, b, c, d], AND@) == a + AND@ + b + AND@ + c + AND@ + d);
}

impl UnionQueryV2 {
    /// A reading followed by the conditions that every query type has.
    spec fn read_fixed(self, r: Reading, column: Seq<char>) -> Reading {
        r.chars(column).fixed(" = '"@).quoted(self.token_address@, "'"@ + AND@).fixed(
            "`platform` = 16"@ + AND@ + "`no_anchor` = false"@ + AND@ + "`ts` >= '"@,
        ).chars(self.window.start.millis_text()).fixed("'"@ + AND@ + "`ts` <= '"@).chars(
            self.window.end.millis_text(),
        ).fixed("'"@)
    }

    spec fn read_maker(self, r: Reading) -> Reading {
        if self.maker is Some {
            r.fixed(AND@ + "`maker` = '"@).chars(escaped(self.maker->0@)).fixed("'"@)
        } else {
            r
        }
    }

    spec fn read_volume(self, r: Reading) -> Reading {
        if wants_volume(self.query_type) {
            r.fixed(AND@ + "`volume` >= "@).chars(self.volume_min@)
        } else {
            r
        }
    }

    spec fn read_cursor(self, r: Reading) -> Reading {
        if self.cursor is Some {
            r.fixed(AND@ + "(`ts`, `height`, `tx_id`, `log_id`) "@).chars(
                operator_of(self.query_type),
            ).fixed(" "@).chars(self.cursor->0@)
        } else {
            r
        }
    }

    /// A reading followed by all conditions of one half.
    spec fn read_half(self, r: Reading, column: Seq<char>) -> Reading {
        self.read_cursor(self.read_volume(self.read_maker(self.read_fixed(r, column))))
    }

    spec fn five(self, column: Seq<char>) -> Seq<Seq<char>> {
        seq![
            token_condition(column, self.token_address@),
            "`platform` = 16"@,
            "`no_anchor` = false"@,
            "`ts` >= '"@ + self.window.start.millis_text() + "'"@,
            "`ts` <= '"@ + self.window.end.millis_text() + "'"@,
        ]
    }

    #[verifier::spinoff_prover]
    proof fn fixed_conditions_are_read(self, r: Reading, column: Seq<char>)
        requires
            r.holds(),
        ensures
            self.read_fixed(r, column).holds(),
            self.read_fixed(r, column).text == r.text + joined(self.five(column), AND@),
    {
        reveal_strlit("'");
        reveal_strlit("
            AND ");
        let start = self.window.start.millis_text();
        let end = self.window.end.millis_text();
        let more = "`platform` = 16"@ + AND@ + "`no_anchor` = false"@ + AND@ + "`ts` >= '"@;
        let token = self.token_address@;
        let a = r.chars(column);
        crate::reading::chars_hold(r, column);
        let b = a.fixed(" = '"@);
        crate::reading::fixed_holds(a, " = '"@);
        let c = b.quoted(token, "'"@ + AND@);
        crate::reading::quoted_holds(b, token, "'"@ + AND@);
        let d = c.fixed(more);
        crate::reading::fixed_holds(c, more);
        let e = d.chars(start);
        crate::reading::chars_hold(d, start);
        let f = e.fixed("'"@ + AND@ + "`ts` <= '"@);
        crate::reading::fixed_holds(e, "'"@ + AND@ + "`ts` <= '"@);
        let g = f.chars(end);
        crate::reading::chars_hold(f, end);
        crate::reading::fixed_holds(g, "'"@);
        let five = self.five(column);
        five_conditions(five[0], five[1], five[2], five[3], five[4]);
        assert(five =~= seq![five[0], five[1], five[2], five[3], five[4]]);
        conditions_in_a_row(
            r.text,
            column,
            " = '"@,
            escaped(token),
            "'"@,
            AND@,
            "`platform` = 16"@,
            "`no_anchor` = false"@,
            "`ts` >= '"@,
            start,
            "`ts` <= '"@,
            end,
        );
    }

    #[verifier::spinoff_prover]
    proof fn half_is_read(self, r: Reading, column: Seq<char>)
        requires
            r.holds(),
        ensures
            self.read_half(r, column).holds(),
            self.read_half(r, column).text == r.text + joined(self.conditions(column), AND@),
    {
        let a = self.read_fixed(r, column);
        let five = self.five(column);
        self.fixed_conditions_are_read(r, column);
        let b = self.read_maker(a);
        let with_maker = five + at_will(self.maker is Some, self.maker_condition());
        one_condition_more(five, self.maker is Some, self.maker_condition());
        if self.maker is Some {
            let m = escaped(self.maker->0@);
            let a1 = a.fixed(AND@ + "`maker` = '"@);
            crate::reading::fixed_holds(a, AND@ + "`maker` = '"@);
            let a2 = a1.chars(m);
            crate::reading::chars_hold(a1, m);
            crate::reading::fixed_holds(a2, "'"@);
            appended(r.text, joined(five, AND@), AND@, "`maker` = '"@, m, "'"@);
        }
        assert(b.holds() && b.text == r.text + joined(with_maker, AND@));
        let c = self.read_volume(b);
        let wants = wants_volume(self.query_type);
        let with_volume = with_maker + at_will(wants, self.volume_condition());
        one_condition_more(with_maker, wants, self.volume_condition());
        if wants {
            let b1 = b.fixed(AND@ + "`volume` >= "@);
            crate::reading::fixed_holds(b, AND@ + "`volume` >= "@);
            crate::reading::chars_hold(b1, self.volume_min@);
            let none = Seq::<char>::empty();
            appended(
                r.text,
                joined(with_maker, AND@),
                AND@,
                "`volume` >= "@,
                self.volume_min@,
                none,
            );
            assert(self.volume_condition() + none =~= self.volume_condition());
            assert(c.text + none =~= c.text);
        }
        assert(c.holds() && c.text == r.text + joined(with_volume, AND@));
        let all = with_volume + at_will(self.cursor is Some, self.cursor_condition());
        one_condition_more(with_volume, self.cursor is Some, self.cursor_condition());
        if self.cursor is Some {
            let names = "(`ts`, `height`, `tx_id`, `log_id`) "@;
            let sign = operator_of(self.query_type);
            let c1 = c.fixed(AND@ + names);
            crate::reading::fixed_holds(c, AND@ + names);
            let c2 = c1.chars(sign);
            crate::reading::chars_hold(c1, sign);
            let c3 = c2.fixed(" "@);
            crate::reading::fixed_holds(c2, " "@);
            crate::reading::chars_hold(c3, self.cursor->0@);
            appended(r.text, joined(with_volume, AND@), AND@, names, sign, " "@);
            let before = joined(with_volume, AND@) + AND@;
            assert(r.text + (before + (names + sign + " "@)) + self.cursor->0@ =~= r.text + (before
                + (names + sign + " "@ + self.cursor->0@)));
        }
        assert(all == self.conditions(column));
    }

    /// A reading of the statement through an index. The second half is taken as one.
    spec fn reading(self, index: Seq<char>) -> Reading {
        let way = order_of(self.query_type).keyword();
        let head = Reading::start(SELECT_NEW@).chars(index).fixed(WHERE_CONDITIONS@);
        self.read_half(head, TOKEN0_COLUMN@).fixed(SELECT_OLD@).chars(index).fixed(
            WHERE_CONDITIONS@,
        ).chars(joined(self.exchanged_conditions(), AND@)).fixed(ORDER_TS@).chars(way).fixed(
            ORDER_HEIGHT@,
        ).chars(way).fixed(ORDER_TX_ID@).chars(way).fixed(ORDER_LOG_ID@).chars(way).fixed(LIMIT@)
    }

    #[verifier::spinoff_prover]
    proof fn statement_is_read(self, index: Seq<char>)
        ensures
            self.reading(index).holds(),
            self.reading(index).text == self.statement(index),
    {
        let way = order_of(self.query_type).keyword();
        let first = joined(self.conditions(TOKEN0_COLUMN@), AND@);
        let second = joined(self.exchanged_conditions(), AND@);
        let a = Reading::start(SELECT_NEW@);
        crate::reading::start_holds(SELECT_NEW@);
        let b = a.chars(index);
        crate::reading::chars_hold(a, index);
        let c = b.fixed(WHERE_CONDITIONS@);
        crate::reading::fixed_holds(b, WHERE_CONDITIONS@);
        let d = self.read_half(c, TOKEN0_COLUMN@);
        self.half_is_read(c, TOKEN0_COLUMN@);
        let e = d.fixed(SELECT_OLD@);
        crate::reading::fixed_holds(d, SELECT_OLD@);
        let f = e.chars(index);
        crate::reading::chars_hold(e, index);
        let g = f.fixed(WHERE_CONDITIONS@);
        crate::reading::fixed_holds(f, WHERE_CONDITIONS@);
        let h = g.chars(second);
        crate::reading::chars_hold(g, second);
        let i = h.fixed(ORDER_TS@);
        crate::reading::fixed_holds(h, ORDER_TS@);
        let j = i.chars(way);
        crate::reading::chars_hold(i, way);
        let k = j.fixed(ORDER_HEIGHT@);
        crate::reading::fixed_holds(j, ORDER_HEIGHT@);
        let l = k.chars(way);
        crate::reading::chars_hold(k, way);
        let m = l.fixed(ORDER_TX_ID@);
        crate::reading::fixed_holds(l, ORDER_TX_ID@);
        let n = m.chars(way);
        crate::reading::chars_hold(m, way);
        let o = n.fixed(ORDER_LOG_ID@);
        crate::reading::fixed_holds(n, ORDER_LOG_ID@);
        let p = o.chars(way);
        crate::reading::chars_hold(o, way);
        crate::reading::fixed_holds(p, LIMIT@);
        regrouped(
            SELECT_NEW@,
            index,
            WHERE_CONDITIONS@,
            first,
            SELECT_OLD@,
            second,
            ORDER_TS@,
            way,
            ORDER_HEIGHT@,
            ORDER_TX_ID@,
            ORDER_LOG_ID@,
            LIMIT@,
        );
    }
}

proof fn appended(
    text: Seq<char>,
    list: Seq<char>,
    sep: Seq<char>,
    open: Seq<char>,
    value: Seq<char>,
    close: Seq<char>,
)
    ensures
        text + list + (sep + open) + value + close == text + (list + sep + (open + value + close)),
{
    assert(text + list + (sep + open) + value + close =~= text + (list + sep + (open + value
        + close)));
}

proof fn conditions_in_a_row(
    text: Seq<char>,
    column: Seq<char>,
    is: Seq<char>,
    token: Seq<char>,
    quote: Seq<char>,
    sep: Seq<char>,
    platform: Seq<char>,
    anchor: Seq<char>,
    from: Seq<char>,
    start: Seq<char>,
    to: Seq<char>,
    end: Seq<char>,
)
    ensures
        text + column + is + token + (quote + sep) + (platform + sep + anchor + sep + from) + start
            + (quote + sep + to) + end + quote == text + ((column + is + token + quote) + sep
            + platform + sep + anchor + sep + (from + start + quote) + sep + (to + end + quote)),
{
    assert(text + column + is + token + (quote + sep) + (platform + sep + anchor + sep + from)
        + start + (quote + sep + to) + end + quote =~= text + ((column + is + token + quote) + sep
        + platform + sep + anchor + sep + (from + start + quote) + sep + (to + end + quote)));
}

proof fn regrouped(
    head: Seq<char>,
    index: Seq<char>,
    conditions: Seq<char>,
    first: Seq<char>,
    select: Seq<char>,
    second: Seq<char>,
    a: Seq<char>,
    way: Seq<char>,
    b: Seq<char>,
    c: Seq<char>,
    d: Seq<char>,
    limit: Seq<char>,
)
    ensures
        head + index + conditions + first + select + index + conditions + second + a + way + b + way
            + c + way + d + way + limit == head + index + (conditions + first + select) + index + (
        conditions + second + (a + way + b + way + c + way + d + way + limit)),
{
    assert(head + index + conditions + first + select + index + conditions + second + a + way + b
        + way + c + way + d + way + limit =~= head + index + (conditions + first + select) + index
        + (conditions + second + (a + way + b + way + c + way + d + way + limit)));
}

/// The layout of the conditions of one half, for a query of the given type, with or without a maker
/// and a cursor: the lengths of the values that are read by their length, and nothing else of them.
pub open spec fn half_layout(
    query_type: u8,
    column: nat,
    start: nat,
    end: nat,
    maker: Option<nat>,
    volume: nat,
    cursor: Option<nat>,
) -> Seq<Part> {
    seq![
        Part::Chars(column),
        Part::Fixed(" = '"@),
        Part::Quoted,
        Part::Fixed("'"@ + AND@),
        Part::Fixed("`platform` = 16"@ + AND@ + "`no_anchor` = false"@ + AND@ + "`ts` >= '"@),
        Part::Chars(start),
        Part::Fixed("'"@ + AND@ + "`ts` <= '"@),
        Part::Chars(end),
        Part::Fixed("'"@),
    ] + (match maker {
        Some(n) => seq![
            Part::Fixed(AND@ + "`maker` = '"@),
            Part::Chars(n),
            Part::Fixed("'"@),
        ],
        None => Seq::empty(),
    }) + (if query_type == 7 || query_type == 9 || query_type == 10 {
        seq![Part::Fixed(AND@ + "`volume` >= "@), Part::Chars(volume)]
    } else {
        Seq::empty()
    }) + (match cursor {
        Some(n) => seq![
            Part::Fixed(AND@ + "(`ts`, `height`, `tx_id`, `log_id`) "@),
            Part::Chars(1),
            Part::Fixed(" "@),
            Part::Chars(n),
        ],
        None => Seq::empty(),
    })
}

/// A reader of the conditions of one half, in whatever column its token stands, finds there: the
/// column, the query's own token, both ends of its window; the maker, quoted, where there is one;
/// the least volume exactly where the type asks for one; and where there is a cursor, the sign
/// `>` for the type that looks after its cursor and `<` for all others, and behind the sign the
/// whole cursor.
pub proof fn conditions_read_back(query: UnionQueryV2, column: Seq<char>)
    ensures
        ({
            let start = date_time_text(query.window.start.secs, query.window.start.nanos, "%Y-%m-%d %H:%M:%S%.3f"@);
            let end = date_time_text(query.window.end.secs, query.window.end.nanos, "%Y-%m-%d %H:%M:%S%.3f"@);
            let maker = match query.maker {
                Some(m) => Some(escaped(m@).len()),
                None => None,
            };
            let cursor = match query.cursor {
                Some(c) => Some(c@.len()),
                None => None,
            };
            reads_as(
                joined(query.conditions(column), AND@),
                half_layout(
                    query.query_type,
                    column.len(),
                    start.len(),
                    end.len(),
                    maker,
                    query.volume_min@.len(),
                    cursor,
                ),
                seq![
                    Found::Text(column),
                    Found::Text(query.token_address@),
                    Found::Text(start),
                    Found::Text(end),
                ] + (match query.maker {
                    Some(m) => seq![Found::Text(escaped(m@))],
                    None => Seq::empty(),
                }) + (if query.query_type == 7 || query.query_type == 9 || query.query_type
                    == 10 {
                    seq![Found::Text(query.volume_min@)]
                } else {
                    Seq::empty()
                }) + (match query.cursor {
                    Some(c) => seq![
                        Found::Text(
                            if query.query_type == 5 {
                                ">"@
                            } else {
                                "<"@
                            },
                        ),
                        Found::Text(c@),
                    ],
                    None => Seq::empty(),
                }),
            )
        }),
{
    query.layout_of_a_half(Reading { text: Seq::empty(), layout: Seq::empty(), found: Seq::empty() }, column);
    let none = Reading { text: Seq::empty(), layout: Seq::empty(), found: Seq::empty() };
    assert forall|rest: Seq<char>| #[trigger] crate::reading::scan(none.text + rest, none.layout)
        == Some((none.found, rest)) by {
        assert(none.text + rest =~= rest);
    }
    query.half_is_read(none, column);
    let r = query.read_half(none, column);
    assert(none.text + joined(query.conditions(column), AND@) =~= joined(
        query.conditions(column),
        AND@,
    ));
    assert(none.layout + query.layout_here(column) =~= query.layout_here(column));
    assert(none.found + query.found_here(column) =~= query.found_here(column));
    crate::reading::whole_text_reads(
        r,
        joined(query.conditions(column), AND@),
        query.layout_here(column),
        query.found_here(column),
    );
}

impl UnionQueryV2 {
    spec fn layout_here(self, column: Seq<char>) -> Seq<Part> {
        half_layout(
            self.query_type,
            column.len(),
            self.window.start.millis_text().len(),
            self.window.end.millis_text().len(),
            match self.maker {
                Some(m) => Some(escaped(m@).len()),
                None => None,
            },
            self.volume_min@.len(),
            match self.cursor {
                Some(c) => Some(c@.len()),
                None => None,
            },
        )
    }

    spec fn found_here(self, column: Seq<char>) -> Seq<Found> {
        seq![
            Found::Text(column),
            Found::Text(self.token_address@),
            Found::Text(self.window.start.millis_text()),
            Found::Text(self.window.end.millis_text()),
        ] + (match self.maker {
            Some(m) => seq![Found::Text(escaped(m@))],
            None => Seq::empty(),
        }) + (if self.query_type == 7 || self.query_type == 9 || self.query_type == 10 {
            seq![Found::Text(self.volume_min@)]
        } else {
            Seq::empty()
        }) + (match self.cursor {
            Some(c) => seq![
                Found::Text(
                    if self.query_type == 5 {
                        ">"@
                    } else {
                        "<"@
                    },
                ),
                Found::Text(c@),
            ],
            None => Seq::empty(),
        })
    }

    #[verifier::spinoff_prover]
    proof fn layout_of_a_half(self, r: Reading, column: Seq<char>)
        ensures
            self.read_half(r, column).layout == r.layout + self.layout_here(column),
            self.read_half(r, column).found == r.found + self.found_here(column),
    {
        reveal_strlit("<");
        reveal_strlit(">");
        assert(self.read_half(r, column).layout =~= r.layout + self.layout_here(column));
        assert(self.read_half(r, column).found =~= r.found + self.found_here(column));
    }
}

/// A reader of the statement through an index finds the name of the index in both halves, in the
/// first half the conditions on the query's own values as [`conditions_read_back`] says, in the
/// second half those conditions with the column exchanged, and behind them the direction of the
/// sorting for each of the four columns that it sorts by: upwards for the types 5 and 8 and
/// downwards for all others.
#[verifier::spinoff_prover]
pub proof fn statement_reads_back(query: UnionQueryV2, index: Seq<char>)
    ensures
        ({
            let start = date_time_text(query.window.start.secs, query.window.start.nanos, "%Y-%m-%d %H:%M:%S%.3f"@);
            let end = date_time_text(query.window.end.secs, query.window.end.nanos, "%Y-%m-%d %H:%M:%S%.3f"@);
            let maker = match query.maker {
                Some(m) => Some(escaped(m@).len()),
                None => None,
            };
            let cursor = match query.cursor {
                Some(c) => Some(c@.len()),
                None => None,
            };
            let way = if query.query_type == 5 || query.query_type == 8 {
                "ASC"@
            } else {
                "DESC"@
            };
            let second = joined(query.exchanged_conditions(), AND@);
            reads_as(
                query.statement(index),
                seq![
                    Part::Fixed(SELECT_NEW@),
                    Part::Chars(index.len()),
                    Part::Fixed(WHERE_CONDITIONS@),
                ] + half_layout(
                    query.query_type,
                    "`token0_address`"@.len(),
                    start.len(),
                    end.len(),
                    maker,
                    query.volume_min@.len(),
                    cursor,
                ) + seq![
                    Part::Fixed(SELECT_OLD@),
                    Part::Chars(index.len()),
                    Part::Fixed(WHERE_CONDITIONS@),
                    Part::Chars(second.len()),
                    Part::Fixed(ORDER_TS@),
                    Part::Chars(way.len()),
                    Part::Fixed(ORDER_HEIGHT@),
                    Part::Chars(way.len()),
                    Part::Fixed(ORDER_TX_ID@),
                    Part::Chars(way.len()),
                    Part::Fixed(ORDER_LOG_ID@),
                    Part::Chars(way.len()),
                    Part::Fixed(LIMIT@),
                ],
                seq![
                    Found::Text(index),
                    Found::Text("`token0_address`"@),
                    Found::Text(query.token_address@),
                    Found::Text(start),
                    Found::Text(end),
                ] + (match query.maker {
                    Some(m) => seq![Found::Text(escaped(m@))],
                    None => Seq::empty(),
                }) + (if query.query_type == 7 || query.query_type == 9 || query.query_type
                    == 10 {
                    seq![Found::Text(query.volume_min@)]
                } else {
                    Seq::empty()
                }) + (match query.cursor {
                    Some(c) => seq![
                        Found::Text(
                            if query.query_type == 5 {
                                ">"@
                            } else {
                                "<"@
                            },
                        ),
                        Found::Text(c@),
                    ],
                    None => Seq::empty(),
                }) + seq![
                    Found::Text(index),
                    Found::Text(second),
                    Found::Text(way),
                    Found::Text(way),
                    Found::Text(way),
                    Found::Text(way),
                ],
            )
        }),
{
    let way = order_of(query.query_type).keyword();
    let second = joined(query.exchanged_conditions(), AND@);
    let head = Reading::start(SELECT_NEW@).chars(index).fixed(WHERE_CONDITIONS@);
    query.layout_of_a_half(head, TOKEN0_COLUMN@);
    query.statement_is_read(index);
    let layout = seq![
        Part::Fixed(SELECT_NEW@),
        Part::Chars(index.len()),
        Part::Fixed(WHERE_CONDITIONS@),
    ] + query.layout_here(TOKEN0_COLUMN@) + seq![
        Part::Fixed(SELECT_OLD@),
        Part::Chars(index.len()),
        Part::Fixed(WHERE_CONDITIONS@),
        Part::Chars(second.len()),
        Part::Fixed(ORDER_TS@),
        Part::Chars(way.len()),
        Part::Fixed(ORDER_HEIGHT@),
        Part::Chars(way.len()),
        Part::Fixed(ORDER_TX_ID@),
        Part::Chars(way.len()),
        Part::Fixed(ORDER_LOG_ID@),
        Part::Chars(way.len()),
        Part::Fixed(LIMIT@),
    ];
    let found = seq![
        Found::Text(index),
        Found::Text(TOKEN0_COLUMN@),
        Found::Text(query.token_address@),
        Found::Text(query.window.start.millis_text()),
        Found::Text(query.window.end.millis_text()),
    ] + (match query.maker {
        Some(m) => seq![Found::Text(escaped(m@))],
        None => Seq::empty(),
    }) + (if query.query_type == 7 || query.query_type == 9 || query.query_type == 10 {
        seq![Found::Text(query.volume_min@)]
    } else {
        Seq::empty()
    }) + (match query.cursor {
        Some(c) => seq![
            Found::Text(
                if query.query_type == 5 {
                    ">"@
                } else {
                    "<"@
                },
            ),
            Found::Text(c@),
        ],
        None => Seq::empty(),
    }) + seq![
        Found::Text(index),
        Found::Text(second),
        Found::Text(way),
        Found::Text(way),
        Found::Text(way),
        Found::Text(way),
    ];
    assert(layout =~= query.reading(index).layout);
    assert(found =~= query.reading(index).found);
    crate::reading::whole_text_reads(query.reading(index), query.statement(index), layout, found);
}

/// The conditions of the second half are those of the first, one by one, with the column of the
/// second token in every place where that of the first stands. Where no value holds that column,
/// they are the same conditions on the second token, so [`conditions_read_back`] speaks of both
/// halves.
pub proof fn second_half_asks_the_same(query: UnionQueryV2)
    requires
        is_date_time(query.window.start.millis_text()),
        is_date_time(query.window.end.millis_text()),
    ensures
        query.exchanged_conditions().len() == query.conditions("`token0_address`"@).len(),
        forall|i: int|
            0 <= i < query.exchanged_conditions().len()
                ==> #[trigger] query.exchanged_conditions()[i] == replaced(
                query.conditions("`token0_address`"@)[i],
                "`token0_address`"@,
                "`token1_address`"@,
            ),
        query.is_column_free() ==> query.exchanged_conditions() == query.conditions(
            "`token1_address`"@,
        ),
{
    if query.is_column_free() {
        query.exchange_renames_the_column();
    }
}

/// The last condition of a query with a cursor compares with the whole cursor, in both halves:
/// by `<` where its type looks before the cursor and sorts downwards, and by `>` where it looks
/// after the cursor and sorts upwards.
pub proof fn the_sign_follows_the_side_of_the_cursor(query: UnionQueryV2, column: Seq<char>)
    requires
        query.cursor is Some,
    ensures
        cursor_side(query.query_type) == Some(true) ==> query.conditions(column).last()
            == "(`ts`, `height`, `tx_id`, `log_id`) "@ + "<"@ + " "@ + query.cursor->0@ && order_of(
            query.query_type,
        ) is Desc,
        cursor_side(query.query_type) == Some(false) ==> query.conditions(column).last()
            == "(`ts`, `height`, `tx_id`, `log_id`) "@ + ">"@ + " "@ + query.cursor->0@ && order_of(
            query.query_type,
        ) is Asc,
{
}

// ---------------------------------------------------------------------------
// Reports
// ---------------------------------------------------------------------------

impl UnionQueryV2 {
    /// The name of the query in reports.
    pub fn label(&self) -> (r: String)
        ensures
            r@ == self.label_text(),
    {
        let mut text = "Union Query ".to_owned();
        push_decimal(&mut text, self.query_type as u128);
        text
    }

    /// The line that logs the query.
    pub fn log_line(&self, millis: u128, rows: usize) -> (r: String)
        requires
            self.window.valid(),
        ensures
            r@ == self.log_text(millis as nat, rows as nat),
    {
        let order = sort_order(self.query_type);
        let mut text = "[".to_owned();
        text.append(self.label().as_str());
        text.append("] Latency: ");
        push_decimal(&mut text, millis);
        text.append("ms | Rows: ");
        push_decimal(&mut text, rows as u128);
        text.append(" | Token: ");
        text.append(self.token_address.as_str());
        text.append(" | Platform: 16 | NoAnchor: 0 | TS: ");
        text.append(self.window.start.format_seconds().as_str());
        text.append(" to ");
        text.append(self.window.end.format_seconds().as_str());
        text.append(" | ");
        let maker_info = match &self.maker {
            Some(m) => wrapped("Maker: ", m.as_str(), ""),
            None => "No maker filter".to_owned(),
        };
        text.append(maker_info.as_str());
        text.append(" | ");
        let volume_info = if needs_volume(self.query_type) {
            wrapped("Volume >= ", self.volume_min.as_str(), "")
        } else {
            "No volume filter".to_owned()
        };
        text.append(volume_info.as_str());
        text.append(" | ");
        let cursor_info = match &self.cursor {
            Some(c) => wrapped("Cursor: ", c.as_str(), ""),
            None => "No cursor".to_owned(),
        };
        text.append(cursor_info.as_str());
        proof {
            reveal_strlit("");
            assert(maker_info@ =~= self.maker_info());
            assert(volume_info@ =~= self.volume_info());
            assert(cursor_info@ =~= self.cursor_info());
        }
        text.append(" | Sort: ");
        text.append(order.direction());
        text.append(" | Index: ");
        text.append(order.index_name());
        text
    }

    /// The lines about the verification of the query's answer by that of the primary index.
    pub fn verification(
        &self,
        target_sql: &str,
        verify_sql: &str,
        millis: u128,
        target_rows: &Vec<UnionQueryResultWithPosition>,
        verify_rows: &Vec<UnionQueryResultWithPosition>,
    ) -> (r: Vec<Line>)
        ensures
            shown(r@) == verification_lines(
                self.label_text(),
                order_of(self.query_type).index(),
                target_sql@,
                verify_sql@,
                millis as nat,
                verify_rows@.len(),
                verification_of(target_rows@, verify_rows@),
            ),
    {
        let outcome = compare_rows(target_rows, verify_rows);
        verification_report(
            self.label().as_str(),
            sort_order(self.query_type).index_name(),
            target_sql,
            verify_sql,
            millis,
            verify_rows.len(),
            outcome,
        )
    }

    /// The lines that close the query: its log line, and its statement where that is asked for.
    pub fn closing(&self, millis: u128, rows: usize, verbose: bool, target_sql: &str) -> (r: Vec<
        Line,
    >)
        requires
            self.window.valid(),
        ensures
            shown(r@) == closing_lines(
                self.log_text(millis as nat, rows as nat),
                verbose,
                target_sql@,
            ),
    {
        closing_report(self.log_line(millis, rows), verbose, target_sql)
    }
}

/// What a log says of the maker.
pub open spec fn maker_said(query: UnionQueryV2) -> Seq<char> {
    if query.maker is Some {
        "Maker: "@ + query.maker->0@
    } else {
        "No maker filter"@
    }
}

/// What a log says of the volume.
pub open spec fn volume_said(query: UnionQueryV2) -> Seq<char> {
    if query.query_type == 7 || query.query_type == 9 || query.query_type == 10 {
        "Volume >= "@ + query.volume_min@
    } else {
        "No volume filter"@
    }
}

/// What a log says of the cursor.
pub open spec fn cursor_said(query: UnionQueryV2) -> Seq<char> {
    if query.cursor is Some {
        "Cursor: "@ + query.cursor->0@
    } else {
        "No cursor"@
    }
}

/// What a log says of the sorting.
pub open spec fn way_said(query: UnionQueryV2) -> Seq<char> {
    if query.query_type == 5 || query.query_type == 8 {
        "ASC"@
    } else {
        "DESC"@
    }
}

/// What a log says of the index.
pub open spec fn index_said(query: UnionQueryV2) -> Seq<char> {
    if query.query_type == 5 || query.query_type == 8 {
        "idx_asc"@
    } else {
        "idx_desc"@
    }
}

/// A reader of the line that logs a query finds in it the query type, the latency, the number of rows,
/// the token, both ends of the window, what is said of the maker, the volume and the cursor, the
/// direction of the sorting and the index that suits it.
#[verifier::spinoff_prover]
pub proof fn log_line_reads_back(query: UnionQueryV2, millis: nat, rows: nat)
    ensures
        reads_as(
            query.log_text(millis, rows),
            seq![
                Part::Fixed("["@ + "Union Query "@),
                Part::Number,
                Part::Fixed("] Latency: "@),
                Part::Number,
                Part::Fixed("ms | Rows: "@),
                Part::Number,
                Part::Fixed(" | Token: "@),
                Part::Chars(query.token_address@.len()),
                Part::Fixed(" | Platform: 16 | NoAnchor: 0 | TS: "@),
                Part::Chars(date_time_text(query.window.start.secs, query.window.start.nanos, "%Y-%m-%d %H:%M:%S"@).len()),
                Part::Fixed(" to "@),
                Part::Chars(date_time_text(query.window.end.secs, query.window.end.nanos, "%Y-%m-%d %H:%M:%S"@).len()),
                Part::Fixed(" | "@),
                Part::Chars(maker_said(query).len()),
                Part::Fixed(" | "@),
                Part::Chars(volume_said(query).len()),
                Part::Fixed(" | "@),
                Part::Chars(cursor_said(query).len()),
                Part::Fixed(" | Sort: "@),
                Part::Chars(way_said(query).len()),
                Part::Fixed(" | Index: "@),
                Part::Chars(index_said(query).len()),
            ],
            seq![
                Found::Number(query.query_type as nat as int),
                Found::Number(millis as int),
                Found::Number(rows as int),
                Found::Text(query.token_address@),
                Found::Text(date_time_text(query.window.start.secs, query.window.start.nanos, "%Y-%m-%d %H:%M:%S"@)),
                Found::Text(date_time_text(query.window.end.secs, query.window.end.nanos, "%Y-%m-%d %H:%M:%S"@)),
                Found::Text(maker_said(query)),
                Found::Text(volume_said(query)),
                Found::Text(cursor_said(query)),
                Found::Text(way_said(query)),
                Found::Text(index_said(query)),
            ],
        ),
{
    label_in_brackets(
        "["@,
        "Union Query "@,
        decimal(query.query_type as nat),
        "] Latency: "@,
    );
    reveal_strlit(" | Token: ");
    reveal_strlit("] Latency: ");
    reveal_strlit("ms | Rows: ");
    let r0 = Reading::start("["@ + "Union Query "@);
    crate::reading::start_holds("["@ + "Union Query "@);
    crate::reading::number_holds(r0, query.query_type as nat, "] Latency: "@);
    let r1 = r0.number(query.query_type as nat, "] Latency: "@);
    crate::reading::number_holds(r1, millis, "ms | Rows: "@);
    let r2 = r1.number(millis, "ms | Rows: "@);
    crate::reading::number_holds(r2, rows, " | Token: "@);
    let r3 = r2.number(rows, " | Token: "@);
    crate::reading::chars_hold(r3, query.token_address@);
    let r4 = r3.chars(query.token_address@);
    crate::reading::fixed_holds(r4, " | Platform: 16 | NoAnchor: 0 | TS: "@);
    let r5 = r4.fixed(" | Platform: 16 | NoAnchor: 0 | TS: "@);
    crate::reading::chars_hold(r5, date_time_text(query.window.start.secs, query.window.start.nanos, "%Y-%m-%d %H:%M:%S"@));
    let r6 = r5.chars(date_time_text(query.window.start.secs, query.window.start.nanos, "%Y-%m-%d %H:%M:%S"@));
    crate::reading::fixed_holds(r6, " to "@);
    let r7 = r6.fixed(" to "@);
    crate::reading::chars_hold(r7, date_time_text(query.window.end.secs, query.window.end.nanos, "%Y-%m-%d %H:%M:%S"@));
    let r8 = r7.chars(date_time_text(query.window.end.secs, query.window.end.nanos, "%Y-%m-%d %H:%M:%S"@));
    crate::reading::fixed_holds(r8, " | "@);
    let r9 = r8.fixed(" | "@);
    crate::reading::chars_hold(r9, maker_said(query));
    let r10 = r9.chars(maker_said(query));
    crate::reading::fixed_holds(r10, " | "@);
    let r11 = r10.fixed(" | "@);
    crate::reading::chars_hold(r11, volume_said(query));
    let r12 = r11.chars(volume_said(query));
    crate::reading::fixed_holds(r12, " | "@);
    let r13 = r12.fixed(" | "@);
    crate::reading::chars_hold(r13, cursor_said(query));
    let r14 = r13.chars(cursor_said(query));
    crate::reading::fixed_holds(r14, " | Sort: "@);
    let r15 = r14.fixed(" | Sort: "@);
    crate::reading::chars_hold(r15, way_said(query));
    let r16 = r15.chars(way_said(query));
    crate::reading::fixed_holds(r16, " | Index: "@);
    let r17 = r16.fixed(" | Index: "@);
    crate::reading::chars_hold(r17, index_said(query));
    let r18 = r17.chars(index_said(query));
    let text = query.log_text(millis, rows);
    let layout = seq![
        Part::Fixed("["@ + "Union Query "@),
        Part::Number,
        Part::Fixed("] Latency: "@),
        Part::Number,
        Part::Fixed("ms | Rows: "@),
        Part::Number,
        Part::Fixed(" | Token: "@),
        Part::Chars(query.token_address@.len()),
        Part::Fixed(" | Platform: 16 | NoAnchor: 0 | TS: "@),
        Part::Chars(date_time_text(query.window.start.secs, query.window.start.nanos, "%Y-%m-%d %H:%M:%S"@).len()),
        Part::Fixed(" to "@),
        Part::Chars(date_time_text(query.window.end.secs, query.window.end.nanos, "%Y-%m-%d %H:%M:%S"@).len()),
        Part::Fixed(" | "@),
        Part::Chars(maker_said(query).len()),
        Part::Fixed(" | "@),
        Part::Chars(volume_said(query).len()),
        Part::Fixed(" | "@),
        Part::Chars(cursor_said(query).len()),
        Part::Fixed(" | Sort: "@),
        Part::Chars(way_said(query).len()),
        Part::Fixed(" | Index: "@),
        Part::Chars(index_said(query).len()),
    ];
    let found = seq![
        Found::Number(query.query_type as nat as int),
        Found::Number(millis as int),
        Found::Number(rows as int),
        Found::Text(query.token_address@),
        Found::Text(date_time_text(query.window.start.secs, query.window.start.nanos, "%Y-%m-%d %H:%M:%S"@)),
        Found::Text(date_time_text(query.window.end.secs, query.window.end.nanos, "%Y-%m-%d %H:%M:%S"@)),
        Found::Text(maker_said(query)),
        Found::Text(volume_said(query)),
        Found::Text(cursor_said(query)),
        Found::Text(way_said(query)),
        Found::Text(index_said(query)),
    ];
    crate::reading::whole_text_reads(r18, text, layout, found);
}

proof fn label_in_brackets(open: Seq<char>, name: Seq<char>, number: Seq<char>, close: Seq<char>)
    ensures
        open + name + number + close == open + (name + number) + close,
{
    assert(open + name + number + close =~= open + (name + number) + close);
}

/// A reader of the name of a query finds its type in it.
pub proof fn label_reads_back(query: UnionQueryV2)
    ensures
        reads_as(
            query.label_text(),
            seq![Part::Fixed("Union Query "@), Part::Number],
            seq![Found::Number(query.query_type as int)],
        ),
{
    crate::reading::number_behind_reads("Union Query "@, query.query_type as nat);
}

// ---------------------------------------------------------------------------
// Facts about the fixed texts
// ---------------------------------------------------------------------------

/// A reader of a condition on a token finds the token in its literal, whatever characters it
/// holds, and nothing behind it.
pub proof fn token_survives_in_its_condition(column: Seq<char>, token: Seq<char>)
    ensures
        read_literal(token_condition(column, token).skip((column + " = '"@).len() as int)) == Some(
            (token, Seq::<char>::empty()),
        ),
{
    column_text();
    let none = Seq::<char>::empty();
    crate::quote::body_reads_back(token, none);
    assert(token_condition(column, token).skip((column + " = '"@).len() as int) =~= escaped(token)
        + seq!['\''] + none);
}

/// A reader of the condition on a maker finds the maker in its literal, whatever characters it
/// holds, and nothing behind it.
pub proof fn maker_survives_in_its_condition(query: UnionQueryV2)
    requires
        query.maker is Some,
    ensures
        read_literal(query.maker_condition().skip("`maker` = '"@.len() as int)) == Some(
            (query.maker->0@, Seq::<char>::empty()),
        ),
{
    column_text();
    let none = Seq::<char>::empty();
    crate::quote::body_reads_back(query.maker->0@, none);
    assert(query.maker_condition().skip("`maker` = '"@.len() as int) =~= escaped(query.maker->0@)
        + seq!['\''] + none);
}

proof fn column_text()
    ensures
        TOKEN0_COLUMN@.len() == 16,
        TOKEN0_COLUMN@[0] == '`',
        crate::quote::quote_free(TOKEN0_COLUMN@),
        is_piece(TOKEN0_COLUMN@),
        is_piece(TOKEN1_COLUMN@),
        "'"@ == seq!['\''],
{
    reveal_strlit("`token0_address`");
    reveal_strlit("`token1_address`");
    reveal_strlit("'");
    assert("'"@ =~= seq!['\'']);
}

proof fn pieces_name_other_columns()
    ensures
        names_other_columns(" = '"@),
        names_other_columns("`platform` = 16"@),
        names_other_columns("`no_anchor` = false"@),
        names_other_columns("`ts` >= '"@),
        names_other_columns("`ts` <= '"@),
        names_other_columns("`maker` = '"@),
        names_other_columns("`volume` >= "@),
{
    reveal_strlit(" = '");
    reveal_strlit("`platform` = 16");
    reveal_strlit("`no_anchor` = false");
    reveal_strlit("`ts` >= '");
    reveal_strlit("`ts` <= '");
    reveal_strlit("`maker` = '");
    reveal_strlit("`volume` >= ");
}

proof fn cursor_piece_names_other_columns(query_type: u8)
    ensures
        names_other_columns(
            "(`ts`, `height`, `tx_id`, `log_id`) "@ + operator_of(query_type) + " "@,
        ),
{
    reveal_strlit("(`ts`, `height`, `tx_id`, `log_id`) ");
    reveal_strlit("<");
    reveal_strlit(">");
    reveal_strlit(" ");
}

proof fn short_text_lacks_the_column(s: Seq<char>)
    requires
        s.len() < 16,
    ensures
        !occurs(TOKEN0_COLUMN@, s),
{
    column_text();
}

proof fn date_time_lacks_the_column(s: Seq<char>)
    requires
        is_date_time(s),
    ensures
        !occurs(TOKEN0_COLUMN@, s),
{
    column_text();
    let c = TOKEN0_COLUMN@;
    assert forall|i: int| 0 <= i && i + c.len() <= s.len() implies #[trigger] s.subrange(
        i,
        i + c.len(),
    ) != c by {
        assert(crate::timestamp::is_date_time_char(s[i]));
        assert(s.subrange(i, i + c.len())[0] == s[i]);
    }
}

} // verus!
