//! Cursors: positions near a sample, from which a range query starts.

use crate::number::{integer_value, is_integer_text, unsigned_text};
use crate::random::draw_between;
use crate::sample::TokenSample;
use crate::text::{push_signed_decimal, signed_decimal};
use crate::timestamp::{in_range, is_in_range, Timestamp};
use rand::rngs::StdRng;
use vstd::prelude::*;

verus! {

/// The farthest that a cursor's moment lies from the sample's: a day.
pub const MAX_TS_OFFSET: i64 = 86400;

/// The farthest that a cursor's height lies from the sample's.
pub const MAX_HEIGHT_OFFSET: i64 = 1000;

/// The farthest that a cursor's transaction lies from the sample's.
pub const MAX_TX_ID_OFFSET: i64 = 100;

/// The farthest that a cursor's log entry lies from the sample's.
pub const MAX_LOG_ID_OFFSET: i64 = 50;

/// How far a cursor lies from its sample. The signs do not matter.
#[derive(Clone, Copy, PartialEq, Eq, Debug, Structural)]
pub struct CursorOffsets {
    pub ts_seconds: i64,
    pub height: i64,
    pub tx_id: i64,
    pub log_id: i64,
}

impl CursorOffsets {
    /// The offsets lie in the ranges that they are drawn from.
    pub open spec fn valid(self) -> bool {
        &&& -MAX_TS_OFFSET <= self.ts_seconds < MAX_TS_OFFSET
        &&& -MAX_HEIGHT_OFFSET <= self.height < MAX_HEIGHT_OFFSET
        &&& -MAX_TX_ID_OFFSET <= self.tx_id < MAX_TX_ID_OFFSET
        &&& -MAX_LOG_ID_OFFSET <= self.log_id < MAX_LOG_ID_OFFSET
    }
}

/// A position in the order by moment, height, transaction and log entry.
#[derive(Clone, Copy, PartialEq, Eq, Debug, Structural)]
pub struct Cursor {
    pub ts: Timestamp,
    pub height: i64,
    pub tx_id: Option<i64>,
    pub log_id: i64,
}

/// The size of `x` without its sign.
pub open spec fn magnitude(x: int) -> int {
    if x < 0 {
        -x
    } else {
        x
    }
}

/// `offset` without its sign, backwards or forwards.
pub open spec fn directed(offset: i64, backwards: bool) -> int {
    if backwards {
        -magnitude(offset as int)
    } else {
        magnitude(offset as int)
    }
}

/// `x`, or the 64-bit number closest to it.
pub open spec fn saturated(x: int) -> int {
    if x < i64::MIN {
        i64::MIN as int
    } else if x > i64::MAX {
        i64::MAX as int
    } else {
        x
    }
}

impl Cursor {
    /// The cursor lies at the given offsets from the sample, backwards or forwards in all four
    /// parts; a sample without a transaction has a cursor without one.
    pub open spec fn is_near(
        self,
        sample: TokenSample,
        offsets: CursorOffsets,
        backwards: bool,
    ) -> bool {
        &&& sample.ts.moves_to(directed(offsets.ts_seconds, backwards), self.ts)
        &&& self.height == saturated(sample.height + directed(offsets.height, backwards))
        &&& (self.tx_id is Some <==> sample.tx_id is Some)
        &&& (sample.tx_id matches Some(id) ==> self.tx_id->0 == saturated(
            id + directed(offsets.tx_id, backwards),
        ))
        &&& self.log_id == saturated(sample.log_id + directed(offsets.log_id, backwards))
    }

    /// The cursor as a row of SQL values.
    pub open spec fn sql(self) -> Seq<char> {
        "('"@ + self.ts.millis_text() + "', "@ + signed_decimal(self.height as int) + ", "@ + (
        match self.tx_id {
            Some(id) => signed_decimal(id as int),
            None => "NULL"@,
        }) + ", "@ + signed_decimal(self.log_id as int) + ")"@
    }
}

/// `x` lies at or before `y`, or at or after it.
pub open spec fn on_side(x: int, y: int, backwards: bool) -> bool {
    if backwards {
        x <= y
    } else {
        x >= y
    }
}

/// A cursor lies on the chosen side of its sample in every part, and no farther from it than
/// a day, 1000 heights, 100 transactions and 50 log entries.
pub proof fn cursor_stays_near_its_sample(
    cursor: Cursor,
    sample: TokenSample,
    offsets: CursorOffsets,
    backwards: bool,
)
    requires
        offsets.valid(),
        sample.ts.valid(),
        cursor.is_near(sample, offsets, backwards),
    ensures
        on_side(cursor.ts.secs as int, sample.ts.secs as int, backwards),
        magnitude(cursor.ts.secs - sample.ts.secs) <= 86400,
        on_side(cursor.height as int, sample.height as int, backwards),
        magnitude(cursor.height - sample.height) <= 1000,
        sample.tx_id is Some ==> on_side(
            cursor.tx_id->0 as int,
            sample.tx_id->0 as int,
            backwards,
        ),
        sample.tx_id is Some ==> magnitude(cursor.tx_id->0 - sample.tx_id->0) <= 100,
        on_side(cursor.log_id as int, sample.log_id as int, backwards),
        magnitude(cursor.log_id - sample.log_id) <= 50,
{
}

/// `x` lies from `y` as far as `offset` says, whatever its sign, before `y` or after it; or, where
/// no 64-bit number does, at the end of the numbers on that side.
pub open spec fn lies_off(x: i64, y: i64, offset: i64, backwards: bool) -> bool {
    let far = if backwards {
        y - x
    } else {
        x - y
    };
    ||| far == offset && offset >= 0
    ||| far == -offset && offset < 0
    ||| x == i64::MIN && backwards && 0 <= far && (far < offset || far < -offset)
    ||| x == i64::MAX && !backwards && 0 <= far && (far < offset || far < -offset)
}

/// A cursor lies from its sample exactly as far as its offsets say, in each of its four parts, on
/// the chosen side; only where the numbers end does it stop short.
pub proof fn cursor_lies_at_its_offsets(
    cursor: Cursor,
    sample: TokenSample,
    offsets: CursorOffsets,
    backwards: bool,
)
    requires
        cursor.is_near(sample, offsets, backwards),
    ensures
        backwards && sample.ts.nanos < 1_000_000_000 ==> cursor.ts.secs == sample.ts.secs - (if offsets.ts_seconds
            < 0 {
            -(offsets.ts_seconds as int)
        } else {
            offsets.ts_seconds as int
        }) && cursor.ts.nanos == sample.ts.nanos,
        !backwards && sample.ts.nanos < 1_000_000_000 ==> cursor.ts.secs == sample.ts.secs + (
        if offsets.ts_seconds < 0 {
            -(offsets.ts_seconds as int)
        } else {
            offsets.ts_seconds as int
        }) && cursor.ts.nanos == sample.ts.nanos,
        lies_off(cursor.height, sample.height, offsets.height, backwards),
        lies_off(cursor.log_id, sample.log_id, offsets.log_id, backwards),
        cursor.tx_id is None <==> sample.tx_id is None,
        sample.tx_id is Some ==> lies_off(cursor.tx_id->0, sample.tx_id->0, offsets.tx_id, backwards),
{
}

/// `x + y`, or the 64-bit number closest to it.
fn saturating_sum(x: i64, y: i64) -> (r: i64)
    ensures
        r == saturated(x + y),
{
    let sum: i128 = x as i128 + y as i128;
    if sum < i64::MIN as i128 {
        i64::MIN
    } else if sum > i64::MAX as i128 {
        i64::MAX
    } else {
        sum as i64
    }
}

/// The size of an offset.
fn offset_size(x: i64) -> (r: i64)
    requires
        x > i64::MIN,
    ensures
        r == magnitude(x as int),
{
    if x < 0 {
        -x
    } else {
        x
    }
}

/// An offset with the sign of its direction.
fn direct(offset: i64, backwards: bool) -> (r: i64)
    requires
        offset > i64::MIN,
    ensures
        r == directed(offset, backwards),
{
    if backwards {
        -offset_size(offset)
    } else {
        offset_size(offset)
    }
}

/// The cursor at the given offsets from a sample, before it where `use_less_than` is set and
/// after it where not.
pub fn cursor_near(
    token_sample: &TokenSample,
    offsets: CursorOffsets,
    use_less_than: bool,
) -> (r: Cursor)
    requires
        offsets.valid(),
        token_sample.ts.valid(),
        in_range(token_sample.ts.moved_secs(directed(offsets.ts_seconds, use_less_than))),
    ensures
        r.is_near(*token_sample, offsets, use_less_than),
        r.ts.valid(),
        use_less_than && token_sample.ts.nanos < 1_000_000_000 ==> r.ts.secs == token_sample.ts.secs - (if offsets.ts_seconds
            < 0 {
            -(offsets.ts_seconds as int)
        } else {
            offsets.ts_seconds as int
        }) && r.ts.nanos == token_sample.ts.nanos,
        !use_less_than && token_sample.ts.nanos < 1_000_000_000 ==> r.ts.secs == token_sample.ts.secs + (
        if offsets.ts_seconds < 0 {
            -(offsets.ts_seconds as int)
        } else {
            offsets.ts_seconds as int
        }) && r.ts.nanos == token_sample.ts.nanos,
        lies_off(r.height, token_sample.height, offsets.height, use_less_than),
        lies_off(r.log_id, token_sample.log_id, offsets.log_id, use_less_than),
        r.tx_id is None <==> token_sample.tx_id is None,
        token_sample.tx_id is Some ==> lies_off(r.tx_id->0, token_sample.tx_id->0, offsets.tx_id, use_less_than),
{
    let ts = if use_less_than {
        token_sample.ts.minus_seconds(offset_size(offsets.ts_seconds))
    } else {
        token_sample.ts.plus_seconds(offset_size(offsets.ts_seconds))
    };
    let height: i64 = saturating_sum(token_sample.height, direct(offsets.height, use_less_than));
    let tx_id: Option<i64> = match token_sample.tx_id {
        Some(id) => Some(saturating_sum(id, direct(offsets.tx_id, use_less_than))),
        None => None,
    };
    let log_id: i64 = saturating_sum(token_sample.log_id, direct(offsets.log_id, use_less_than));
    Cursor { ts, height, tx_id, log_id }
}

/// `s` holds no brace and no backtick.
pub open spec fn is_inert(s: Seq<char>) -> bool {
    forall|i: int| 0 <= i < s.len() ==> s[i] != '{' && s[i] != '}' && s[i] != '`'
}

proof fn signed_decimal_is_inert(n: int)
    ensures
        is_inert(signed_decimal(n)),
{
    if n < 0 {
        crate::text::decimal_has_digits_only((-n) as nat);
        let d = crate::text::decimal((-n) as nat);
        assert forall|i: int| 0 <= i < signed_decimal(n).len() implies signed_decimal(n)[i] != '{'
            && signed_decimal(n)[i] != '}' && signed_decimal(n)[i] != '`' by {
            if i > 0 {
                assert(signed_decimal(n)[i] == d[i - 1]);
            }
        }
    } else {
        crate::text::decimal_has_digits_only(n as nat);
        let d = crate::text::decimal(n as nat);
        assert forall|i: int| 0 <= i < d.len() implies d[i] != '{' && d[i] != '}' && d[i]
            != '`' by {
            assert(48 <= d[i] as int <= 57);
        }
    }
}

impl Cursor {
    /// The cursor as a row of SQL values.
    pub fn to_sql(&self) -> (r: String)
        requires
            self.ts.valid(),
        ensures
            r@ == self.sql(),
            is_inert(r@),
    {
        let mut sql = "('".to_owned();
        let ts = self.ts.format_millis();
        sql.append(ts.as_str());
        sql.append("', ");
        push_signed_decimal(&mut sql, self.height);
        sql.append(", ");
        match self.tx_id {
            Some(id) => push_signed_decimal(&mut sql, id),
            None => sql.append("NULL"),
        }
        sql.append(", ");
        push_signed_decimal(&mut sql, self.log_id);
        sql.append(")");
        proof {
            reveal_strlit("('");
            reveal_strlit("', ");
            reveal_strlit(", ");
            reveal_strlit("NULL");
            reveal_strlit(")");
            signed_decimal_is_inert(self.height as int);
            signed_decimal_is_inert(self.log_id as int);
            if let Some(id) = self.tx_id {
                signed_decimal_is_inert(id as int);
            }
            assert forall|i: int| 0 <= i < ts@.len() implies ts@[i] != '{' && ts@[i] != '}'
                && ts@[i] != '`' by {
                assert(crate::timestamp::is_date_time_char(ts@[i]));
            }
        }
        sql
    }
}

// ---------------------------------------------------------------------------
// Reading a cursor's text
// ---------------------------------------------------------------------------

/// What stands before the last comma of `s`.
pub open spec fn before_last_comma(s: Seq<char>) -> Seq<char>
    decreases s.len(),
{
    if s.len() == 0 {
        s
    } else if s.last() == ',' {
        s.drop_last()
    } else {
        before_last_comma(s.drop_last())
    }
}

/// What stands behind the last comma of `s`.
pub open spec fn behind_last_comma(s: Seq<char>) -> Seq<char> {
    s.skip(before_last_comma(s).len() as int + 1)
}

/// `s` is a blank and the text of the integer `n`.
pub open spec fn shows_integer(s: Seq<char>, n: int) -> bool {
    &&& s.len() > 0
    &&& s[0] == ' '
    &&& is_integer_text(s.skip(1))
    &&& integer_value(s.skip(1)) == n
}

proof fn splits_at_the_last_comma(a: Seq<char>, b: Seq<char>)
    requires
        forall|i: int| 0 <= i < b.len() ==> b[i] != ',',
    ensures
        before_last_comma(a + seq![','] + b) == a,
        behind_last_comma(a + seq![','] + b) == b,
    decreases b.len(),
{
    let s = a + seq![','] + b;
    if b.len() == 0 {
        assert(s.drop_last() =~= a);
    } else {
        let front = b.drop_last();
        assert(s.last() == b.last());
        assert(s.drop_last() =~= a + seq![','] + front);
        splits_at_the_last_comma(a, front);
    }
    assert(s.skip(a.len() as int + 1) =~= b);
}

proof fn signed_decimal_has_no_comma(n: int)
    ensures
        forall|i: int|
            0 <= i < signed_decimal(n).len() ==> #[trigger] signed_decimal(n)[i] != ',' && (
            signed_decimal(n)[i] == '-' || '0' <= signed_decimal(n)[i] <= '9'),
        signed_decimal(n).len() > 0,
{
    let size = (if n < 0 {
        -n
    } else {
        n
    }) as nat;
    let d = crate::text::decimal(size);
    crate::text::decimal_has_digits_only(size);
    crate::text::decimal_has_no_leading_zero(size);
    assert forall|i: int| 0 <= i < signed_decimal(n).len() implies #[trigger] signed_decimal(n)[i]
        != ',' && (signed_decimal(n)[i] == '-' || '0' <= signed_decimal(n)[i] <= '9') by {
        if n < 0 {
            if i > 0 {
                assert(48 <= d[i - 1] as int <= 57);
            }
        } else {
            assert(48 <= d[i] as int <= 57);
        }
    }
}

/// A reader who splits a cursor's text at its commas, from behind, finds the cursor's own log
/// entry, transaction (or `NULL`) and height, and the text of its moment in front of them.
pub proof fn cursor_text_reads_back(cursor: Cursor)
    ensures
        cursor.sql().len() > 0,
        cursor.sql().last() == ')',
        ({
            let row = cursor.sql().drop_last();
            let to_tx = before_last_comma(row);
            let to_height = before_last_comma(to_tx);
            &&& shows_integer(behind_last_comma(row), cursor.log_id as int)
            &&& cursor.tx_id matches Some(id) ==> shows_integer(
                behind_last_comma(to_tx),
                id as int,
            )
            &&& cursor.tx_id is None ==> behind_last_comma(to_tx) == seq![' ', 'N', 'U', 'L', 'L']
            &&& shows_integer(behind_last_comma(to_height), cursor.height as int)
            &&& before_last_comma(to_height) == seq!['(', '\''] + cursor.ts.millis_text() + seq![
                '\'',
            ]
        }),
{
    reveal_strlit("('");
    reveal_strlit("', ");
    reveal_strlit(", ");
    reveal_strlit("NULL");
    reveal_strlit(")");
    let blank = seq![' '];
    let comma = seq![','];
    let h = signed_decimal(cursor.height as int);
    let l = signed_decimal(cursor.log_id as int);
    let t = match cursor.tx_id {
        Some(id) => signed_decimal(id as int),
        None => "NULL"@,
    };
    let ts = seq!['(', '\''] + cursor.ts.millis_text() + seq!['\''];
    let first = ts + comma + (blank + h);
    let second = first + comma + (blank + t);
    let row = second + comma + (blank + l);
    assert(cursor.sql() =~= row.push(')'));
    assert(cursor.sql().drop_last() =~= row);
    signed_decimal_has_no_comma(cursor.height as int);
    signed_decimal_has_no_comma(cursor.log_id as int);
    crate::number::signed_decimal_reads_back(cursor.height as int);
    crate::number::signed_decimal_reads_back(cursor.log_id as int);
    assert((blank + h).skip(1) =~= h);
    assert((blank + l).skip(1) =~= l);
    assert((blank + t).skip(1) =~= t);
    if cursor.tx_id is Some {
        signed_decimal_has_no_comma(cursor.tx_id->0 as int);
        crate::number::signed_decimal_reads_back(cursor.tx_id->0 as int);
    } else {
        assert(blank + t =~= seq![' ', 'N', 'U', 'L', 'L']);
    }
    assert(forall|i: int| 0 <= i < (blank + h).len() ==> (blank + h)[i] != ',');
    assert(forall|i: int| 0 <= i < (blank + t).len() ==> (blank + t)[i] != ',');
    assert(forall|i: int| 0 <= i < (blank + l).len() ==> (blank + l)[i] != ',');
    splits_at_the_last_comma(second, blank + l);
    splits_at_the_last_comma(first, blank + t);
    splits_at_the_last_comma(ts, blank + h);
}

/// Cursors that differ in height, transaction or log entry, or in the text of their moment, never
/// share a text.
pub proof fn different_cursors_have_different_texts(a: Cursor, b: Cursor)
    requires
        a.sql() == b.sql(),
    ensures
        a.height == b.height,
        a.tx_id == b.tx_id,
        a.log_id == b.log_id,
        a.ts.millis_text() == b.ts.millis_text(),
{
    cursor_text_reads_back(a);
    cursor_text_reads_back(b);
    let null = seq![' ', 'N', 'U', 'L', 'L'];
    assert(null.skip(1)[0] == 'N');
    assert(unsigned_text(null.skip(1))[0] == 'N');
    assert(!is_integer_text(null.skip(1)));
    let x = a.ts.millis_text();
    let y = b.ts.millis_text();
    let whole_x = seq!['(', '\''] + x + seq!['\''];
    let whole_y = seq!['(', '\''] + y + seq!['\''];
    assert(whole_x == whole_y);
    assert(x =~= whole_x.subrange(2, whole_x.len() - 1));
    assert(y =~= whole_y.subrange(2, whole_y.len() - 1));
}

/// The offsets of a cursor, drawn at random.
fn draw_offsets(rng: &mut StdRng) -> (r: CursorOffsets)
    ensures
        r.valid(),
{
    let ts_seconds: i64 = draw_between(rng, -MAX_TS_OFFSET, MAX_TS_OFFSET - 1);
    let height: i64 = draw_between(rng, -MAX_HEIGHT_OFFSET, MAX_HEIGHT_OFFSET - 1);
    let tx_id: i64 = draw_between(rng, -MAX_TX_ID_OFFSET, MAX_TX_ID_OFFSET - 1);
    let log_id: i64 = draw_between(rng, -MAX_LOG_ID_OFFSET, MAX_LOG_ID_OFFSET - 1);
    CursorOffsets { ts_seconds, height, tx_id, log_id }
}

/// `sql` is a cursor at some offsets from the sample, on the chosen side of it.
pub open spec fn is_cursor_condition(
    sql: Seq<char>,
    sample: TokenSample,
    backwards: bool,
) -> bool {
    exists|cursor: Cursor, offsets: CursorOffsets|
        offsets.valid() && #[trigger] cursor.is_near(sample, offsets, backwards) && sql
            == cursor.sql()
}

/// The samples stand at the same position: they agree in moment, height, transaction and log
/// entry.
pub open spec fn same_position(a: TokenSample, b: TokenSample) -> bool {
    &&& a.ts == b.ts
    &&& a.height == b.height
    &&& a.tx_id == b.tx_id
    &&& a.log_id == b.log_id
}

/// A cursor depends on the position of its sample alone: samples at the same position have the
/// same cursor at the same offsets, and the same cursors can be drawn for them, whatever their
/// tokens, volumes and makers are.
pub proof fn cursor_depends_on_the_position_alone(
    a: Cursor,
    first: TokenSample,
    b: Cursor,
    second: TokenSample,
    offsets: CursorOffsets,
    backwards: bool,
)
    requires
        same_position(first, second),
        a.is_near(first, offsets, backwards),
        b.is_near(second, offsets, backwards),
    ensures
        a == b,
        a.sql() == b.sql(),
        forall|sql: Seq<char>| #[trigger]
            is_cursor_condition(sql, first, backwards) <==> is_cursor_condition(
                sql,
                second,
                backwards,
            ),
        cursor_fits(first, backwards) <==> cursor_fits(second, backwards),
{
    assert forall|sql: Seq<char>| #[trigger]
        is_cursor_condition(sql, first, backwards) <==> is_cursor_condition(
            sql,
            second,
            backwards,
        ) by {
        drawable_at_the_same_position(sql, first, second, backwards);
        drawable_at_the_same_position(sql, second, first, backwards);
    }
}

proof fn drawable_at_the_same_position(
    sql: Seq<char>,
    first: TokenSample,
    second: TokenSample,
    backwards: bool,
)
    requires
        same_position(first, second),
    ensures
        is_cursor_condition(sql, first, backwards) ==> is_cursor_condition(sql, second, backwards),
{
    if is_cursor_condition(sql, first, backwards) {
        let (cursor, offsets) = choose|cursor: Cursor, offsets: CursorOffsets|
            offsets.valid() && #[trigger] cursor.is_near(first, offsets, backwards) && sql
                == cursor.sql();
        assert(cursor.is_near(second, offsets, backwards));
    }
}

/// No cursor of the sample leaves the range of dates on the chosen side.
pub open spec fn cursor_fits(sample: TokenSample, backwards: bool) -> bool {
    &&& sample.ts.valid()
    &&& in_range(
        sample.ts.moved_secs(
            if backwards {
                -86400
            } else {
                86400
            },
        ),
    )
}

/// A sample fits exactly where each offset that can be drawn leads to a moment in the range of
/// dates.
pub proof fn a_sample_fits_where_each_cursor_does(sample: TokenSample, backwards: bool)
    ensures
        cursor_fits(sample, backwards) <==> sample.ts.valid() && forall|offset: i64|
            -86400 <= offset < 86400 ==> in_range(
                sample.ts.moved_secs(#[trigger] directed(offset, backwards)),
            ),
{
    let farthest = directed(-86400i64 as i64, backwards);
    assert(farthest == if backwards {
        -86400int
    } else {
        86400int
    });
}

/// Whether every cursor of the sample stays in the range of dates on the chosen side.
pub fn cursors_fit(token_sample: &TokenSample, use_less_than: bool) -> (r: bool)
    ensures
        r == cursor_fits(*token_sample, use_less_than),
{
    let farthest: i64 = if use_less_than {
        -MAX_TS_OFFSET
    } else {
        MAX_TS_OFFSET
    };
    token_sample.ts.is_valid() && is_in_range(token_sample.ts.moved_seconds(farthest))
}

/// The cursor of a range query near a sample, at random offsets: before the sample where
/// `use_less_than` is set, after it where not.
pub fn generate_cursor_condition(
    token_sample: &TokenSample,
    rng: &mut StdRng,
    use_less_than: bool,
) -> (r: String)
    requires
        cursor_fits(*token_sample, use_less_than),
    ensures
        is_cursor_condition(r@, *token_sample, use_less_than),
        exists|cursor: Cursor, offsets: CursorOffsets|
            {
                &&& -86400 <= offsets.ts_seconds < 86400
                &&& -1000 <= offsets.height < 1000
                &&& -100 <= offsets.tx_id < 100
                &&& -50 <= offsets.log_id < 50
                &&& #[trigger] cursor.is_near(*token_sample, offsets, use_less_than)
                &&& r@ == cursor.sql()
            },
        is_inert(r@),
{
    let offsets = draw_offsets(rng);
    let cursor = cursor_near(token_sample, offsets, use_less_than);
    cursor.to_sql()
}

} // verus!
