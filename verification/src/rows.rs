//! The rows of a query's answer, and whether two answers are the same.

use crate::number::{same_number, Decimal};
use crate::timestamp::Timestamp;
use vstd::prelude::*;

verus! {

/// A row of the first query type.
#[derive(Debug)]
pub struct UnionQueryResult {
    pub ts: Timestamp,
    pub tx_type: i8,
    pub token0_address: String,
    pub token1_address: Option<String>,
    pub token0_symbol: Option<String>,
    pub token1_symbol: Option<String>,
    pub token0_volume: Option<Decimal>,
    pub token1_volume: Option<Decimal>,
    pub token0_price_usd: Option<Decimal>,
    pub token1_price_usd: Option<Decimal>,
    pub quote: Option<Decimal>,
    pub volume: Option<Decimal>,
    pub quote_index: Option<i8>,
    pub maker: Option<String>,
    pub exclude: Option<i8>,
    pub factory: Option<String>,
    pub tx_hash: String,
    pub height: i64,
    pub tx_id: Option<i64>,
    pub log_id: i64,
    pub token0_top_pools: i8,
    pub token1_top_pools: i8,
}

/// A row of the second and later query types: a swap, and the position type of each token.
#[derive(Debug)]
pub struct UnionQueryResultWithPosition {
    pub swap: UnionQueryResult,
    pub token0_position_type: Option<i8>,
    pub token1_position_type: Option<i8>,
}

/// The contents of a text that may be missing.
pub open spec fn text_of(text: Option<String>) -> Option<Seq<char>> {
    match text {
        Some(t) => Some(t@),
        None => None,
    }
}

/// The lowest form of a number that may be missing.
pub open spec fn decimal_of(number: Option<Decimal>) -> Option<(int, int)> {
    match number {
        Some(n) => Some(n@),
        None => None,
    }
}

/// A row that can be compared with another.
pub trait ResultRow: Sized {
    /// The rows agree in every column.
    spec fn agrees(self, other: Self) -> bool;

    /// Whether the rows agree in every column.
    fn is_same(&self, other: &Self) -> (r: bool)
        ensures
            r == (*self).agrees(*other),
    ;
}

/// Whether two texts that may be missing are equal.
fn same_text(a: &Option<String>, b: &Option<String>) -> (r: bool)
    ensures
        r == (text_of(*a) == text_of(*b)),
{
    match (a, b) {
        (Some(x), Some(y)) => *x == *y,
        (None, None) => true,
        _ => false,
    }
}

/// Whether two numbers with a fraction that may be missing are equal.
fn same_decimal(a: &Option<Decimal>, b: &Option<Decimal>) -> (r: bool)
    ensures
        r == (decimal_of(*a) == decimal_of(*b)),
{
    match (a, b) {
        (Some(x), Some(y)) => x.is_equal(y),
        (None, None) => true,
        _ => false,
    }
}

/// Whether two small numbers that may be missing are equal.
fn same_small(a: Option<i8>, b: Option<i8>) -> (r: bool)
    ensures
        r == (a == b),
{
    match (a, b) {
        (Some(x), Some(y)) => x == y,
        (None, None) => true,
        _ => false,
    }
}

/// Whether two row numbers that may be missing are equal.
fn same_id(a: Option<i64>, b: Option<i64>) -> (r: bool)
    ensures
        r == (a == b),
{
    match (a, b) {
        (Some(x), Some(y)) => x == y,
        (None, None) => true,
        _ => false,
    }
}

impl ResultRow for UnionQueryResult {
    open spec fn agrees(self, other: Self) -> bool {
        &&& self.ts == other.ts
        &&& self.tx_type == other.tx_type
        &&& self.token0_address@ == other.token0_address@
        &&& text_of(self.token1_address) == text_of(other.token1_address)
        &&& text_of(self.token0_symbol) == text_of(other.token0_symbol)
        &&& text_of(self.token1_symbol) == text_of(other.token1_symbol)
        &&& decimal_of(self.token0_volume) == decimal_of(other.token0_volume)
        &&& decimal_of(self.token1_volume) == decimal_of(other.token1_volume)
        &&& decimal_of(self.token0_price_usd) == decimal_of(other.token0_price_usd)
        &&& decimal_of(self.token1_price_usd) == decimal_of(other.token1_price_usd)
        &&& decimal_of(self.quote) == decimal_of(other.quote)
        &&& decimal_of(self.volume) == decimal_of(other.volume)
        &&& self.quote_index == other.quote_index
        &&& text_of(self.maker) == text_of(other.maker)
        &&& self.exclude == other.exclude
        &&& text_of(self.factory) == text_of(other.factory)
        &&& self.tx_hash@ == other.tx_hash@
        &&& self.height == other.height
        &&& self.tx_id == other.tx_id
        &&& self.log_id == other.log_id
        &&& self.token0_top_pools == other.token0_top_pools
        &&& self.token1_top_pools == other.token1_top_pools
    }

    fn is_same(&self, other: &Self) -> (r: bool) {
        self.ts == other.ts
            && self.tx_type == other.tx_type
            && self.token0_address == other.token0_address
            && same_text(&self.token1_address, &other.token1_address)
            && same_text(&self.token0_symbol, &other.token0_symbol)
            && same_text(&self.token1_symbol, &other.token1_symbol)
            && same_decimal(&self.token0_volume, &other.token0_volume)
            && same_decimal(&self.token1_volume, &other.token1_volume)
            && same_decimal(&self.token0_price_usd, &other.token0_price_usd)
            && same_decimal(&self.token1_price_usd, &other.token1_price_usd)
            && same_decimal(&self.quote, &other.quote)
            && same_decimal(&self.volume, &other.volume)
            && same_small(self.quote_index, other.quote_index)
            && same_text(&self.maker, &other.maker)
            && same_small(self.exclude, other.exclude)
            && same_text(&self.factory, &other.factory)
            && self.tx_hash == other.tx_hash
            && self.height == other.height
            && same_id(self.tx_id, other.tx_id)
            && self.log_id == other.log_id
            && self.token0_top_pools == other.token0_top_pools
            && self.token1_top_pools == other.token1_top_pools
    }
}

impl ResultRow for UnionQueryResultWithPosition {
    open spec fn agrees(self, other: Self) -> bool {
        &&& self.swap.agrees(other.swap)
        &&& self.token0_position_type == other.token0_position_type
        &&& self.token1_position_type == other.token1_position_type
    }

    fn is_same(&self, other: &Self) -> (r: bool) {
        self.swap.is_same(&other.swap) && same_small(
            self.token0_position_type,
            other.token0_position_type,
        ) && same_small(self.token1_position_type, other.token1_position_type)
    }
}

/// How an answer compares with the one it is verified by.
#[derive(Clone, Copy, PartialEq, Eq, Debug, Structural)]
pub enum Verification {
    /// The answers differ in their number of rows.
    RowCountMismatch { target: usize, verify: usize },
    /// The answers have as many rows, but not the same ones.
    ContentMismatch { rows: usize },
    /// The answers are the same, row by row.
    Passed { rows: usize },
}

/// The answers agree row by row.
pub open spec fn all_agree<R: ResultRow>(target: Seq<R>, verify: Seq<R>) -> bool {
    &&& target.len() == verify.len()
    &&& forall|i: int| 0 <= i < target.len() ==> (#[trigger] target[i]).agrees(verify[i])
}

/// How an answer compares with the one it is verified by.
pub open spec fn verification_of<R: ResultRow>(target: Seq<R>, verify: Seq<R>) -> Verification {
    if target.len() != verify.len() {
        Verification::RowCountMismatch {
            target: target.len() as usize,
            verify: verify.len() as usize,
        }
    } else if !all_agree(target, verify) {
        Verification::ContentMismatch { rows: target.len() as usize }
    } else {
        Verification::Passed { rows: verify.len() as usize }
    }
}

/// Compares an answer with the one it is verified by.
pub fn compare_rows<R: ResultRow>(target: &Vec<R>, verify: &Vec<R>) -> (r: Verification)
    ensures
        r == verification_of(target@, verify@),
        r is RowCountMismatch <==> target@.len() != verify@.len(),
        r is Passed <==> target@.len() == verify@.len() && forall|i: int|
            0 <= i < target@.len() ==> (#[trigger] target@[i]).agrees(verify@[i]),
        r matches Verification::RowCountMismatch { target: t, verify: v } ==> t == target@.len()
            && v == verify@.len(),
        r matches Verification::ContentMismatch { rows } ==> rows == target@.len(),
        r matches Verification::Passed { rows } ==> rows == target@.len(),
{
    if target.len() != verify.len() {
        return Verification::RowCountMismatch { target: target.len(), verify: verify.len() };
    }
    let mut i: usize = 0;
    while i < target.len()
        invariant
            i <= target@.len(),
            target@.len() == verify@.len(),
            forall|j: int| 0 <= j < i ==> (#[trigger] target@[j]).agrees(verify@[j]),
        decreases target@.len() - i,
    {
        if !target[i].is_same(&verify[i]) {
            assert(!target@[i as int].agrees(verify@[i as int]));
            return Verification::ContentMismatch { rows: target.len() };
        }
        i += 1;
    }
    Verification::Passed { rows: verify.len() }
}

/// Two texts that may be missing are both missing or both there with the same contents.
pub open spec fn same_contents(a: Option<String>, b: Option<String>) -> bool {
    (a is None && b is None) || (a is Some && b is Some && a->0@ == b->0@)
}

/// Two numbers that may be missing are both missing or both there and the same number: the one's
/// coefficient with its decimal places is the other's with its own.
pub open spec fn same_amount(a: Option<Decimal>, b: Option<Decimal>) -> bool {
    (a is None && b is None) || (a is Some && b is Some && same_number(
        a->0@.0,
        a->0@.1,
        b->0@.0,
        b->0@.1,
    ))
}

proof fn one_lowest_form_is_one_number(a: Option<Decimal>, b: Option<Decimal>)
    requires
        decimal_of(a) == decimal_of(b),
    ensures
        same_amount(a, b),
{
    if a is Some {
        let c = a->0@.0;
        let p = crate::number::power_of_ten(0);
        assert(c * p == c) by (nonlinear_arith)
            requires
                p == 1,
        ;
    }
}

/// Rows that agree are equal in each of their columns, numbers by what they stand for; and rows
/// that differ in any one column do not agree.
pub proof fn rows_that_agree_are_equal_in_each_column(a: UnionQueryResult, b: UnionQueryResult)
    ensures
        a.agrees(b) ==> {
            &&& a.ts.secs == b.ts.secs && a.ts.nanos == b.ts.nanos
            &&& a.tx_type == b.tx_type
            &&& a.token0_address@ == b.token0_address@
            &&& same_contents(a.token1_address, b.token1_address)
            &&& same_contents(a.token0_symbol, b.token0_symbol)
            &&& same_contents(a.token1_symbol, b.token1_symbol)
            &&& same_amount(a.token0_volume, b.token0_volume)
            &&& same_amount(a.token1_volume, b.token1_volume)
            &&& same_amount(a.token0_price_usd, b.token0_price_usd)
            &&& same_amount(a.token1_price_usd, b.token1_price_usd)
            &&& same_amount(a.quote, b.quote)
            &&& same_amount(a.volume, b.volume)
            &&& a.quote_index == b.quote_index
            &&& same_contents(a.maker, b.maker)
            &&& a.exclude == b.exclude
            &&& same_contents(a.factory, b.factory)
            &&& a.tx_hash@ == b.tx_hash@
            &&& a.height == b.height
            &&& a.tx_id == b.tx_id
            &&& a.log_id == b.log_id
            &&& a.token0_top_pools == b.token0_top_pools
            &&& a.token1_top_pools == b.token1_top_pools
        },
{
    if a.agrees(b) {
        one_lowest_form_is_one_number(a.token0_volume, b.token0_volume);
        one_lowest_form_is_one_number(a.token1_volume, b.token1_volume);
        one_lowest_form_is_one_number(a.token0_price_usd, b.token0_price_usd);
        one_lowest_form_is_one_number(a.token1_price_usd, b.token1_price_usd);
        one_lowest_form_is_one_number(a.quote, b.quote);
        one_lowest_form_is_one_number(a.volume, b.volume);
    }
}

/// Rows that are equal in each of their columns agree: nothing else tells rows apart.
pub proof fn rows_equal_in_each_column_agree(a: UnionQueryResult, b: UnionQueryResult)
    requires
        a.ts.secs == b.ts.secs && a.ts.nanos == b.ts.nanos,
        a.tx_type == b.tx_type,
        a.token0_address@ == b.token0_address@,
        same_contents(a.token1_address, b.token1_address),
        same_contents(a.token0_symbol, b.token0_symbol),
        same_contents(a.token1_symbol, b.token1_symbol),
        a.token0_volume is Some <==> b.token0_volume is Some,
        a.token0_volume is Some ==> a.token0_volume->0@ == b.token0_volume->0@,
        a.token1_volume is Some <==> b.token1_volume is Some,
        a.token1_volume is Some ==> a.token1_volume->0@ == b.token1_volume->0@,
        a.token0_price_usd is Some <==> b.token0_price_usd is Some,
        a.token0_price_usd is Some ==> a.token0_price_usd->0@ == b.token0_price_usd->0@,
        a.token1_price_usd is Some <==> b.token1_price_usd is Some,
        a.token1_price_usd is Some ==> a.token1_price_usd->0@ == b.token1_price_usd->0@,
        a.quote is Some <==> b.quote is Some,
        a.quote is Some ==> a.quote->0@ == b.quote->0@,
        a.volume is Some <==> b.volume is Some,
        a.volume is Some ==> a.volume->0@ == b.volume->0@,
        a.quote_index == b.quote_index,
        same_contents(a.maker, b.maker),
        a.exclude == b.exclude,
        same_contents(a.factory, b.factory),
        a.tx_hash@ == b.tx_hash@,
        a.height == b.height,
        a.tx_id == b.tx_id,
        a.log_id == b.log_id,
        a.token0_top_pools == b.token0_top_pools,
        a.token1_top_pools == b.token1_top_pools,
    ensures
        a.agrees(b),
{
}

/// Rows with position types agree exactly where their swaps do and both position types are equal.
pub proof fn position_types_are_compared(
    a: UnionQueryResultWithPosition,
    b: UnionQueryResultWithPosition,
)
    ensures
        a.agrees(b) <==> a.swap.agrees(b.swap) && a.token0_position_type == b.token0_position_type
            && a.token1_position_type == b.token1_position_type,
{
}

/// An answer passes exactly where it has as many rows as the other and each of them agrees with
/// the other's row in its place; otherwise the report says whether the counts or the rows differ.
/// One row that does not agree is enough.
pub proof fn one_row_decides<R: ResultRow>(target: Seq<R>, verify: Seq<R>, i: int)
    requires
        target.len() <= usize::MAX,
        verify.len() <= usize::MAX,
    ensures
        verification_of(target, verify) is RowCountMismatch <==> target.len() != verify.len(),
        0 <= i < target.len() && target.len() == verify.len() && !target[i].agrees(verify[i])
            ==> verification_of(target, verify) == (Verification::ContentMismatch {
            rows: target.len() as usize,
        }),
        verification_of(target, verify) is Passed && 0 <= i < target.len() ==> target.len()
            == verify.len() && target[i].agrees(verify[i]),
        verification_of(target, verify) is ContentMismatch ==> exists|j: int|
            0 <= j < target.len() && !(#[trigger] target[j]).agrees(verify[j]),
        verification_of(target, verify) matches Verification::RowCountMismatch {
            target: t,
            verify: v,
        } ==> t == target.len() && v == verify.len(),
        verification_of(target, verify) matches Verification::ContentMismatch { rows } ==> rows
            == target.len(),
        verification_of(target, verify) matches Verification::Passed { rows } ==> rows
            == target.len(),
{
}

/// An answer passes when it is verified by itself.
pub proof fn an_answer_verifies_itself(rows: Seq<UnionQueryResult>)
    requires
        rows.len() <= usize::MAX,
    ensures
        verification_of(rows, rows) == (Verification::Passed { rows: rows.len() as usize }),
{
}

/// An answer with position types passes when it is verified by itself.
pub proof fn an_answer_with_positions_verifies_itself(rows: Seq<UnionQueryResultWithPosition>)
    requires
        rows.len() <= usize::MAX,
    ensures
        verification_of(rows, rows) == (Verification::Passed { rows: rows.len() as usize }),
{
}

} // verus!
