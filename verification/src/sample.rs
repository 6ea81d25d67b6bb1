//! Sampled rows and makers: what is asked of the database for them, and what is kept.

use crate::makers::{contains_after_push, with_all, MakerSet};
use crate::reading::{reads_as, Found, Part, Reading};
use crate::text::{decimal, push_decimal, texts};
use crate::timestamp::Timestamp;
use vstd::hash_set::StringHashSet;
use vstd::prelude::*;

verus! {

/// How many makers a run wants to choose from.
pub const WANTED_MAKERS: usize = 1000;

/// How many rows are asked for per sample wanted, since rows may repeat an address.
pub const ROWS_PER_SAMPLE: usize = 3;

/// A swap that was sampled, for one of its two tokens.
#[derive(Debug)]
pub struct TokenSample {
    pub token_address: String,
    pub ts: Timestamp,
    /// The bits of the volume as a 64-bit IEEE 754 number.
    pub volume_bits: Option<u64>,
    pub maker: Option<String>,
    pub height: i64,
    pub tx_id: Option<i64>,
    pub log_id: i64,
}

/// What the queries of a run draw from.
#[derive(Debug)]
pub struct SampleData {
    pub token_samples: Vec<TokenSample>,
    pub makers: Vec<String>,
}

impl SampleData {
    /// Whether there is something to draw from: a sample and a maker.
    pub fn is_usable(&self) -> (r: bool)
        ensures
            r == (self.token_samples@.len() > 0 && self.makers@.len() > 0),
    {
        !self.token_samples.is_empty() && !self.makers.is_empty()
    }
}

// ---------------------------------------------------------------------------
// One sample per address
// ---------------------------------------------------------------------------

/// The addresses of the rows.
pub open spec fn addresses(rows: Seq<TokenSample>) -> Seq<Seq<char>> {
    Seq::new(rows.len(), |i: int| rows[i].token_address@)
}

/// The rows whose address no earlier row has, in order.
pub open spec fn distinct_rows(rows: Seq<TokenSample>) -> Seq<TokenSample>
    decreases rows.len(),
{
    if rows.len() == 0 {
        Seq::empty()
    } else {
        let before = rows.drop_last();
        if addresses(before).contains(rows.last().token_address@) {
            distinct_rows(before)
        } else {
            distinct_rows(before).push(rows.last())
        }
    }
}

/// The first `limit` items of `s`, or all of them where there are fewer.
pub open spec fn at_most<A>(s: Seq<A>, limit: nat) -> Seq<A> {
    if s.len() <= limit {
        s
    } else {
        s.take(limit as int)
    }
}

/// No row before position `i` has the address of the row there.
pub open spec fn is_first(rows: Seq<TokenSample>, i: int) -> bool {
    &&& 0 <= i < rows.len()
    &&& forall|j: int|
        0 <= j < i ==> (#[trigger] rows[j]).token_address@ != rows[i].token_address@
}

/// Where the distinct rows stand among all rows.
pub open spec fn distinct_positions(rows: Seq<TokenSample>) -> Seq<int>
    decreases rows.len(),
{
    if rows.len() == 0 {
        Seq::empty()
    } else {
        let before = rows.drop_last();
        if addresses(before).contains(rows.last().token_address@) {
            distinct_positions(before)
        } else {
            distinct_positions(before).push(rows.len() - 1)
        }
    }
}

/// The distinct rows are exactly the rows that come first with their address, and they keep
/// their order.
pub proof fn first_rows_are_kept_in_order(rows: Seq<TokenSample>)
    ensures
        distinct_positions(rows).len() == distinct_rows(rows).len(),
        forall|k: int|
            0 <= k < distinct_rows(rows).len() ==> {
                let at = #[trigger] distinct_positions(rows)[k];
                is_first(rows, at) && distinct_rows(rows)[k] == rows[at]
            },
        forall|j: int, k: int|
            0 <= j < k < distinct_rows(rows).len() ==> distinct_positions(rows)[j]
                < distinct_positions(rows)[k],
        forall|i: int| is_first(rows, i) ==> #[trigger] distinct_positions(rows).contains(i),
    decreases rows.len(),
{
    if rows.len() > 0 {
        let before = rows.drop_last();
        let last = rows.len() - 1;
        first_rows_are_kept_in_order(before);
        let p = distinct_positions(rows);
        let q = distinct_positions(before);
        assert forall|i: int| is_first(before, i) <==> is_first(rows, i) && i < last by {
            if is_first(before, i) {
                assert forall|j: int| 0 <= j < i implies (#[trigger] rows[j]).token_address@
                    != rows[i].token_address@ by {
                    assert(before[j] == rows[j]);
                }
            }
            if is_first(rows, i) && i < last {
                assert forall|j: int| 0 <= j < i implies (#[trigger] before[j]).token_address@
                    != before[i].token_address@ by {
                    assert(before[j] == rows[j]);
                }
            }
        }
        let repeated = addresses(before).contains(rows.last().token_address@);
        if repeated {
            let j = choose|j: int|
                0 <= j < addresses(before).len() && addresses(before)[j]
                    == rows.last().token_address@;
            assert(before[j] == rows[j]);
            assert(!is_first(rows, last));
        } else {
            assert forall|j: int| 0 <= j < last implies (#[trigger] rows[j]).token_address@
                != rows[last].token_address@ by {
                assert(addresses(before)[j] == rows[j].token_address@);
            }
            assert(is_first(rows, last));
            assert(p =~= q.push(last));
        }
        assert forall|k: int| 0 <= k < distinct_rows(rows).len() implies ({
            let at = #[trigger] p[k];
            is_first(rows, at) && distinct_rows(rows)[k] == rows[at]
        }) by {
            if k < q.len() {
                assert(p[k] == q[k]);
                assert(is_first(before, q[k]));
                assert(before[q[k]] == rows[q[k]]);
            }
        }
        assert forall|j: int, k: int| 0 <= j < k < distinct_rows(rows).len() implies p[j]
            < p[k] by {
            assert(p[j] == q[j]);
            assert(is_first(before, q[j]));
            if k < q.len() {
                assert(p[k] == q[k]);
            }
        }
        assert forall|i: int| is_first(rows, i) implies #[trigger] p.contains(i) by {
            if i < last {
                assert(q.contains(i));
                let k = choose|k: int| 0 <= k < q.len() && q[k] == i;
                assert(p[k] == i);
            } else {
                assert(p[p.len() - 1] == i);
            }
        }
    }
}

/// No address is kept twice, and none is lost.
pub proof fn each_address_is_kept_once(rows: Seq<TokenSample>)
    ensures
        addresses(distinct_rows(rows)).no_duplicates(),
        forall|a: Seq<char>|
            addresses(distinct_rows(rows)).contains(a) <==> addresses(rows).contains(a),
    decreases rows.len(),
{
    let kept = addresses(distinct_rows(rows));
    let all = addresses(rows);
    if rows.len() == 0 {
        assert(kept =~= all);
    } else {
        let before = rows.drop_last();
        each_address_is_kept_once(before);
        let a0 = rows.last().token_address@;
        let kept_before = addresses(distinct_rows(before));
        assert(all =~= addresses(before).push(a0));
        assert forall|a: Seq<char>| all.contains(a) <==> addresses(before).contains(a) || a
            == a0 by {
            contains_after_push(addresses(before), a0, a);
        }
        if !addresses(before).contains(a0) {
            assert(kept =~= kept_before.push(a0));
            assert forall|a: Seq<char>| kept.contains(a) <==> kept_before.contains(a) || a
                == a0 by {
                contains_after_push(kept_before, a0, a);
            }
            assert(!kept_before.contains(a0));
        }
    }
}

/// How many different addresses the rows have.
pub open spec fn different_addresses(rows: Seq<TokenSample>) -> nat {
    addresses(rows).to_set().len()
}

proof fn one_distinct_row_per_address(rows: Seq<TokenSample>)
    ensures
        distinct_rows(rows).len() == different_addresses(rows),
        forall|i: int| #[trigger]
            is_first(rows, i) ==> {
                let place = different_addresses(rows.take(i)) as int;
                place < distinct_rows(rows).len() && distinct_rows(rows)[place] == rows[i]
            },
    decreases rows.len(),
{
    if rows.len() == 0 {
        assert(addresses(rows).to_set() =~= Set::<Seq<char>>::empty());
    } else {
        let before = rows.drop_last();
        let last = rows.len() - 1;
        let a0 = rows.last().token_address@;
        one_distinct_row_per_address(before);
        vstd::seq_lib::seq_to_set_is_finite(addresses(before));
        assert(addresses(rows) =~= addresses(before).push(a0));
        assert(addresses(rows).to_set() =~= addresses(before).to_set().insert(a0)) by {
            assert forall|a: Seq<char>| #[trigger]
                addresses(rows).to_set().contains(a) <==> addresses(before).to_set().insert(
                    a0,
                ).contains(a) by {
                contains_after_push(addresses(before), a0, a);
            }
        }
        assert forall|i: int| #[trigger] is_first(rows, i) implies ({
            let place = different_addresses(rows.take(i)) as int;
            place < distinct_rows(rows).len() && distinct_rows(rows)[place] == rows[i]
        }) by {
            if i < last {
                assert forall|j: int| 0 <= j < i implies (#[trigger] before[j]).token_address@
                    != before[i].token_address@ by {
                    assert(before[j] == rows[j]);
                }
                assert(is_first(before, i));
                assert(before.take(i) =~= rows.take(i));
                assert(before[i] == rows[i]);
            } else {
                assert(rows.take(i) =~= before);
                assert(!addresses(before).contains(a0)) by {
                    assert forall|j: int| 0 <= j < addresses(before).len() implies addresses(
                        before,
                    )[j] != a0 by {
                        assert(rows[j].token_address@ != rows[i].token_address@);
                    }
                }
            }
        }
    }
}

/// The samples kept of a table are as many as its rows have different addresses, `limit` at
/// most, for every limit. The row that comes first with its address, behind rows of `k` other
/// addresses, is the one kept at place `k`.
pub proof fn one_sample_is_kept_per_address(rows: Seq<TokenSample>, limit: nat)
    ensures
        at_most(distinct_rows(rows), limit).len() == if limit < different_addresses(rows) {
            limit
        } else {
            different_addresses(rows)
        },
        forall|i: int| #[trigger]
            is_first(rows, i) && different_addresses(rows.take(i)) < limit ==> at_most(
                distinct_rows(rows),
                limit,
            )[different_addresses(rows.take(i)) as int] == rows[i],
{
    one_distinct_row_per_address(rows);
}

/// Keeps the first row of each address, `limit` rows at most.
pub fn distinct_samples(rows: Vec<TokenSample>, limit: usize) -> (r: Vec<TokenSample>)
    ensures
        r@ == at_most(distinct_rows(rows@), limit as nat),
        r@.len() == if limit < different_addresses(rows@) {
            limit as nat
        } else {
            different_addresses(rows@)
        },
        forall|i: int| #[trigger]
            is_first(rows@, i) && different_addresses(rows@.take(i)) < limit
                ==> r@[different_addresses(rows@.take(i)) as int] == rows@[i],
{
    let ghost all = rows@;
    let mut seen = StringHashSet::new();
    let mut kept: Vec<TokenSample> = Vec::new();
    assert(addresses(all.take(0)).to_set() =~= Set::<Seq<char>>::empty());
    assert(all.take(0) =~= Seq::<TokenSample>::empty());
    for row in it: rows.into_iter()
        invariant
            it.seq() == all,
            seen@ == addresses(all.take(it.index() as int)).to_set(),
            kept@ == at_most(distinct_rows(all.take(it.index() as int)), limit as nat),
    {
        let ghost done = all.take(it.index() as int);
        let ghost next = all.take(it.index() + 1);
        proof {
            assert(next.drop_last() =~= done);
            assert(next.last() == row);
            assert(addresses(next) =~= addresses(done).push(row.token_address@));
            assert(addresses(next).to_set() =~= seen@.insert(row.token_address@)) by {
                assert forall|a: Seq<char>| addresses(next).to_set().contains(a) <==> seen@.insert(
                    row.token_address@,
                ).contains(a) by {
                    contains_after_push(addresses(done), row.token_address@, a);
                }
            }
        }
        let is_new = seen.insert(row.token_address.clone());
        if is_new && kept.len() < limit {
            kept.push(row);
        }
        assert(kept@ =~= at_most(distinct_rows(next), limit as nat));
    }
    proof {
        assert(all.take(all.len() as int) =~= all);
        one_sample_is_kept_per_address(all, limit as nat);
    }
    kept
}

// ---------------------------------------------------------------------------
// Fetching samples and makers
// ---------------------------------------------------------------------------

/// The maker of a sample, where it has one that is not empty.
pub open spec fn named_maker(maker: Option<String>) -> Option<Seq<char>> {
    match maker {
        Some(m) => if m@.len() > 0 {
            Some(m@)
        } else {
            None
        },
        None => None,
    }
}

/// The makers of the samples that have one, in order.
pub open spec fn sample_makers(samples: Seq<TokenSample>) -> Seq<Seq<char>>
    decreases samples.len(),
{
    if samples.len() == 0 {
        Seq::empty()
    } else {
        let before = sample_makers(samples.drop_last());
        match named_maker(samples.last().maker) {
            Some(m) => before.push(m),
            None => before,
        }
    }
}

/// The maker of a sample is its own text, wherever there is one that is not empty.
pub proof fn a_maker_is_named_by_its_text(maker: Option<String>)
    ensures
        named_maker(maker) is Some <==> maker is Some && maker->0@.len() > 0,
        named_maker(maker) matches Some(m) ==> m == maker->0@,
{
}

/// The makers of samples are collected sample by sample: one sample gives its maker, where it has
/// one that is not empty, and samples behind others give their makers behind those.
pub proof fn makers_are_collected_in_order(
    sample: TokenSample,
    a: Seq<TokenSample>,
    b: Seq<TokenSample>,
)
    ensures
        sample_makers(Seq::empty()) == Seq::<Seq<char>>::empty(),
        sample_makers(seq![sample]) == if sample.maker is Some && sample.maker->0@.len() > 0 {
            seq![sample.maker->0@]
        } else {
            Seq::<Seq<char>>::empty()
        },
        sample_makers(a + b) == sample_makers(a) + sample_makers(b),
    decreases b.len(),
{
    let none = Seq::<TokenSample>::empty();
    let one = seq![sample];
    assert(one.drop_last() =~= none);
    assert(sample_makers(none) =~= Seq::<Seq<char>>::empty());
    assert(sample_makers(one) =~= if sample.maker is Some && sample.maker->0@.len() > 0 {
        seq![sample.maker->0@]
    } else {
        Seq::<Seq<char>>::empty()
    });
    if b.len() == 0 {
        assert(a + b =~= a);
        assert(sample_makers(a) + sample_makers(b) =~= sample_makers(a));
    } else {
        let front = b.drop_last();
        assert((a + b).drop_last() =~= a + front);
        assert((a + b).last() == b.last());
        makers_are_collected_in_order(sample, a, front);
        assert(sample_makers(a + b) =~= sample_makers(a) + sample_makers(b));
    }
}

/// The statement that samples the first token of swaps.
pub open spec fn token0_sample_sql(rows: nat) -> Seq<char> {
    "SELECT token0_address, ts, volume, maker, height, tx_id, log_id FROM dquery_dex.dex_swap_tx_solana_1206 TABLESAMPLE REGIONS() WHERE token0_address IS NOT NULL LIMIT "@
        + decimal(rows)
}

/// The statement that samples the second token of swaps.
pub open spec fn token1_sample_sql(rows: nat) -> Seq<char> {
    "SELECT token1_address, ts, volume, maker, height, tx_id, log_id FROM dquery_dex_new.dex_swap_tx_solana TABLESAMPLE REGIONS() WHERE token1_address IS NOT NULL LIMIT "@
        + decimal(rows)
}

/// The statement that samples makers.
pub open spec fn maker_sample_sql(rows: nat) -> Seq<char> {
    "SELECT DISTINCT maker FROM dquery_dex.dex_swap_tx_solana_1206 TABLESAMPLE REGIONS() WHERE maker IS NOT NULL AND maker != '' LIMIT "@
        + decimal(rows)
}

/// A reader of the statement that samples first tokens finds the number of rows behind `LIMIT`.
pub proof fn token0_statement_reads_back(rows: nat)
    ensures
        reads_as(
            token0_sample_sql(rows),
            seq![
                Part::Fixed("SELECT token0_address, ts, volume, maker, height, tx_id, log_id FROM dquery_dex.dex_swap_tx_solana_1206 TABLESAMPLE REGIONS() WHERE token0_address IS NOT NULL LIMIT "@),
                Part::Number,
            ],
            seq![
                Found::Number(rows as int),
            ],
        ),
{
    let r0 = Reading::start("SELECT token0_address, ts, volume, maker, height, tx_id, log_id FROM dquery_dex.dex_swap_tx_solana_1206 TABLESAMPLE REGIONS() WHERE token0_address IS NOT NULL LIMIT "@);
    crate::reading::start_holds("SELECT token0_address, ts, volume, maker, height, tx_id, log_id FROM dquery_dex.dex_swap_tx_solana_1206 TABLESAMPLE REGIONS() WHERE token0_address IS NOT NULL LIMIT "@);
    let text = token0_sample_sql(rows);
    let layout = seq![
        Part::Fixed("SELECT token0_address, ts, volume, maker, height, tx_id, log_id FROM dquery_dex.dex_swap_tx_solana_1206 TABLESAMPLE REGIONS() WHERE token0_address IS NOT NULL LIMIT "@),
        Part::Number,
    ];
    let found = seq![
        Found::Number(rows as int),
    ];
    crate::reading::last_number_reads(r0, rows, text, layout, found);
}

/// A reader of the statement that samples second tokens finds the number of rows behind `LIMIT`.
pub proof fn token1_statement_reads_back(rows: nat)
    ensures
        reads_as(
            token1_sample_sql(rows),
            seq![
                Part::Fixed("SELECT token1_address, ts, volume, maker, height, tx_id, log_id FROM dquery_dex_new.dex_swap_tx_solana TABLESAMPLE REGIONS() WHERE token1_address IS NOT NULL LIMIT "@),
                Part::Number,
            ],
            seq![
                Found::Number(rows as int),
            ],
        ),
{
    let r0 = Reading::start("SELECT token1_address, ts, volume, maker, height, tx_id, log_id FROM dquery_dex_new.dex_swap_tx_solana TABLESAMPLE REGIONS() WHERE token1_address IS NOT NULL LIMIT "@);
    crate::reading::start_holds("SELECT token1_address, ts, volume, maker, height, tx_id, log_id FROM dquery_dex_new.dex_swap_tx_solana TABLESAMPLE REGIONS() WHERE token1_address IS NOT NULL LIMIT "@);
    let text = token1_sample_sql(rows);
    let layout = seq![
        Part::Fixed("SELECT token1_address, ts, volume, maker, height, tx_id, log_id FROM dquery_dex_new.dex_swap_tx_solana TABLESAMPLE REGIONS() WHERE token1_address IS NOT NULL LIMIT "@),
        Part::Number,
    ];
    let found = seq![
        Found::Number(rows as int),
    ];
    crate::reading::last_number_reads(r0, rows, text, layout, found);
}

/// A reader of the statement that samples makers finds the number of rows behind `LIMIT`.
pub proof fn maker_statement_reads_back(rows: nat)
    ensures
        reads_as(
            maker_sample_sql(rows),
            seq![
                Part::Fixed("SELECT DISTINCT maker FROM dquery_dex.dex_swap_tx_solana_1206 TABLESAMPLE REGIONS() WHERE maker IS NOT NULL AND maker != '' LIMIT "@),
                Part::Number,
            ],
            seq![
                Found::Number(rows as int),
            ],
        ),
{
    let r0 = Reading::start("SELECT DISTINCT maker FROM dquery_dex.dex_swap_tx_solana_1206 TABLESAMPLE REGIONS() WHERE maker IS NOT NULL AND maker != '' LIMIT "@);
    crate::reading::start_holds("SELECT DISTINCT maker FROM dquery_dex.dex_swap_tx_solana_1206 TABLESAMPLE REGIONS() WHERE maker IS NOT NULL AND maker != '' LIMIT "@);
    let text = maker_sample_sql(rows);
    let layout = seq![
        Part::Fixed("SELECT DISTINCT maker FROM dquery_dex.dex_swap_tx_solana_1206 TABLESAMPLE REGIONS() WHERE maker IS NOT NULL AND maker != '' LIMIT "@),
        Part::Number,
    ];
    let found = seq![
        Found::Number(rows as int),
    ];
    crate::reading::last_number_reads(r0, rows, text, layout, found);
}

/// What a collection waits for.
#[derive(Clone, Copy, PartialEq, Eq, Debug, Structural)]
pub enum FetchStage {
    /// Rows of the first token.
    Token0,
    /// Rows of the second token.
    Token1,
    /// Makers, since those of the samples are too few.
    Makers,
    /// Nothing more.
    Done,
}

/// What a collection asks of the database next.
#[derive(Debug)]
pub enum FetchRequest {
    /// Rows of the first token, by this statement.
    Token0Rows(String),
    /// Rows of the second token, by this statement.
    Token1Rows(String),
    /// Makers, by this statement.
    MakerRows(String),
    /// Nothing: the collection is complete.
    Nothing,
}

/// The collection of samples and makers for a run: the rows of the first token, the rows of
/// the second, the makers of both, and more makers where those are too few.
pub struct SampleFetch {
    /// How many samples of each token are kept.
    pub limit: usize,
    /// What is waited for.
    pub stage: FetchStage,
    /// The samples kept so far.
    pub token_samples: Vec<TokenSample>,
    /// The makers found so far.
    pub makers: MakerSet,
}

impl SampleFetch {
    /// The number of rows to ask for can be counted, the makers are in order, and makers are
    /// waited for only where some are missing.
    pub open spec fn valid(self) -> bool {
        &&& self.limit * ROWS_PER_SAMPLE <= usize::MAX
        &&& self.makers.valid()
        &&& self.stage is Makers ==> self.makers@.len() < WANTED_MAKERS
    }

    /// A collection that has found nothing.
    pub open spec fn is_start(self, limit: usize) -> bool {
        &&& self.limit == limit
        &&& self.stage is Token0
        &&& self.token_samples@ == Seq::<TokenSample>::empty()
        &&& self.makers@ == Seq::<Seq<char>>::empty()
    }

    /// `after` is the collection once it has taken the rows of one token: it has kept one sample
    /// per address of them up to the limit. With the second token's rows it also takes the
    /// makers of all samples, and waits for more where those are too few.
    pub open spec fn takes_rows(self, rows: Seq<TokenSample>, after: SampleFetch) -> bool {
        &&& after.limit == self.limit
        &&& after.token_samples@ == self.token_samples@ + at_most(
            distinct_rows(rows),
            self.limit as nat,
        )
        &&& if self.stage is Token0 {
            &&& after.stage is Token1
            &&& after.makers@ == self.makers@
        } else {
            &&& after.makers@ == with_all(self.makers@, sample_makers(after.token_samples@))
            &&& after.stage == if after.makers@.len() < WANTED_MAKERS {
                FetchStage::Makers
            } else {
                FetchStage::Done
            }
        }
    }

    /// `after` is the collection once it has taken the makers that it waited for.
    pub open spec fn takes_makers(self, rows: Seq<Seq<char>>, after: SampleFetch) -> bool {
        &&& after.limit == self.limit
        &&& after.token_samples@ == self.token_samples@
        &&& after.makers@ == with_all(self.makers@, rows)
        &&& after.stage is Done
    }

    /// A collection that has found nothing.
    pub fn new(limit: usize) -> (r: SampleFetch)
        requires
            limit * ROWS_PER_SAMPLE <= usize::MAX,
        ensures
            r.valid(),
            r.is_start(limit),
    {
        SampleFetch {
            limit,
            stage: FetchStage::Token0,
            token_samples: Vec::new(),
            makers: MakerSet::new(),
        }
    }

    /// What is asked of the database next.
    pub fn request(&self) -> (r: FetchRequest)
        requires
            self.valid(),
        ensures
            match self.stage {
                FetchStage::Token0 => r is Token0Rows && r->Token0Rows_0@ == token0_sample_sql(
                    (self.limit * ROWS_PER_SAMPLE) as nat,
                ),
                FetchStage::Token1 => r is Token1Rows && r->Token1Rows_0@ == token1_sample_sql(
                    (self.limit * ROWS_PER_SAMPLE) as nat,
                ),
                FetchStage::Makers => r is MakerRows && r->MakerRows_0@ == maker_sample_sql(
                    (WANTED_MAKERS - self.makers@.len()) as nat,
                ),
                FetchStage::Done => r is Nothing,
            },
            self.stage is Token0 ==> r is Token0Rows && r->Token0Rows_0@ == token0_sample_sql(
                (self.limit * 3) as nat,
            ),
            self.stage is Token1 ==> r is Token1Rows && r->Token1Rows_0@ == token1_sample_sql(
                (self.limit * 3) as nat,
            ),
            self.stage is Makers ==> r is MakerRows && r->MakerRows_0@ == maker_sample_sql(
                (1000 - self.makers@.len()) as nat,
            ),
    {
        match self.stage {
            FetchStage::Token0 => {
                let mut sql =
                    "SELECT token0_address, ts, volume, maker, height, tx_id, log_id FROM dquery_dex.dex_swap_tx_solana_1206 TABLESAMPLE REGIONS() WHERE token0_address IS NOT NULL LIMIT ".to_owned();
                push_decimal(&mut sql, (self.limit * ROWS_PER_SAMPLE) as u128);
                FetchRequest::Token0Rows(sql)
            },
            FetchStage::Token1 => {
                let mut sql =
                    "SELECT token1_address, ts, volume, maker, height, tx_id, log_id FROM dquery_dex_new.dex_swap_tx_solana TABLESAMPLE REGIONS() WHERE token1_address IS NOT NULL LIMIT ".to_owned();
                push_decimal(&mut sql, (self.limit * ROWS_PER_SAMPLE) as u128);
                FetchRequest::Token1Rows(sql)
            },
            FetchStage::Makers => {
                let mut sql =
                    "SELECT DISTINCT maker FROM dquery_dex.dex_swap_tx_solana_1206 TABLESAMPLE REGIONS() WHERE maker IS NOT NULL AND maker != '' LIMIT ".to_owned();
                push_decimal(&mut sql, (WANTED_MAKERS - self.makers.len()) as u128);
                FetchRequest::MakerRows(sql)
            },
            FetchStage::Done => FetchRequest::Nothing,
        }
    }

    /// Takes the rows of the token that was waited for, and tells how many samples it keeps of
    /// them.
    pub fn accept_rows(&mut self, rows: Vec<TokenSample>) -> (r: usize)
        requires
            old(self).valid(),
            old(self).stage is Token0 || old(self).stage is Token1,
        ensures
            final(self).valid(),
            old(self).takes_rows(rows@, *final(self)),
            r == at_most(distinct_rows(rows@), old(self).limit as nat).len(),
            r == if old(self).limit < different_addresses(rows@) {
                old(self).limit as nat
            } else {
                different_addresses(rows@)
            },
            final(self).limit == old(self).limit,
            final(self).token_samples@.len() == old(self).token_samples@.len() + r,
            final(self).token_samples@.take(old(self).token_samples@.len() as int)
                == old(self).token_samples@,
            forall|i: int| #[trigger]
                is_first(rows@, i) && different_addresses(rows@.take(i)) < old(self).limit
                    ==> final(self).token_samples@[(old(self).token_samples@.len()
                    + different_addresses(rows@.take(i))) as int] == rows@[i],
            old(self).stage is Token0 ==> final(self).stage is Token1 && final(self).makers@
                == old(self).makers@,
            old(self).stage is Token1 && final(self).makers@.len() < 1000 ==> final(self).stage is Makers,
            old(self).stage is Token1 && final(self).makers@.len() >= 1000 ==> final(self).stage is Done,
    {
        let mut kept = distinct_samples(rows, self.limit);
        let count = kept.len();
        let ghost before = self.token_samples@;
        let ghost found = kept@;
        self.token_samples.append(&mut kept);
        proof {
            assert(self.token_samples@.take(before.len() as int) =~= before);
            one_sample_is_kept_per_address(rows@, self.limit as nat);
            assert forall|i: int| #[trigger]
                is_first(rows@, i) && different_addresses(rows@.take(i)) < self.limit implies
                self.token_samples@[(before.len() + different_addresses(rows@.take(i))) as int]
                == rows@[i] by {
                assert(different_addresses(rows@.take(i)) < found.len()) by {
                    one_distinct_row_per_address(rows@);
                }
            }
        }
        match self.stage {
            FetchStage::Token0 => {
                self.stage = FetchStage::Token1;
            },
            _ => {
                self.gather_makers();
                if self.makers.len() < WANTED_MAKERS {
                    self.stage = FetchStage::Makers;
                } else {
                    self.stage = FetchStage::Done;
                }
            },
        }
        count
    }

    /// Takes the makers of the samples.
    fn gather_makers(&mut self)
        requires
            old(self).makers.valid(),
        ensures
            final(self).makers.valid(),
            final(self).limit == old(self).limit,
            final(self).stage == old(self).stage,
            final(self).token_samples@ == old(self).token_samples@,
            final(self).makers@ == with_all(
                old(self).makers@,
                sample_makers(old(self).token_samples@),
            ),
    {
        let ghost before = self.makers@;
        let ghost samples = self.token_samples@;
        let mut i: usize = 0;
        assert(samples.take(0) =~= Seq::<TokenSample>::empty());
        while i < self.token_samples.len()
            invariant
                i <= samples.len(),
                self.token_samples@ == samples,
                self.makers.valid(),
                self.limit == old(self).limit,
                self.stage == old(self).stage,
                self.makers@ == with_all(before, sample_makers(samples.take(i as int))),
            decreases samples.len() - i,
        {
            let ghost done = sample_makers(samples.take(i as int));
            let ghost next = samples.take(i + 1);
            assert(next.drop_last() =~= samples.take(i as int));
            if let Some(m) = &self.token_samples[i].maker {
                if !m.as_str().is_empty() {
                    assert(done.push(m@).drop_last() =~= done);
                    let maker = m.clone();
                    self.makers.insert(maker);
                }
            }
            i += 1;
        }
        assert(samples.take(i as int) =~= samples);
    }

    /// Takes the makers that were waited for.
    pub fn accept_makers(&mut self, rows: Vec<String>)
        requires
            old(self).valid(),
            old(self).stage is Makers,
        ensures
            final(self).valid(),
            old(self).takes_makers(texts(rows@), *final(self)),
    {
        self.makers.insert_all(rows);
        self.stage = FetchStage::Done;
    }

    /// What was found.
    pub fn finish(self) -> (r: SampleData)
        requires
            self.valid(),
        ensures
            r.token_samples@ == self.token_samples@,
            texts(r.makers@) == self.makers@,
            texts(r.makers@).no_duplicates(),
    {
        SampleData { token_samples: self.token_samples, makers: self.makers.into_list() }
    }
}

/// The samples that a collection ends with: those of the first token, then those of the second.
pub open spec fn collected_samples(
    rows0: Seq<TokenSample>,
    rows1: Seq<TokenSample>,
    limit: nat,
) -> Seq<TokenSample> {
    at_most(distinct_rows(rows0), limit) + at_most(distinct_rows(rows1), limit)
}

/// A collection that has taken the rows of both tokens, and makers where it waited for them, is
/// complete: it holds the samples of the first token and then those of the second, at most
/// `limit` of each, and the makers of the samples and those sampled on their own, each once.
pub proof fn collection_is_complete(
    start: SampleFetch,
    rows0: Seq<TokenSample>,
    half: SampleFetch,
    rows1: Seq<TokenSample>,
    both: SampleFetch,
    more: Seq<Seq<char>>,
    end: SampleFetch,
)
    requires
        start.is_start(start.limit),
        start.takes_rows(rows0, half),
        half.takes_rows(rows1, both),
        if both.stage is Makers {
            both.takes_makers(more, end)
        } else {
            more.len() == 0 && end == both
        },
    ensures
        end.stage is Done,
        end.token_samples@ == collected_samples(rows0, rows1, start.limit as nat),
        end.token_samples@.len() <= 2 * start.limit,
        end.makers@.no_duplicates(),
        forall|x: Seq<char>| #[trigger]
            end.makers@.contains(x) <==> more.contains(x) || exists|i: int|
                0 <= i < end.token_samples@.len() && named_maker(
                    (#[trigger] end.token_samples@[i]).maker,
                ) == Some(x),
        end.token_samples@.len() == (if start.limit < different_addresses(rows0) {
            start.limit as nat
        } else {
            different_addresses(rows0)
        }) + (if start.limit < different_addresses(rows1) {
            start.limit as nat
        } else {
            different_addresses(rows1)
        }),
        both.stage is Makers <==> both.makers@.len() < 1000,
        forall|i: int|
            0 <= i < end.token_samples@.len() && (#[trigger] end.token_samples@[i]).maker is Some
                && end.token_samples@[i].maker->0@.len() > 0 ==> end.makers@.contains(
                end.token_samples@[i].maker->0@,
            ),
{
    one_sample_is_kept_per_address(rows0, start.limit as nat);
    one_sample_is_kept_per_address(rows1, start.limit as nat);
    let samples = collected_samples(rows0, rows1, start.limit as nat);
    assert(end.token_samples@ =~= samples);
    let named = sample_makers(samples);
    let none = Seq::<Seq<char>>::empty();
    crate::makers::insertion_is_union(none, named);
    let first = with_all(none, named);
    assert(both.makers@ == first);
    crate::makers::insertion_is_union(first, more);
    sample_makers_are_those_named(samples);
    let makers = with_all(first, more);
    assert(end.makers@ == makers);
    assert forall|x: Seq<char>| #[trigger] end.makers@.contains(x) <==> more.contains(x) || exists|
        i: int,
    |
        0 <= i < end.token_samples@.len() && named_maker((#[trigger] end.token_samples@[i]).maker)
            == Some(x) by {
        assert(makers.contains(x) <==> first.contains(x) || more.contains(x));
        assert(first.contains(x) <==> named.contains(x));
    }
}

proof fn sample_makers_are_those_named(samples: Seq<TokenSample>)
    ensures
        forall|x: Seq<char>| #[trigger]
            sample_makers(samples).contains(x) <==> exists|i: int|
                0 <= i < samples.len() && named_maker((#[trigger] samples[i]).maker) == Some(x),
    decreases samples.len(),
{
    if samples.len() > 0 {
        let before = samples.drop_last();
        sample_makers_are_those_named(before);
        let last = samples.len() - 1;
        assert forall|x: Seq<char>| #[trigger] sample_makers(samples).contains(x) <==> exists|
            i: int,
        |
            0 <= i < samples.len() && named_maker((#[trigger] samples[i]).maker) == Some(x) by {
            if let Some(m) = named_maker(samples.last().maker) {
                contains_after_push(sample_makers(before), m, x);
            }
            if sample_makers(before).contains(x) {
                let i = choose|i: int|
                    0 <= i < before.len() && named_maker((#[trigger] before[i]).maker) == Some(x);
                assert(samples[i] == before[i]);
            }
            if named_maker(samples.last().maker) == Some(x) {
                assert(samples[last] == samples.last());
            }
            if exists|i: int|
                0 <= i < samples.len() && named_maker((#[trigger] samples[i]).maker) == Some(x) {
                let i = choose|i: int|
                    0 <= i < samples.len() && named_maker((#[trigger] samples[i]).maker) == Some(
                        x,
                    );
                if i < last {
                    assert(before[i] == samples[i]);
                }
            }
        }
    }
}

} // verus!
