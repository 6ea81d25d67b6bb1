//! Random draws with `rand`.

use rand::rngs::StdRng;
use rand::seq::SliceRandom;
use rand::Rng;
use vstd::prelude::*;

verus! {

/// The generator that `rand` recommends, carried through unseen.
#[verifier::external_type_specification]
#[verifier::external_body]
pub struct ExStdRng(StdRng);

/// `rand::Rng::gen_range` over a range of integers, both ends included: some number of the
/// range.
#[verifier::external_body]
pub(crate) fn draw_between(rng: &mut StdRng, low: i64, high: i64) -> (r: i64)
    requires
        low <= high,
    ensures
        low <= r <= high,
{
    rng.gen_range(low..=high)
}

/// `rand::seq::SliceRandom::choose`: some item of the list, or `None` where the list is empty.
#[verifier::external_body]
pub(crate) fn choose_one<'a, T>(items: &'a Vec<T>, rng: &mut StdRng) -> (r: Option<&'a T>)
    ensures
        r is None <==> items@.len() == 0,
        r matches Some(item) ==> items@.contains(*item),
{
    items.choose(rng)
}

/// `drawn` was taken from `items` at different positions, namely `positions`.
pub open spec fn drawn_at(
    drawn: Seq<String>,
    items: Seq<String>,
    positions: Seq<int>,
) -> bool {
    &&& positions.len() == drawn.len()
    &&& positions.no_duplicates()
    &&& forall|k: int|
        0 <= k < positions.len() ==> 0 <= #[trigger] positions[k] < items.len() && drawn[k]
            == items[positions[k]]
}

/// `drawn` holds `amount` of the items, no position taken twice, or all of them where there
/// are fewer.
pub open spec fn is_draw(drawn: Seq<String>, items: Seq<String>, amount: nat) -> bool {
    &&& drawn.len() == if amount < items.len() {
        amount
    } else {
        items.len()
    }
    &&& exists|positions: Seq<int>| drawn_at(drawn, items, positions)
}

/// `rand::seq::SliceRandom::choose_multiple`, with the chosen items cloned: `amount` items
/// from different positions, or all of them where there are fewer.
#[verifier::external_body]
pub(crate) fn choose_several(
    items: &Vec<String>,
    amount: usize,
    rng: &mut StdRng,
) -> (r: Vec<String>)
    ensures
        is_draw(r@, items@, amount as nat),
{
    items.choose_multiple(rng, amount).cloned().collect()
}

} // verus!
