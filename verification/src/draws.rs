//! What a query draws at random: its sample, its window and its makers.

use crate::cursor::{cursor_fits, cursors_fit};
use crate::filters::{cursor_direction, cursor_side, needs_maker, wants_maker};
use crate::makers::{with_all, MakerSet};
use crate::random::{choose_one, choose_several, draw_between, drawn_at, is_draw};
use crate::sample::{named_maker, SampleData, TokenSample};
use crate::text::texts;
use crate::timestamp::{
    in_range, is_in_range, time_window, window_fits, TimeWindow, Timestamp, DAY_SECONDS,
};
use rand::rngs::StdRng;
use vstd::prelude::*;

verus! {

/// Some sample of the data.
pub fn pick_sample<'a>(data: &'a SampleData, rng: &mut StdRng) -> (r: &'a TokenSample)
    requires
        data.token_samples@.len() > 0,
    ensures
        data.token_samples@.contains(*r),
{
    choose_one(&data.token_samples, rng).unwrap()
}

/// No window of up to `max_days_back` days around `base` leaves the range of dates.
pub open spec fn windows_fit(base: Timestamp, max_days_back: int) -> bool {
    &&& base.valid()
    &&& 1 <= max_days_back
    &&& in_range(base.moved_secs(1 - max_days_back * DAY_SECONDS))
    &&& in_range(base.secs + max_days_back * DAY_SECONDS)
}

/// Windows fit exactly where each window that can be drawn does.
pub proof fn windows_fit_where_each_does(base: Timestamp, max_days_back: int)
    ensures
        windows_fit(base, max_days_back) <==> base.valid() && 1 <= max_days_back && forall|
            days: int,
            offset: int,
        |
            1 <= days <= max_days_back && 0 <= offset < days * 86400 ==> #[trigger] window_fits(
                base,
                days,
                offset,
            ),
{
    if base.valid() && 1 <= max_days_back {
        let longest = max_days_back * 86400;
        assert(window_fits(base, max_days_back, longest - 1) && window_fits(base, max_days_back, 0)
            ==> windows_fit(base, max_days_back));
    }
}

/// Whether every window of up to `max_days_back` days around `base` stays in the range of dates.
pub fn all_windows_fit(base: Timestamp, max_days_back: i64) -> (r: bool)
    ensures
        r == windows_fit(base, max_days_back as int),
{
    if !base.is_valid() || max_days_back < 1 {
        return false;
    }
    let longest: i128 = max_days_back as i128 * DAY_SECONDS as i128;
    if !is_in_range(base.secs as i128 + longest) {
        return false;
    }
    is_in_range(base.moved_seconds((1 - longest) as i64))
}

/// The window has between one and `max_days_back` days and begins less than its own length
/// before `base`.
pub open spec fn is_window_of(window: TimeWindow, base: Timestamp, max_days_back: int) -> bool {
    exists|days: int, offset: int|
        1 <= days <= max_days_back && 0 <= offset < days * DAY_SECONDS && #[trigger] window.is_around(
            base,
            days,
            offset,
        )
}

/// A window around a moment, of random length and at a random offset.
pub fn draw_window(base: Timestamp, max_days_back: i64, rng: &mut StdRng) -> (r: TimeWindow)
    requires
        windows_fit(base, max_days_back as int),
    ensures
        r.valid(),
        is_window_of(r, base, max_days_back as int),
{
    let window_days: i64 = draw_between(rng, 1, max_days_back);
    let offset_seconds: i64 = draw_between(rng, 0, window_days * DAY_SECONDS - 1);
    time_window(base, window_days, offset_seconds)
}

/// Every window that can be drawn holds the moment it is drawn around.
pub proof fn drawn_window_holds_its_base(window: TimeWindow, base: Timestamp, max_days_back: int)
    requires
        windows_fit(base, max_days_back),
        is_window_of(window, base, max_days_back),
    ensures
        window.start.secs <= base.secs < window.end.secs,
        DAY_SECONDS <= window.end.secs - window.start.secs <= max_days_back * DAY_SECONDS,
        (window.end.secs - window.start.secs) % (DAY_SECONDS as int) == 0,
{
    let (days, offset) = choose|days: int, offset: int|
        1 <= days <= max_days_back && 0 <= offset < days * DAY_SECONDS && #[trigger] window.is_around(
            base,
            days,
            offset,
        );
    assert(window_fits(base, days, offset));
    crate::timestamp::window_holds_its_base(window, base, days, offset);
}

// ---------------------------------------------------------------------------
// Makers
// ---------------------------------------------------------------------------

/// The sample's own maker as a list.
pub open spec fn own_list(own: Option<Seq<char>>) -> Seq<Seq<char>> {
    match own {
        Some(m) => seq![m],
        None => Seq::empty(),
    }
}

/// How many makers are drawn beside the sample's own to make `maker_count`.
pub open spec fn missing_makers(own: Option<Seq<char>>, maker_count: nat) -> nat {
    if own_list(own).len() < maker_count {
        (maker_count - own_list(own).len()) as nat
    } else {
        0
    }
}

/// The makers of a query: the sample's own first, then those drawn, each of them once.
pub open spec fn selected_makers(
    own: Option<Seq<char>>,
    drawn: Seq<Seq<char>>,
) -> Seq<Seq<char>> {
    with_all(own_list(own), drawn)
}

/// How many makers are drawn beside the sample's own to make `maker_count`.
pub fn makers_needed(own: &Option<String>, maker_count: usize) -> (r: usize)
    ensures
        r == missing_makers(named_maker(*own), maker_count as nat),
        own is Some && own->0@.len() > 0 && maker_count > 0 ==> r == maker_count - 1,
        own is None || own->0@.len() == 0 || maker_count == 0 ==> r == maker_count,
{
    let known: usize = match own {
        Some(m) => if m.as_str().is_empty() {
            0
        } else {
            1
        },
        None => 0,
    };
    if known < maker_count {
        maker_count - known
    } else {
        0
    }
}

/// The makers of a query: the sample's own first, then those drawn from the others, each of them
/// once.
pub fn merge_makers(own: &Option<String>, drawn: Vec<String>) -> (r: Vec<String>)
    ensures
        texts(r@) == selected_makers(named_maker(*own), texts(drawn@)),
{
    let mut makers = MakerSet::new();
    if let Some(m) = own {
        if !m.as_str().is_empty() {
            makers.insert(m.clone());
        }
    }
    assert(makers@ =~= own_list(named_maker(*own)));
    makers.insert_all(drawn);
    makers.into_list()
}

/// The makers of the pool other than the sample's own, in order.
pub open spec fn others(own: Option<Seq<char>>, pool: Seq<String>) -> Seq<String>
    decreases pool.len(),
{
    if pool.len() == 0 {
        Seq::empty()
    } else {
        let before = others(own, pool.drop_last());
        if own == Some(pool.last()@) {
            before
        } else {
            before.push(pool.last())
        }
    }
}

/// The makers of the pool other than the sample's own, in order.
pub fn other_makers(own: &Option<String>, pool: &Vec<String>) -> (r: Vec<String>)
    ensures
        r@ == others(named_maker(*own), pool@),
{
    let ghost name = named_maker(*own);
    let mut list: Vec<String> = Vec::new();
    let mut i: usize = 0;
    assert(pool@.take(0) =~= Seq::<String>::empty());
    while i < pool.len()
        invariant
            i <= pool@.len(),
            name == named_maker(*own),
            list@ == others(name, pool@.take(i as int)),
        decreases pool@.len() - i,
    {
        let ghost next = pool@.take(i + 1);
        assert(next.drop_last() =~= pool@.take(i as int));
        assert(next.last() == pool@[i as int]);
        let is_own = match own {
            Some(m) => !m.as_str().is_empty() && *m == pool[i],
            None => false,
        };
        assert(is_own == (name == Some(pool@[i as int]@)));
        if !is_own {
            list.push(pool[i].clone());
        }
        i += 1;
    }
    assert(pool@.take(i as int) =~= pool@);
    list
}

/// `makers` are those of a query that has the sample's own maker and draws from the others of
/// the pool until it has `maker_count`.
pub open spec fn is_selection(
    makers: Seq<Seq<char>>,
    own: Option<Seq<char>>,
    pool: Seq<String>,
    maker_count: nat,
) -> bool {
    exists|drawn: Seq<String>| #[trigger]
        is_draw(drawn, others(own, pool), missing_makers(own, maker_count)) && makers
            == selected_makers(own, texts(drawn))
}

/// The makers of a query: the sample's own, and as many others from the pool as it takes to make
/// `maker_count`, or all of them where there are fewer.
pub fn select_makers(
    token_sample: &TokenSample,
    pool: &Vec<String>,
    maker_count: usize,
    rng: &mut StdRng,
) -> (r: Vec<String>)
    ensures
        is_selection(
            texts(r@),
            named_maker(token_sample.maker),
            pool@,
            maker_count as nat,
        ),
        texts(pool@).no_duplicates() && 1 <= maker_count <= pool@.len() ==> r@.len() == maker_count,
{
    let needed = makers_needed(&token_sample.maker, maker_count);
    let ghost rest = others(named_maker(token_sample.maker), pool@);
    let drawn: Vec<String> = if needed > 0 {
        let candidates = other_makers(&token_sample.maker, pool);
        let amount = if needed < candidates.len() {
            needed
        } else {
            candidates.len()
        };
        choose_several(&candidates, amount, rng)
    } else {
        let none: Vec<String> = Vec::new();
        assert(drawn_at(none@, rest, Seq::<int>::empty()));
        none
    };
    assert(is_draw(drawn@, rest, needed as nat));
    let makers = merge_makers(&token_sample.maker, drawn);
    proof {
        let own = named_maker(token_sample.maker);
        if texts(pool@).no_duplicates() && 1 <= maker_count <= pool@.len() {
            selection_reaches_the_count(texts(makers@), own, pool@, maker_count as nat);
        }
    }
    makers
}

/// The others are found maker by maker: one maker is among them unless it is the sample's own, and
/// makers behind others are found behind them.
pub proof fn others_are_found_maker_by_maker(
    own: Option<Seq<char>>,
    maker: String,
    a: Seq<String>,
    b: Seq<String>,
)
    ensures
        others(own, Seq::empty()) == Seq::<String>::empty(),
        others(own, seq![maker]) == if own is Some && own->0 == maker@ {
            Seq::<String>::empty()
        } else {
            seq![maker]
        },
        others(own, a + b) == others(own, a) + others(own, b),
    decreases b.len(),
{
    let none = Seq::<String>::empty();
    let one = seq![maker];
    assert(one.drop_last() =~= none);
    assert(others(own, none) =~= none);
    assert(others(own, one) =~= if own is Some && own->0 == maker@ {
        none
    } else {
        one
    });
    if b.len() == 0 {
        assert(a + b =~= a);
        assert(others(own, a) + others(own, b) =~= others(own, a));
    } else {
        let front = b.drop_last();
        assert((a + b).drop_last() =~= a + front);
        assert((a + b).last() == b.last());
        others_are_found_maker_by_maker(own, maker, a, front);
        assert(others(own, a + b) =~= others(own, a) + others(own, b));
    }
}

/// The others come from the pool, are not the sample's own, and are all of the pool but that one.
proof fn others_leave_the_own_out(own: Option<Seq<char>>, pool: Seq<String>)
    ensures
        forall|k: int|
            0 <= k < others(own, pool).len() ==> own != Some((#[trigger] others(own, pool)[k])@)
                && texts(pool).contains(others(own, pool)[k]@),
        others(own, pool).len() <= pool.len(),
        texts(pool).no_duplicates() ==> texts(others(own, pool)).no_duplicates(),
        texts(pool).no_duplicates() ==> others(own, pool).len() >= pool.len() - 1,
        own is None || !texts(pool).contains(own->0) ==> others(own, pool).len() == pool.len(),
    decreases pool.len(),
{
    if pool.len() > 0 {
        let front = pool.drop_last();
        let last = pool.last()@;
        let rest = others(own, front);
        let all = others(own, pool);
        others_leave_the_own_out(own, front);
        assert(texts(pool) =~= texts(front).push(last));
        assert forall|x: Seq<char>| #[trigger]
            texts(pool).contains(x) <==> texts(front).contains(x) || x == last by {
            crate::makers::contains_after_push(texts(front), last, x);
        }
        assert forall|k: int| 0 <= k < all.len() implies own != Some((#[trigger] all[k])@) && texts(
            pool,
        ).contains(all[k]@) by {
            if k < rest.len() {
                assert(all[k] == rest[k]);
            }
        }
        if texts(pool).no_duplicates() {
            assert forall|i: int, j: int|
                0 <= i < texts(front).len() && 0 <= j < texts(front).len() && i != j implies texts(
                front,
            )[i] != texts(front)[j] by {
                assert(texts(pool)[i] == texts(front)[i]);
                assert(texts(pool)[j] == texts(front)[j]);
            }
            assert(!texts(front).contains(last)) by {
                assert forall|i: int| 0 <= i < texts(front).len() implies texts(front)[i]
                    != last by {
                    assert(texts(pool)[i] != texts(pool)[pool.len() - 1]);
                }
            }
            if own != Some(last) {
                assert(texts(all) =~= texts(rest).push(last));
                assert forall|k: int| 0 <= k < rest.len() implies texts(rest)[k] != last by {
                    assert(texts(front).contains(rest[k]@));
                }
            }
        }
    }
}

/// The makers of a query hold no maker twice, begin with the sample's own, come from the pool
/// otherwise, and are no more than asked for, the sample's own apart.
pub proof fn selection_is_bounded(
    makers: Seq<Seq<char>>,
    own: Option<Seq<char>>,
    pool: Seq<String>,
    maker_count: nat,
)
    requires
        is_selection(makers, own, pool, maker_count),
    ensures
        makers.no_duplicates(),
        own matches Some(m) ==> makers.len() > 0 && makers[0] == m,
        forall|x: Seq<char>| #[trigger]
            makers.contains(x) ==> own == Some(x) || texts(pool).contains(x),
        makers.len() <= maker_count || makers == own_list(own),
{
    let rest = others(own, pool);
    let drawn = choose|drawn: Seq<String>| #[trigger]
        is_draw(drawn, rest, missing_makers(own, maker_count)) && makers == selected_makers(
            own,
            texts(drawn),
        );
    let first = own_list(own);
    crate::makers::insertion_is_union(first, texts(drawn));
    others_leave_the_own_out(own, pool);
    let positions = choose|positions: Seq<int>| drawn_at(drawn, rest, positions);
    assert forall|x: Seq<char>| #[trigger] makers.contains(x) implies own == Some(x) || texts(
        pool,
    ).contains(x) by {
        if texts(drawn).contains(x) {
            let k = choose|k: int| 0 <= k < texts(drawn).len() && texts(drawn)[k] == x;
            assert(0 <= positions[k] < rest.len());
            assert(rest[positions[k]]@ == x);
        }
    }
    if own is Some {
        assert(makers.take(1)[0] == makers[0]);
        assert(first[0] == own->0);
    }
    if missing_makers(own, maker_count) == 0 {
        assert(texts(drawn) =~= Seq::<Seq<char>>::empty());
    }
}

/// Where the pool holds no maker twice, a query has the sample's own maker and as many others as
/// are missing, or all others where there are fewer.
pub proof fn selection_takes_what_there_is(
    makers: Seq<Seq<char>>,
    own: Option<Seq<char>>,
    pool: Seq<String>,
    maker_count: nat,
)
    requires
        is_selection(makers, own, pool, maker_count),
        texts(pool).no_duplicates(),
    ensures
        makers.len() == own_list(own).len() + if missing_makers(own, maker_count) < others(
            own,
            pool,
        ).len() {
            missing_makers(own, maker_count)
        } else {
            others(own, pool).len()
        },
{
    let rest = others(own, pool);
    let drawn = choose|drawn: Seq<String>| #[trigger]
        is_draw(drawn, rest, missing_makers(own, maker_count)) && makers == selected_makers(
            own,
            texts(drawn),
        );
    let positions = choose|positions: Seq<int>| drawn_at(drawn, rest, positions);
    let t = texts(drawn);
    others_leave_the_own_out(own, pool);
    assert forall|j: int, k: int| 0 <= j < t.len() && 0 <= k < t.len() && j != k implies t[j]
        != t[k] by {
        assert(0 <= positions[j] < rest.len() && 0 <= positions[k] < rest.len());
        assert(texts(rest)[positions[j]] != texts(rest)[positions[k]]);
    }
    assert forall|k: int| 0 <= k < t.len() implies !own_list(own).contains(#[trigger] t[k]) by {
        assert(0 <= positions[k] < rest.len());
        assert(rest[positions[k]]@ == t[k]);
    }
    inserting_new_ones_adds_them(own_list(own), t);
}

/// A query gets exactly the number of makers asked for, each of them once, where the pool has
/// that many and holds none twice. The sample's own maker counts among them, whether or not the
/// pool holds it.
pub proof fn selection_reaches_the_count(
    makers: Seq<Seq<char>>,
    own: Option<Seq<char>>,
    pool: Seq<String>,
    maker_count: nat,
)
    requires
        is_selection(makers, own, pool, maker_count),
        texts(pool).no_duplicates(),
        1 <= maker_count <= pool.len(),
    ensures
        makers.no_duplicates(),
        makers.len() == maker_count,
{
    selection_is_bounded(makers, own, pool, maker_count);
    selection_takes_what_there_is(makers, own, pool, maker_count);
    others_leave_the_own_out(own, pool);
}

proof fn inserting_new_ones_adds_them(s: Seq<Seq<char>>, xs: Seq<Seq<char>>)
    requires
        s.no_duplicates(),
        xs.no_duplicates(),
        forall|k: int| 0 <= k < xs.len() ==> !s.contains(#[trigger] xs[k]),
    ensures
        with_all(s, xs).len() == s.len() + xs.len(),
    decreases xs.len(),
{
    if xs.len() > 0 {
        let front = xs.drop_last();
        assert forall|k: int| 0 <= k < front.len() implies !s.contains(#[trigger] front[k]) by {
            assert(front[k] == xs[k]);
        }
        inserting_new_ones_adds_them(s, front);
        crate::makers::insertion_is_union(s, front);
        let last = xs.len() - 1;
        assert(!s.contains(xs[last]));
        assert(!front.contains(xs[last])) by {
            assert forall|k: int| 0 <= k < front.len() implies front[k] != xs[last] by {
                assert(front[k] == xs[k]);
            }
        }
        assert(!with_all(s, front).contains(xs.last()));
    }
}

/// Where none of the drawn makers is drawn twice or is the sample's own, the makers of a query are
/// the sample's own and behind it those drawn, in order.
pub proof fn drawn_makers_stand_behind_the_own(own: Option<Seq<char>>, drawn: Seq<Seq<char>>)
    requires
        drawn.no_duplicates(),
        own matches Some(m) ==> !drawn.contains(m),
    ensures
        own matches Some(m) ==> selected_makers(own, drawn) == seq![m] + drawn,
        own is None ==> selected_makers(own, drawn) == drawn,
    decreases drawn.len(),
{
    let first = own_list(own);
    if drawn.len() > 0 {
        let front = drawn.drop_last();
        assert forall|i: int| 0 <= i < front.len() implies front[i] == drawn[i] by {}
        if own is Some {
            assert(!front.contains(own->0)) by {
                assert forall|i: int| 0 <= i < front.len() implies front[i] != own->0 by {
                    assert(drawn[i] != own->0);
                }
            }
        }
        drawn_makers_stand_behind_the_own(own, front);
        assert(selected_makers(own, front) =~= first + front);
        assert(!(first + front).contains(drawn.last())) by {
            assert forall|i: int| 0 <= i < (first + front).len() implies (first + front)[i]
                != drawn.last() by {
                if i < first.len() {
                    assert(drawn[drawn.len() - 1] == drawn.last());
                } else {
                    assert(drawn[i - first.len()] != drawn[drawn.len() - 1]);
                }
            }
        }
        assert((first + front).push(drawn.last()) =~= first + drawn);
    }
    assert(selected_makers(own, drawn) =~= first + drawn);
    if own is None {
        assert(first + drawn =~= drawn);
    }
}

/// The text of a maker, where there is one.
pub open spec fn maker_text(maker: Option<String>) -> Option<Seq<char>> {
    match maker {
        Some(m) => Some(m@),
        None => None,
    }
}

/// The maker that a query type asks for: none where it asks for none, the sample's own where it
/// has one, and else the one that was drawn.
pub open spec fn single_maker_of(
    query_type: u8,
    own: Option<Seq<char>>,
    drawn: Option<Seq<char>>,
) -> Option<Seq<char>> {
    if !wants_maker(query_type) {
        None
    } else if own is Some {
        own
    } else {
        drawn
    }
}

/// A maker drawn from the pool: none where the pool is empty.
pub open spec fn is_drawn_maker(drawn: Option<Seq<char>>, pool: Seq<String>) -> bool {
    &&& (drawn is None <==> pool.len() == 0)
    &&& (drawn matches Some(m) ==> texts(pool).contains(m))
}

/// Whether the maker of a query has to be drawn: the query type asks for one, and the sample
/// has none of its own.
fn draws_maker(query_type: u8, own: &Option<String>) -> (r: bool)
    ensures
        r == (wants_maker(query_type) && named_maker(*own) is None),
{
    match own {
        Some(m) => needs_maker(query_type) && m.as_str().is_empty(),
        None => needs_maker(query_type),
    }
}

/// The maker that a query type asks for, given the one that was drawn.
pub fn single_maker(
    query_type: u8,
    own: &Option<String>,
    drawn: Option<String>,
) -> (r: Option<String>)
    ensures
        maker_text(r) == single_maker_of(query_type, named_maker(*own), maker_text(drawn)),
        !(query_type == 4 || query_type == 6 || query_type == 10) ==> r is None,
        (query_type == 4 || query_type == 6 || query_type == 10) && own is Some && own->0@.len() > 0
            ==> r is Some && r->0@ == own->0@,
        (query_type == 4 || query_type == 6 || query_type == 10) && (own is None || own->0@.len()
            == 0) ==> (r is Some <==> drawn is Some) && (r is Some ==> r->0@ == drawn->0@),
{
    if !needs_maker(query_type) {
        return None;
    }
    if let Some(m) = own {
        if !m.as_str().is_empty() {
            return Some(m.clone());
        }
    }
    drawn
}

/// The maker that a query type asks for, drawn from the pool where the sample has none.
pub fn pick_single_maker(
    query_type: u8,
    token_sample: &TokenSample,
    pool: &Vec<String>,
    rng: &mut StdRng,
) -> (r: Option<String>)
    ensures
        exists|drawn: Option<Seq<char>>| #[trigger]
            is_drawn_maker(drawn, pool@) && maker_text(r) == single_maker_of(
                query_type,
                named_maker(token_sample.maker),
                drawn,
            ),
        !(query_type == 4 || query_type == 6 || query_type == 10) ==> r is None,
        (query_type == 4 || query_type == 6 || query_type == 10) && token_sample.maker is Some
            && token_sample.maker->0@.len() > 0 ==> r is Some && r->0@ == token_sample.maker->0@,
        (query_type == 4 || query_type == 6 || query_type == 10) && (token_sample.maker is None
            || token_sample.maker->0@.len() == 0) ==> (r is Some <==> pool@.len() > 0) && (r is Some
            ==> texts(pool@).contains(r->0@)),
{
    let ghost first: Option<Seq<char>> = if pool@.len() == 0 {
        None
    } else {
        Some(texts(pool@)[0])
    };
    assert(is_drawn_maker(first, pool@));
    let drawn: Option<String> = if draws_maker(query_type, &token_sample.maker) {
        match choose_one(pool, rng) {
            Some(m) => Some(m.clone()),
            None => None,
        }
    } else {
        None
    };
    proof {
        if wants_maker(query_type) && named_maker(token_sample.maker) is None {
            if drawn is Some {
                let m = drawn->0;
                let k = choose|k: int| 0 <= k < pool@.len() && pool@[k] == m;
                assert(texts(pool@)[k] == m@);
            }
            assert(is_drawn_maker(maker_text(drawn), pool@));
        }
    }
    single_maker(query_type, &token_sample.maker, drawn)
}

// ---------------------------------------------------------------------------
// The draws of a query
// ---------------------------------------------------------------------------

/// No draw around the sample leaves the range of dates: neither a window of up to
/// `max_days_back` days nor, where the query type has one, a cursor.
pub open spec fn sample_fits(sample: TokenSample, max_days_back: int, query_type: u8) -> bool {
    &&& windows_fit(sample.ts, max_days_back)
    &&& (cursor_side(query_type) matches Some(backwards) ==> cursor_fits(sample, backwards))
}

/// No draw around any of the samples leaves the range of dates.
pub open spec fn samples_fit(
    samples: Seq<TokenSample>,
    max_days_back: int,
    query_type: u8,
) -> bool {
    forall|i: int|
        0 <= i < samples.len() ==> sample_fits(#[trigger] samples[i], max_days_back, query_type)
}

/// Whether every draw around every sample stays in the range of dates.
pub fn all_samples_fit(data: &SampleData, max_days_back: i64, query_type: u8) -> (r: bool)
    ensures
        r == samples_fit(data.token_samples@, max_days_back as int, query_type),
        r <==> forall|i: int|
            0 <= i < data.token_samples@.len() ==> {
                let sample = #[trigger] data.token_samples@[i];
                &&& windows_fit(sample.ts, max_days_back as int)
                &&& query_type == 3 || query_type == 6 || query_type == 9 || query_type == 10
                    ==> cursor_fits(sample, true)
                &&& query_type == 5 ==> cursor_fits(sample, false)
            },
{
    let mut i: usize = 0;
    while i < data.token_samples.len()
        invariant
            i <= data.token_samples@.len(),
            forall|j: int|
                0 <= j < i ==> sample_fits(
                    #[trigger] data.token_samples@[j],
                    max_days_back as int,
                    query_type,
                ),
        decreases data.token_samples@.len() - i,
    {
        let sample = &data.token_samples[i];
        let cursor_ok = match cursor_direction(query_type) {
            Some(use_less_than) => cursors_fit(sample, use_less_than),
            None => true,
        };
        if !cursor_ok || !all_windows_fit(sample.ts, max_days_back) {
            assert(!sample_fits(data.token_samples@[i as int], max_days_back as int, query_type));
            return false;
        }
        i += 1;
    }
    true
}

/// A sample and a window around it.
pub struct SampleWindow<'a> {
    pub sample: &'a TokenSample,
    pub window: TimeWindow,
}

/// Draws a sample and a window around it.
pub fn draw_sample_window<'a>(
    data: &'a SampleData,
    max_days_back: i64,
    query_type: u8,
    rng: &mut StdRng,
) -> (r: SampleWindow<'a>)
    requires
        data.token_samples@.len() > 0,
        samples_fit(data.token_samples@, max_days_back as int, query_type),
    ensures
        data.token_samples@.contains(*r.sample),
        sample_fits(*r.sample, max_days_back as int, query_type),
        r.window.valid(),
        is_window_of(r.window, r.sample.ts, max_days_back as int),
{
    let sample = pick_sample(data, rng);
    let window = draw_window(sample.ts, max_days_back, rng);
    SampleWindow { sample, window }
}

/// A sample, the makers of its query, and a window around it.
pub struct SampleSelection<'a> {
    pub sample: &'a TokenSample,
    pub makers: Vec<String>,
    pub window: TimeWindow,
}

/// Draws a sample, other makers beside its own until there are `maker_count` or the pool has no
/// more, and a window around the sample.
pub fn draw_sample_selection<'a>(
    data: &'a SampleData,
    max_days_back: i64,
    maker_count: usize,
    rng: &mut StdRng,
) -> (r: SampleSelection<'a>)
    requires
        data.token_samples@.len() > 0,
        samples_fit(data.token_samples@, max_days_back as int, 1),
    ensures
        data.token_samples@.contains(*r.sample),
        is_selection(
            texts(r.makers@),
            named_maker(r.sample.maker),
            data.makers@,
            maker_count as nat,
        ),
        texts(data.makers@).no_duplicates() && 1 <= maker_count <= data.makers@.len()
            ==> r.makers@.len() == maker_count,
        r.window.valid(),
        is_window_of(r.window, r.sample.ts, max_days_back as int),
{
    let sample = pick_sample(data, rng);
    let makers = select_makers(sample, &data.makers, maker_count, rng);
    let window = draw_window(sample.ts, max_days_back, rng);
    SampleSelection { sample, makers, window }
}

} // verus!
