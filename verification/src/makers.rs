//! Lists of makers without repetition.

use crate::text::texts;
use vstd::hash_set::StringHashSet;
use vstd::prelude::*;

verus! {

/// `s` with `x` at its end, unless `x` is in it already.
pub open spec fn inserted(s: Seq<Seq<char>>, x: Seq<char>) -> Seq<Seq<char>> {
    if s.contains(x) {
        s
    } else {
        s.push(x)
    }
}

/// `s` with each of `xs` inserted, in order.
pub open spec fn with_all(s: Seq<Seq<char>>, xs: Seq<Seq<char>>) -> Seq<Seq<char>>
    decreases xs.len(),
{
    if xs.len() == 0 {
        s
    } else {
        inserted(with_all(s, xs.drop_last()), xs.last())
    }
}

/// Inserting never repeats a maker and never drops one: what was there stays in front, and the
/// result holds what was there and what was inserted.
pub proof fn insertion_is_union(s: Seq<Seq<char>>, xs: Seq<Seq<char>>)
    requires
        s.no_duplicates(),
    ensures
        with_all(s, xs).no_duplicates(),
        s.len() <= with_all(s, xs).len() <= s.len() + xs.len(),
        with_all(s, xs).take(s.len() as int) == s,
        forall|x: Seq<char>|
            #[trigger] with_all(s, xs).contains(x) <==> s.contains(x) || xs.contains(x),
    decreases xs.len(),
{
    if xs.len() == 0 {
        assert(s.take(s.len() as int) =~= s);
        assert forall|x: Seq<char>| #[trigger] with_all(s, xs).contains(x) <==> s.contains(x)
            || xs.contains(x) by {
            assert(!xs.contains(x));
        }
    } else {
        let front = xs.drop_last();
        let last = xs.last();
        insertion_is_union(s, front);
        let w = with_all(s, front);
        assert(xs =~= front.push(last));
        assert forall|x: Seq<char>| #[trigger] with_all(s, xs).contains(x) <==> s.contains(x)
            || xs.contains(x) by {
            contains_after_push(front, last, x);
            contains_after_push(w, last, x);
        }
        if !w.contains(last) {
            assert(w.push(last).take(s.len() as int) =~= w.take(s.len() as int));
        }
    }
}

/// Makers are inserted one after the other: a maker goes to the end unless it is there already,
/// and inserting a list and then another is inserting both.
pub proof fn insertion_goes_maker_by_maker(
    s: Seq<Seq<char>>,
    x: Seq<char>,
    xs: Seq<Seq<char>>,
    ys: Seq<Seq<char>>,
)
    ensures
        with_all(s, Seq::empty()) == s,
        with_all(s, seq![x]) == if s.contains(x) {
            s
        } else {
            s + seq![x]
        },
        with_all(s, xs + ys) == with_all(with_all(s, xs), ys),
    decreases ys.len(),
{
    let none = Seq::<Seq<char>>::empty();
    assert(seq![x].drop_last() =~= none);
    assert(with_all(s, none) == s);
    assert(s.push(x) =~= s + seq![x]);
    if ys.len() == 0 {
        assert(xs + ys =~= xs);
    } else {
        let front = ys.drop_last();
        assert((xs + ys).drop_last() =~= xs + front);
        assert((xs + ys).last() == ys.last());
        insertion_goes_maker_by_maker(s, x, xs, front);
    }
}

pub(crate) proof fn contains_after_push<A>(s: Seq<A>, x: A, y: A)
    ensures
        s.push(x).contains(y) <==> s.contains(y) || y == x,
{
    if s.contains(y) {
        let i = choose|i: int| 0 <= i < s.len() && s[i] == y;
        assert(s.push(x)[i] == y);
    }
    if y == x {
        assert(s.push(x)[s.len() as int] == y);
    }
    if s.push(x).contains(y) {
        let i = choose|i: int| 0 <= i < s.push(x).len() && s.push(x)[i] == y;
        if i < s.len() {
            assert(s[i] == y);
        }
    }
}

/// Makers in the order in which they were first inserted.
pub struct MakerSet {
    list: Vec<String>,
    seen: StringHashSet,
}

impl View for MakerSet {
    type V = Seq<Seq<char>>;

    closed spec fn view(&self) -> Seq<Seq<char>> {
        texts(self.list@)
    }
}

impl MakerSet {
    /// The lookup table holds exactly the makers of the list, and none of them stands twice.
    pub closed spec fn valid(self) -> bool {
        &&& self.seen@ == self@.to_set()
        &&& self@.no_duplicates()
    }

    /// A list without makers.
    pub fn new() -> (r: MakerSet)
        ensures
            r.valid(),
            r@ == Seq::<Seq<char>>::empty(),
    {
        let r = MakerSet { list: Vec::new(), seen: StringHashSet::new() };
        assert(r@ =~= Seq::<Seq<char>>::empty());
        assert(r@.to_set() =~= Set::<Seq<char>>::empty());
        r
    }

    /// How many makers there are.
    pub fn len(&self) -> (r: usize)
        ensures
            r == self@.len(),
    {
        self.list.len()
    }

    /// Adds a maker, unless it is there already.
    pub fn insert(&mut self, maker: String)
        requires
            old(self).valid(),
        ensures
            final(self).valid(),
            final(self)@ == inserted(old(self)@, maker@),
    {
        let ghost before = self@;
        let ghost name = maker@;
        let is_new = self.seen.insert(maker.clone());
        if is_new {
            self.list.push(maker);
            assert(self@ =~= before.push(name));
        }
        proof {
            assert(before.to_set().contains(name) == before.contains(name));
            assert forall|x: Seq<char>| self@.to_set().contains(x) <==> self.seen@.contains(x) by {
                contains_after_push(before, name, x);
            }
            assert(self.seen@ =~= self@.to_set());
        }
    }

    /// Adds each of the makers that is not there already.
    pub fn insert_all(&mut self, makers: Vec<String>)
        requires
            old(self).valid(),
        ensures
            final(self).valid(),
            final(self)@ == with_all(old(self)@, texts(makers@)),
    {
        let ghost before = self@;
        let ghost all = makers@;
        assert(texts(all.take(0)) =~= Seq::<Seq<char>>::empty());
        for maker in it: makers.into_iter()
            invariant
                it.seq() == all,
                self.valid(),
                self@ == with_all(before, texts(all.take(it.index() as int))),
        {
            let ghost next = texts(all.take(it.index() + 1));
            assert(next.drop_last() =~= texts(all.take(it.index() as int)));
            assert(next.last() == maker@);
            self.insert(maker);
        }
        assert(all.take(all.len() as int) =~= all);
    }

    /// The makers, in the order in which they were first inserted.
    pub fn into_list(self) -> (r: Vec<String>)
        requires
            self.valid(),
        ensures
            texts(r@) == self@,
            texts(r@).no_duplicates(),
    {
        self.list
    }
}

} // verus!
