//! Reading finished text back: what a reader who knows the layout of a text finds in it.

use crate::quote::{escaped, quoted_list, read_list, read_literal};
use crate::text::{decimal, decimal_value, signed_decimal};
use vstd::prelude::*;

verus! {

/// A part of a layout.
pub enum Part {
    /// Fixed text.
    Fixed(Seq<char>),
    /// So many characters, whatever they are.
    Chars(nat),
    /// A natural number in decimal.
    Number,
    /// An integer in decimal.
    Integer,
    /// The inside of a string literal, up to its closing quote, which is left.
    Quoted,
    /// So many string literals, separated by commas.
    Literals(nat),
}

/// What a reader finds in a part that is not fixed.
pub enum Found {
    Number(int),
    Text(Seq<char>),
    Texts(Seq<Seq<char>>),
}

/// How many digits `s` begins with.
pub open spec fn digits_in_front(s: Seq<char>) -> nat
    decreases s.len(),
{
    if s.len() > 0 && '0' <= s[0] <= '9' {
        1 + digits_in_front(s.skip(1))
    } else {
        0
    }
}

/// What a reader finds in front of `s` in a part, and the text behind it. `None` where the part
/// is not there.
pub open spec fn read_part(s: Seq<char>, part: Part) -> Option<(Seq<Found>, Seq<char>)> {
    match part {
        Part::Fixed(text) => if text.len() <= s.len() && s.take(text.len() as int) == text {
            Some((Seq::empty(), s.skip(text.len() as int)))
        } else {
            None
        },
        Part::Chars(n) => if n <= s.len() {
            Some((seq![Found::Text(s.take(n as int))], s.skip(n as int)))
        } else {
            None
        },
        Part::Number => {
            let n = digits_in_front(s) as int;
            if n > 0 {
                Some((seq![Found::Number(decimal_value(s.take(n)))], s.skip(n)))
            } else {
                None
            }
        },
        Part::Integer => {
            let sign: int = if s.len() > 0 && s[0] == '-' {
                1
            } else {
                0
            };
            let n = digits_in_front(s.skip(sign)) as int;
            let size = decimal_value(s.skip(sign).take(n));
            if n > 0 {
                Some(
                    (
                        seq![
                            Found::Number(
                                if sign == 1 {
                                    -size
                                } else {
                                    size
                                },
                            ),
                        ],
                        s.skip(sign).skip(n),
                    ),
                )
            } else {
                None
            }
        },
        Part::Quoted => match read_literal(s) {
            Some((value, rest)) => Some((seq![Found::Text(value)], seq!['\''] + rest)),
            None => None,
        },
        Part::Literals(n) => match read_list(s, n) {
            Some((values, rest)) => Some((seq![Found::Texts(values)], rest)),
            None => None,
        },
    }
}

/// What a reader finds in a text of the given layout, in order, and the text behind it. `None`
/// where the text does not have that layout.
pub open spec fn scan(s: Seq<char>, layout: Seq<Part>) -> Option<(Seq<Found>, Seq<char>)>
    decreases layout.len(),
{
    if layout.len() == 0 {
        Some((Seq::empty(), s))
    } else {
        match scan(s, layout.drop_last()) {
            None => None,
            Some((found, rest)) => match read_part(rest, layout.last()) {
                None => None,
                Some((more, end)) => Some((found + more, end)),
            },
        }
    }
}

/// A reader of the whole text finds these values in it, and nothing is left over.
pub open spec fn reads_as(s: Seq<char>, layout: Seq<Part>, found: Seq<Found>) -> bool {
    scan(s, layout) == Some((found, Seq::<char>::empty()))
}

// ---------------------------------------------------------------------------
// Texts together with what is read in them
// ---------------------------------------------------------------------------

/// A text, its layout and what a reader finds in it.
pub struct Reading {
    pub text: Seq<char>,
    pub layout: Seq<Part>,
    pub found: Seq<Found>,
}

impl Reading {
    /// The reader finds it, whatever stands behind the text.
    pub open spec fn holds(self) -> bool {
        forall|rest: Seq<char>| #[trigger]
            scan(self.text + rest, self.layout) == Some((self.found, rest))
    }

    /// A fixed text.
    pub open spec fn start(text: Seq<char>) -> Reading {
        Reading { text, layout: seq![Part::Fixed(text)], found: Seq::empty() }
    }

    /// The text followed by a fixed one.
    pub open spec fn fixed(self, text: Seq<char>) -> Reading {
        Reading {
            text: self.text + text,
            layout: self.layout.push(Part::Fixed(text)),
            found: self.found,
        }
    }

    /// The text followed by characters that are read by their number.
    pub open spec fn chars(self, text: Seq<char>) -> Reading {
        Reading {
            text: self.text + text,
            layout: self.layout.push(Part::Chars(text.len())),
            found: self.found.push(Found::Text(text)),
        }
    }

    /// The text followed by a number and a fixed text.
    pub open spec fn number(self, n: nat, next: Seq<char>) -> Reading {
        Reading {
            text: self.text + decimal(n) + next,
            layout: self.layout.push(Part::Number).push(Part::Fixed(next)),
            found: self.found.push(Found::Number(n as int)),
        }
    }

    /// The text followed by the inside of a string literal and a fixed text.
    pub open spec fn quoted(self, value: Seq<char>, next: Seq<char>) -> Reading {
        Reading {
            text: self.text + escaped(value) + next,
            layout: self.layout.push(Part::Quoted).push(Part::Fixed(next)),
            found: self.found.push(Found::Text(value)),
        }
    }

    /// The text followed by string literals and a fixed text.
    pub open spec fn literals(self, values: Seq<Seq<char>>, next: Seq<char>) -> Reading {
        Reading {
            text: self.text + quoted_list(values) + next,
            layout: self.layout.push(Part::Literals(values.len())).push(Part::Fixed(next)),
            found: self.found.push(Found::Texts(values)),
        }
    }
}

proof fn one_part_more(s: Seq<char>, layout: Seq<Part>, part: Part)
    ensures
        scan(s, layout.push(part)) == match scan(s, layout) {
            None => None,
            Some((found, rest)) => match read_part(rest, part) {
                None => None,
                Some((more, end)) => Some((found + more, end)),
            },
        },
{
    assert(layout.push(part).drop_last() =~= layout);
}

pub(crate) proof fn start_holds(text: Seq<char>)
    ensures
        Reading::start(text).holds(),
{
    let r = Reading::start(text);
    assert forall|rest: Seq<char>| #[trigger] scan(r.text + rest, r.layout) == Some(
        (r.found, rest),
    ) by {
        let none = Seq::<Part>::empty();
        one_part_more(text + rest, none, Part::Fixed(text));
        assert(none.push(Part::Fixed(text)) =~= r.layout);
        assert((text + rest).take(text.len() as int) =~= text);
        assert((text + rest).skip(text.len() as int) =~= rest);
        assert(Seq::<Found>::empty() + Seq::<Found>::empty() =~= r.found);
    }
}

pub(crate) proof fn fixed_holds(r: Reading, text: Seq<char>)
    requires
        r.holds(),
    ensures
        r.fixed(text).holds(),
{
    let q = r.fixed(text);
    assert forall|rest: Seq<char>| #[trigger] scan(q.text + rest, q.layout) == Some(
        (q.found, rest),
    ) by {
        assert(q.text + rest =~= r.text + (text + rest));
        one_part_more(q.text + rest, r.layout, Part::Fixed(text));
        assert((text + rest).take(text.len() as int) =~= text);
        assert((text + rest).skip(text.len() as int) =~= rest);
        assert(r.found + Seq::<Found>::empty() =~= r.found);
    }
}

pub(crate) proof fn chars_hold(r: Reading, text: Seq<char>)
    requires
        r.holds(),
    ensures
        r.chars(text).holds(),
{
    let q = r.chars(text);
    assert forall|rest: Seq<char>| #[trigger] scan(q.text + rest, q.layout) == Some(
        (q.found, rest),
    ) by {
        assert(q.text + rest =~= r.text + (text + rest));
        one_part_more(q.text + rest, r.layout, Part::Chars(text.len()));
        assert((text + rest).take(text.len() as int) =~= text);
        assert((text + rest).skip(text.len() as int) =~= rest);
        assert(r.found + seq![Found::Text(text)] =~= q.found);
    }
}

proof fn digits_end(d: Seq<char>, rest: Seq<char>)
    requires
        forall|i: int| 0 <= i < d.len() ==> 48 <= (#[trigger] d[i]) as int <= 57,
        rest.len() == 0 || !('0' <= rest[0] <= '9'),
    ensures
        digits_in_front(d + rest) == d.len(),
    decreases d.len(),
{
    let s = d + rest;
    if d.len() == 0 {
        assert(s =~= rest);
    } else {
        assert(48 <= d[0] as int <= 57);
        let tail = d.skip(1);
        assert forall|i: int| 0 <= i < tail.len() implies 48 <= (#[trigger] tail[i]) as int
            <= 57 by {
            assert(48 <= d[i + 1] as int <= 57);
        }
        digits_end(tail, rest);
        assert(s.skip(1) =~= tail + rest);
    }
}

proof fn number_reads_back(n: nat, rest: Seq<char>)
    requires
        rest.len() == 0 || !('0' <= rest[0] <= '9'),
    ensures
        read_part(decimal(n) + rest, Part::Number) == Some((seq![Found::Number(n as int)], rest)),
{
    crate::text::decimal_has_digits_only(n);
    crate::text::decimal_has_no_leading_zero(n);
    crate::text::decimal_reads_back(n);
    digits_end(decimal(n), rest);
    let k = decimal(n).len() as int;
    assert((decimal(n) + rest).take(k) =~= decimal(n));
    assert((decimal(n) + rest).skip(k) =~= rest);
}

pub(crate) proof fn number_holds(r: Reading, n: nat, next: Seq<char>)
    requires
        r.holds(),
        next.len() > 0,
        !('0' <= next[0] <= '9'),
    ensures
        r.number(n, next).holds(),
{
    let q = r.number(n, next);
    let mid = r.layout.push(Part::Number);
    assert forall|rest: Seq<char>| #[trigger] scan(q.text + rest, q.layout) == Some(
        (q.found, rest),
    ) by {
        assert(q.text + rest =~= r.text + (decimal(n) + (next + rest)));
        assert((next + rest)[0] == next[0]);
        one_part_more(q.text + rest, r.layout, Part::Number);
        number_reads_back(n, next + rest);
        assert(r.found + seq![Found::Number(n as int)] =~= q.found);
        one_part_more(q.text + rest, mid, Part::Fixed(next));
        assert((next + rest).take(next.len() as int) =~= next);
        assert((next + rest).skip(next.len() as int) =~= rest);
        assert(q.found + Seq::<Found>::empty() =~= q.found);
    }
}

pub(crate) proof fn quoted_holds(r: Reading, value: Seq<char>, next: Seq<char>)
    requires
        r.holds(),
        next.len() >= 2,
        next[0] == '\'',
        next[1] != '\'',
    ensures
        r.quoted(value, next).holds(),
{
    let q = r.quoted(value, next);
    let mid = r.layout.push(Part::Quoted);
    assert forall|rest: Seq<char>| #[trigger] scan(q.text + rest, q.layout) == Some(
        (q.found, rest),
    ) by {
        let behind = next.skip(1) + rest;
        assert(q.text + rest =~= r.text + (escaped(value) + seq!['\''] + behind));
        one_part_more(q.text + rest, r.layout, Part::Quoted);
        crate::quote::body_reads_back(value, behind);
        assert(r.found + seq![Found::Text(value)] =~= q.found);
        one_part_more(q.text + rest, mid, Part::Fixed(next));
        assert(seq!['\''] + behind =~= next + rest);
        assert((next + rest).take(next.len() as int) =~= next);
        assert((next + rest).skip(next.len() as int) =~= rest);
        assert(q.found + Seq::<Found>::empty() =~= q.found);
    }
}

pub(crate) proof fn literals_hold(r: Reading, values: Seq<Seq<char>>, next: Seq<char>)
    requires
        r.holds(),
        next.len() > 0,
        next[0] != '\'',
    ensures
        r.literals(values, next).holds(),
{
    let q = r.literals(values, next);
    let mid = r.layout.push(Part::Literals(values.len()));
    assert forall|rest: Seq<char>| #[trigger] scan(q.text + rest, q.layout) == Some(
        (q.found, rest),
    ) by {
        assert(q.text + rest =~= r.text + (quoted_list(values) + (next + rest)));
        assert((next + rest)[0] == next[0]);
        one_part_more(q.text + rest, r.layout, Part::Literals(values.len()));
        crate::quote::quoted_list_reads_back(values, next + rest);
        assert(r.found + seq![Found::Texts(values)] =~= q.found);
        one_part_more(q.text + rest, mid, Part::Fixed(next));
        assert((next + rest).take(next.len() as int) =~= next);
        assert((next + rest).skip(next.len() as int) =~= rest);
        assert(q.found + Seq::<Found>::empty() =~= q.found);
    }
}

/// A text that holds to its end is read as a whole.
pub(crate) proof fn whole_text_reads(
    r: Reading,
    text: Seq<char>,
    layout: Seq<Part>,
    found: Seq<Found>,
)
    requires
        r.holds(),
        text =~= r.text,
        layout =~= r.layout,
        found =~= r.found,
    ensures
        reads_as(text, layout, found),
{
    let none = Seq::<char>::empty();
    assert(r.text + none =~= r.text);
    assert(scan(r.text + none, r.layout) == Some((r.found, none)));
}

/// A text that ends in a number is read as a whole.
pub(crate) proof fn last_number_reads(
    r: Reading,
    n: nat,
    text: Seq<char>,
    layout: Seq<Part>,
    found: Seq<Found>,
)
    requires
        r.holds(),
        text =~= r.text + decimal(n),
        layout =~= r.layout.push(Part::Number),
        found =~= r.found.push(Found::Number(n as int)),
    ensures
        reads_as(text, layout, found),
{
    let none = Seq::<char>::empty();
    assert(scan(r.text + decimal(n), r.layout) == Some((r.found, decimal(n))));
    one_part_more(r.text + decimal(n), r.layout, Part::Number);
    number_reads_back(n, none);
    assert(decimal(n) + none =~= decimal(n));
    assert(r.found + seq![Found::Number(n as int)] =~= r.found.push(Found::Number(n as int)));
}

/// A number behind a fixed text.
pub(crate) proof fn number_behind_reads(text: Seq<char>, n: nat)
    ensures
        reads_as(
            text + decimal(n),
            seq![Part::Fixed(text), Part::Number],
            seq![Found::Number(n as int)],
        ),
{
    start_holds(text);
    last_number_reads(
        Reading::start(text),
        n,
        text + decimal(n),
        seq![Part::Fixed(text), Part::Number],
        seq![Found::Number(n as int)],
    );
}

/// Characters behind a fixed text.
pub(crate) proof fn chars_behind_read(text: Seq<char>, chars: Seq<char>)
    ensures
        reads_as(
            text + chars,
            seq![Part::Fixed(text), Part::Chars(chars.len())],
            seq![Found::Text(chars)],
        ),
{
    start_holds(text);
    chars_hold(Reading::start(text), chars);
    whole_text_reads(
        Reading::start(text).chars(chars),
        text + chars,
        seq![Part::Fixed(text), Part::Chars(chars.len())],
        seq![Found::Text(chars)],
    );
}

/// A number between two fixed texts.
pub(crate) proof fn number_between_reads(text: Seq<char>, n: nat, next: Seq<char>)
    requires
        next.len() > 0,
        !('0' <= next[0] <= '9'),
    ensures
        reads_as(
            text + decimal(n) + next,
            seq![Part::Fixed(text), Part::Number, Part::Fixed(next)],
            seq![Found::Number(n as int)],
        ),
{
    start_holds(text);
    number_holds(Reading::start(text), n, next);
    whole_text_reads(
        Reading::start(text).number(n, next),
        text + decimal(n) + next,
        seq![Part::Fixed(text), Part::Number, Part::Fixed(next)],
        seq![Found::Number(n as int)],
    );
}

/// An integer behind a fixed text.
pub(crate) proof fn integer_behind_reads(text: Seq<char>, n: int)
    ensures
        reads_as(
            text + signed_decimal(n),
            seq![Part::Fixed(text), Part::Integer],
            seq![Found::Number(n)],
        ),
{
    let r = Reading::start(text);
    start_holds(text);
    let none = Seq::<char>::empty();
    let s = signed_decimal(n);
    let size = (if n < 0 {
        -n
    } else {
        n
    }) as nat;
    let d = decimal(size);
    crate::text::decimal_has_digits_only(size);
    crate::text::decimal_has_no_leading_zero(size);
    crate::text::decimal_reads_back(size);
    digits_end(d, none);
    assert(d + none =~= d);
    assert(48 <= d[0] as int <= 57);
    assert(s.skip(
        if n < 0 {
            1
        } else {
            0
        },
    ) =~= d);
    assert(d.take(d.len() as int) =~= d);
    assert(d.skip(d.len() as int) =~= none);
    assert(scan(r.text + s, r.layout) == Some((r.found, s)));
    one_part_more(r.text + s, r.layout, Part::Integer);
    assert(r.found + seq![Found::Number(n)] =~= seq![Found::Number(n)]);
    assert(r.layout.push(Part::Integer) =~= seq![Part::Fixed(text), Part::Integer]);
}

} // verus!
