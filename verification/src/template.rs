//! The two marks that are exchanged in finished SQL: the placeholder of the index name, and the
//! column of the first token.

use crate::quote::{escaped, quote_free, quoted, quoted_list};
use crate::text::{joined, occurs, replaced, seam_free};
use crate::timestamp::{is_date_time, is_date_time_char};
use vstd::prelude::*;

verus! {

/// Stands where the name of an index goes.
pub const PLACEHOLDER: &'static str = "{}";

/// The column of the first token.
pub const TOKEN0_COLUMN: &'static str = "`token0_address`";

/// The column of the second token.
pub const TOKEN1_COLUMN: &'static str = "`token1_address`";

/// The index that holds the rows themselves, used to verify the others.
pub const PRIMARY_INDEX: &'static str = "primary";

/// The characters of the placeholder.
pub open spec fn placeholder() -> Seq<char> {
    seq!['{', '}']
}

/// The placeholder stands nowhere in `s`.
pub open spec fn unmarked(s: Seq<char>) -> bool {
    !occurs(placeholder(), s)
}

/// `s` holds no brace.
pub open spec fn brace_free(s: Seq<char>) -> bool {
    forall|i: int| 0 <= i < s.len() ==> s[i] != '{' && s[i] != '}'
}

/// A fixed piece of a statement: not empty, and without braces.
pub open spec fn is_piece(s: Seq<char>) -> bool {
    s.len() > 0 && brace_free(s)
}

/// No placeholder can arise where `b` follows `a`.
pub open spec fn meets_unmarked(a: Seq<char>, b: Seq<char>) -> bool {
    a.len() == 0 || b.len() == 0 || a.last() != '{' || b[0] != '}'
}

pub(crate) proof fn placeholder_text()
    ensures
        PLACEHOLDER@ == placeholder(),
{
    reveal_strlit("{}");
    assert(PLACEHOLDER@ =~= placeholder());
}

pub(crate) proof fn brace_free_is_unmarked(s: Seq<char>)
    requires
        brace_free(s),
    ensures
        unmarked(s),
{
    assert forall|i: int| 0 <= i && i + placeholder().len() <= s.len() implies
        #[trigger] s.subrange(i, i + placeholder().len()) != placeholder() by {
        assert(s.subrange(i, i + placeholder().len())[0] == s[i]);
    }
}

pub(crate) proof fn unmarked_sum(a: Seq<char>, b: Seq<char>)
    requires
        unmarked(a),
        unmarked(b),
        meets_unmarked(a, b),
    ensures
        unmarked(a + b),
{
    let n = placeholder().len() as int;
    let t = a + b;
    assert forall|i: int| 0 <= i && i + placeholder().len() <= t.len() implies
        #[trigger] t.subrange(i, i + placeholder().len()) != placeholder() by {
        let w = t.subrange(i, i + n);
        if i + n <= a.len() {
            assert(w =~= a.subrange(i, i + n));
        } else if i >= a.len() {
            assert(w =~= b.subrange(i - a.len(), i - a.len() + n));
        } else {
            assert(w[0] == a.last());
            assert(w[1] == b[0]);
        }
    }
}

pub(crate) proof fn date_time_is_unmarked(s: Seq<char>)
    requires
        is_date_time(s),
    ensures
        unmarked(s),
{
    assert forall|i: int| 0 <= i < s.len() implies s[i] != '{' && s[i] != '}' by {
        assert(is_date_time_char(s[i]));
    }
    brace_free_is_unmarked(s);
}

/// A value behind a fixed piece of text without braces.
pub(crate) proof fn unmarked_piece(a: Seq<char>, piece: Seq<char>, value: Seq<char>)
    requires
        unmarked(a),
        is_piece(piece),
        unmarked(value),
    ensures
        unmarked(a + piece),
        unmarked(a + piece + value),
{
    brace_free_is_unmarked(piece);
    unmarked_sum(a, piece);
    assert((a + piece).last() == piece.last());
    unmarked_sum(a + piece, value);
}

pub(crate) proof fn unmarked_join(parts: Seq<Seq<char>>, sep: Seq<char>)
    requires
        forall|i: int| 0 <= i < parts.len() ==> unmarked(#[trigger] parts[i]),
        is_piece(sep),
    ensures
        unmarked(joined(parts, sep)),
    decreases parts.len(),
{
    if parts.len() == 0 {
        brace_free_is_unmarked(joined(parts, sep));
    } else if parts.len() > 1 {
        let front = parts.drop_last();
        assert forall|i: int| 0 <= i < front.len() implies unmarked(#[trigger] front[i]) by {
            assert(front[i] == parts[i]);
        }
        unmarked_join(front, sep);
        unmarked_piece(joined(front, sep), sep, parts.last());
    }
}

pub(crate) proof fn unmarked_escaped(value: Seq<char>)
    requires
        unmarked(value),
    ensures
        unmarked(escaped(value)),
{
    assert(quote_free(placeholder()));
    crate::quote::escaping_adds_no_pattern(value, placeholder());
}

pub(crate) proof fn unmarked_quoted(value: Seq<char>)
    requires
        unmarked(value),
    ensures
        unmarked(quoted(value)),
{
    let q = seq!['\''];
    unmarked_escaped(value);
    brace_free_is_unmarked(Seq::<char>::empty());
    unmarked_piece(Seq::empty(), q, escaped(value));
    assert(Seq::<char>::empty() + q + escaped(value) =~= q + escaped(value));
    brace_free_is_unmarked(q);
    unmarked_sum(q + escaped(value), q);
}

pub(crate) proof fn unmarked_quoted_list(values: Seq<Seq<char>>)
    requires
        forall|i: int| 0 <= i < values.len() ==> unmarked(#[trigger] values[i]),
    ensures
        unmarked(quoted_list(values)),
{
    let parts = Seq::new(values.len(), |i: int| quoted(values[i]));
    assert forall|i: int| 0 <= i < parts.len() implies unmarked(#[trigger] parts[i]) by {
        unmarked_quoted(values[i]);
    }
    reveal_strlit(", ");
    unmarked_join(parts, ", "@);
}

/// Exchanging one text for another, both without braces, brings no placeholder in.
pub(crate) proof fn unmarked_replaced(text: Seq<char>, pattern: Seq<char>, with: Seq<char>)
    requires
        unmarked(text),
        is_piece(with),
    ensures
        unmarked(replaced(text, pattern, with)),
        replaced(text, pattern, with).len() > 0 && replaced(text, pattern, with)[0] == '}'
            ==> text.len() > 0 && text[0] == '}',
    decreases text.len(),
{
    let n = pattern.len() as int;
    if n == 0 || text.len() < n {
    } else if text.take(n) == pattern {
        let rest = text.skip(n);
        tail_is_unmarked(text, n);
        unmarked_replaced(rest, pattern, with);
        brace_free_is_unmarked(with);
        unmarked_sum(with, replaced(rest, pattern, with));
    } else {
        let rest = text.skip(1);
        let first = seq![text[0]];
        tail_is_unmarked(text, 1);
        unmarked_replaced(rest, pattern, with);
        assert(unmarked(first));
        if text[0] == '{' && rest.len() > 0 && rest[0] == '}' {
            assert(text.subrange(0int, 0int + placeholder().len()) =~= placeholder());
        }
        unmarked_sum(first, replaced(rest, pattern, with));
    }
}

proof fn tail_is_unmarked(text: Seq<char>, n: int)
    requires
        unmarked(text),
        0 <= n <= text.len(),
    ensures
        unmarked(text.skip(n)),
{
    let p = placeholder();
    let rest = text.skip(n);
    assert forall|i: int| 0 <= i && i + p.len() <= rest.len() implies #[trigger] rest.subrange(
        i,
        i + p.len(),
    ) != p by {
        assert(rest.subrange(i, i + p.len()) =~= text.subrange(i + n, i + n + p.len()));
    }
}

proof fn seam_of(a: Seq<char>, b: Seq<char>)
    requires
        meets_unmarked(a, b),
    ensures
        seam_free(a, b, placeholder()),
{
    let n = placeholder().len() as int;
    assert forall|i: int|
        0 <= i && a.len() < i + placeholder().len() <= a.len() + b.len() && i < a.len() implies
        #[trigger] (a + b).subrange(i, i + placeholder().len()) != placeholder() by {
        let w = (a + b).subrange(i, i + n);
        assert(w[0] == a.last());
        assert(w[1] == b[0]);
    }
}

/// Filling the two placeholders of a statement whose other pieces hold none puts `name` in
/// their places and changes nothing else.
pub proof fn both_placeholders_are_filled(
    head: Seq<char>,
    middle: Seq<char>,
    tail: Seq<char>,
    name: Seq<char>,
)
    requires
        unmarked(head),
        unmarked(middle),
        unmarked(tail),
        head.len() > 0 ==> head.last() != '{',
        middle.len() > 0 ==> middle.last() != '{',
    ensures
        replaced(
            head + placeholder() + middle + placeholder() + tail,
            placeholder(),
            name,
        ) == head + name + middle + name + tail,
{
    let p = placeholder();
    let a1 = head + p;
    let a2 = a1 + middle;
    let a3 = a2 + p;
    seam_of(head, p);
    seam_of(a1, middle);
    if middle.len() > 0 {
        assert(a2.last() == middle.last());
    } else {
        assert(a2.last() == '}');
    }
    seam_of(a2, p);
    assert(a3.last() == '}');
    seam_of(a3, tail);
    crate::text::replacement_splits_at_a_seam(head, p, p, name);
    crate::text::replacement_splits_at_a_seam(a1, middle, p, name);
    crate::text::replacement_splits_at_a_seam(a2, p, p, name);
    crate::text::replacement_splits_at_a_seam(a3, tail, p, name);
    crate::text::replacing_the_absent_changes_nothing(head, p, name);
    crate::text::replacing_the_absent_changes_nothing(middle, p, name);
    crate::text::replacing_the_absent_changes_nothing(tail, p, name);
    assert(p.take(2) =~= p);
    assert(p.skip(2) =~= Seq::<char>::empty());
    assert(replaced(p.skip(2), p, name) =~= Seq::<char>::empty());
    assert(replaced(p, p, name) =~= name);
}

// ---------------------------------------------------------------------------
// The column of the first token
// ---------------------------------------------------------------------------

/// Every backtick of `s` has two characters behind it that do not begin `token0_address`.
pub open spec fn names_other_columns(s: Seq<char>) -> bool {
    forall|i: int|
        0 <= i < s.len() && #[trigger] s[i] == '`' ==> i + 2 < s.len() && !(s[i + 1] == 't' && s[i
            + 2] == 'o')
}

/// A condition that names other columns, with a value that does not hold the column of the
/// first token, does not hold it either.
pub(crate) proof fn column_is_absent(piece: Seq<char>, value: Seq<char>, close: Seq<char>)
    requires
        names_other_columns(piece),
        !occurs(TOKEN0_COLUMN@, value),
        close.len() == 0 || close == seq!['\''],
    ensures
        !occurs(TOKEN0_COLUMN@, piece + value + close),
{
    reveal_strlit("`token0_address`");
    let c = TOKEN0_COLUMN@;
    let n = c.len() as int;
    let t = piece + value + close;
    assert forall|i: int| 0 <= i && i + c.len() <= t.len() implies #[trigger] t.subrange(
        i,
        i + c.len(),
    ) != c by {
        let w = t.subrange(i, i + n);
        if w == c {
            assert(w[0] == t[i] && w[1] == t[i + 1] && w[2] == t[i + 2]);
            if i < piece.len() {
                assert(t[i] == piece[i]);
                assert(t[i + 1] == piece[i + 1]);
                assert(t[i + 2] == piece[i + 2]);
                assert(false);
            } else if i + n <= piece.len() + value.len() {
                assert(w =~= value.subrange(i - piece.len(), i - piece.len() + n));
                assert(false);
            } else {
                assert(w[n - 1] == t[i + n - 1]);
                assert(t[t.len() - 1] == '\'');
                assert(false);
            }
        }
    }
}

} // verus!
