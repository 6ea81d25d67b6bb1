//! Text building: decimal numbers, replacement, joining and padding.

use vstd::prelude::*;

verus! {

/// `String::push` appends the given character to the end of the string.
pub assume_specification[ String::push ](text: &mut String, c: char)
    ensures
        final(text)@ == old(text)@.push(c),
;

/// The contents of a list of strings.
pub open spec fn texts(list: Seq<String>) -> Seq<Seq<char>> {
    Seq::new(list.len(), |i: int| list[i]@)
}

/// The contents of a list of strings are those of its strings, one by one.
pub proof fn texts_are_the_contents(list: Seq<String>)
    ensures
        texts(list).len() == list.len(),
        forall|i: int| 0 <= i < list.len() ==> #[trigger] texts(list)[i] == list[i]@,
{
}

// ---------------------------------------------------------------------------
// Decimal numbers
// ---------------------------------------------------------------------------

/// The character of a decimal digit.
pub open spec fn digit(d: nat) -> char {
    (48 + d) as char
}

/// A natural number in decimal, without leading zeros.
pub open spec fn decimal(n: nat) -> Seq<char>
    decreases n,
{
    if n < 10 {
        seq![digit(n)]
    } else {
        decimal(n / 10).push(digit(n % 10))
    }
}

/// An integer in decimal, with a minus sign where it is negative.
pub open spec fn signed_decimal(n: int) -> Seq<char> {
    if n < 0 {
        seq!['-'] + decimal((-n) as nat)
    } else {
        decimal(n as nat)
    }
}

/// The number that a run of decimal digits stands for.
pub open spec fn decimal_value(s: Seq<char>) -> int
    decreases s.len(),
{
    if s.len() == 0 {
        0
    } else {
        decimal_value(s.drop_last()) * 10 + (s.last() as int - 48)
    }
}

/// Reading a number's decimal text gives the number back, so no two numbers share a text.
pub proof fn decimal_reads_back(n: nat)
    ensures
        decimal_value(decimal(n)) == n,
    decreases n,
{
    reveal_with_fuel(decimal_value, 2);
    if n < 10 {
        assert(decimal(n).drop_last() =~= Seq::<char>::empty());
    } else {
        decimal_reads_back(n / 10);
        assert(decimal(n).drop_last() =~= decimal(n / 10));
    }
}

/// Every character of a decimal text is a digit.
pub proof fn decimal_has_digits_only(n: nat)
    ensures
        forall|i: int|
            0 <= i < decimal(n).len() ==> 48 <= (#[trigger] decimal(n)[i]) as int <= 57,
    decreases n,
{
    if n >= 10 {
        decimal_has_digits_only(n / 10);
        assert(decimal(n).drop_last() =~= decimal(n / 10));
        assert forall|i: int| 0 <= i < decimal(n).len() implies 48 <= (
        #[trigger] decimal(n)[i]) as int <= 57 by {
            if i < decimal(n).len() - 1 {
                assert(decimal(n)[i] == decimal(n / 10)[i]);
            }
        }
    }
}

/// A decimal text is not empty, and it begins with a zero only where the number is zero.
pub proof fn decimal_has_no_leading_zero(n: nat)
    ensures
        decimal(n).len() > 0,
        decimal(n)[0] == '0' <==> n == 0,
        n < 10 ==> decimal(n).len() == 1,
    decreases n,
{
    if n >= 10 {
        decimal_has_no_leading_zero(n / 10);
        assert(decimal(n)[0] == decimal(n / 10)[0]);
    }
}

/// Appends a number in decimal.
pub fn push_decimal(out: &mut String, n: u128)
    ensures
        final(out)@ == old(out)@ + decimal(n as nat),
    decreases n,
{
    if n >= 10 {
        push_decimal(out, n / 10);
    }
    let last: u8 = (n % 10) as u8;
    out.push((48u8 + last) as char);
}

/// Appends an integer in decimal, with its sign where it is negative.
pub fn push_signed_decimal(out: &mut String, n: i64)
    ensures
        final(out)@ == old(out)@ + signed_decimal(n as int),
{
    if n < 0 {
        out.push('-');
        push_decimal(out, (-(n as i128)) as u128);
    } else {
        push_decimal(out, n as u128);
    }
}

// ---------------------------------------------------------------------------
// Replacement
// ---------------------------------------------------------------------------

/// `text` with every match of `pattern` exchanged for `with`: the matches are taken from
/// the left and do not overlap.
pub open spec fn replaced(text: Seq<char>, pattern: Seq<char>, with: Seq<char>) -> Seq<char>
    decreases text.len(),
{
    if pattern.len() == 0 || text.len() < pattern.len() {
        text
    } else if text.take(pattern.len() as int) == pattern {
        with + replaced(text.skip(pattern.len() as int), pattern, with)
    } else {
        seq![text[0]] + replaced(text.skip(1), pattern, with)
    }
}

/// Some stretch of `text` equals `pattern`.
pub open spec fn occurs(pattern: Seq<char>, text: Seq<char>) -> bool {
    exists|i: int|
        0 <= i && i + pattern.len() <= text.len() && #[trigger] text.subrange(
            i,
            i + pattern.len(),
        ) == pattern
}

/// Replacing what does not occur changes nothing.
pub proof fn replacing_the_absent_changes_nothing(
    text: Seq<char>,
    pattern: Seq<char>,
    with: Seq<char>,
)
    requires
        !occurs(pattern, text),
    ensures
        replaced(text, pattern, with) == text,
    decreases text.len(),
{
    if pattern.len() != 0 && text.len() >= pattern.len() {
        assert(text.take(pattern.len() as int) =~= text.subrange(0int, 0int + pattern.len()));
        let rest = text.skip(1);
        assert forall|i: int| 0 <= i && i + pattern.len() <= rest.len() implies
            #[trigger] rest.subrange(i, i + pattern.len()) != pattern by {
            assert(rest.subrange(i, i + pattern.len()) =~= text.subrange(
                i + 1,
                i + 1 + pattern.len(),
            ));
        }
        replacing_the_absent_changes_nothing(rest, pattern, with);
        assert(seq![text[0]] + rest =~= text);
    }
}

/// No match of `pattern` in `a + b` lies across the seam.
pub open spec fn seam_free(a: Seq<char>, b: Seq<char>, pattern: Seq<char>) -> bool {
    forall|i: int|
        0 <= i && a.len() < i + pattern.len() <= a.len() + b.len() && i < a.len()
            ==> #[trigger] (a + b).subrange(i, i + pattern.len()) != pattern
}

/// Replacement works on both sides of a seam on its own where no match lies across it.
pub proof fn replacement_splits_at_a_seam(
    a: Seq<char>,
    b: Seq<char>,
    pattern: Seq<char>,
    with: Seq<char>,
)
    requires
        seam_free(a, b, pattern),
    ensures
        replaced(a + b, pattern, with) == replaced(a, pattern, with) + replaced(b, pattern, with),
    decreases a.len(),
{
    let n = pattern.len() as int;
    let t = a + b;
    if n == 0 {
    } else if a.len() == 0 {
        assert(t =~= b);
        assert(replaced(a, pattern, with) + replaced(b, pattern, with) =~= replaced(
            b,
            pattern,
            with,
        ));
    } else if a.len() >= n && a.take(n) == pattern {
        assert(t.take(n) =~= a.take(n));
        assert(t.skip(n) =~= a.skip(n) + b);
        assert forall|i: int|
            0 <= i && a.skip(n).len() < i + n <= a.skip(n).len() + b.len() && i < a.skip(
                n,
            ).len() implies #[trigger] (a.skip(n) + b).subrange(i, i + n) != pattern by {
            assert((a.skip(n) + b).subrange(i, i + n) =~= t.subrange(i + n, i + n + n));
        }
        replacement_splits_at_a_seam(a.skip(n), b, pattern, with);
        assert(with + (replaced(a.skip(n), pattern, with) + replaced(b, pattern, with)) =~= (with
            + replaced(a.skip(n), pattern, with)) + replaced(b, pattern, with));
    } else {
        assert(t.skip(1) =~= a.skip(1) + b);
        assert forall|i: int|
            0 <= i && a.skip(1).len() < i + n <= a.skip(1).len() + b.len() && i < a.skip(
                1,
            ).len() implies #[trigger] (a.skip(1) + b).subrange(i, i + n) != pattern by {
            assert((a.skip(1) + b).subrange(i, i + n) =~= t.subrange(i + 1, i + 1 + n));
        }
        replacement_splits_at_a_seam(a.skip(1), b, pattern, with);
        let tail = replaced(a.skip(1), pattern, with);
        assert(seq![a[0]] + (tail + replaced(b, pattern, with)) =~= (seq![a[0]] + tail) + replaced(
            b,
            pattern,
            with,
        ));
        if a.len() >= n {
            assert(t.take(n) =~= a.take(n));
        } else {
            assert(seq![a[0]] + a.skip(1) =~= a);
            if t.len() >= n {
                assert(t.take(n) =~= t.subrange(0int, 0int + n));
            } else {
                assert(b.len() < n);
            }
        }
    }
}

/// The first match of `pattern` is exchanged for `with`, the text before it stays, and the
/// replacement goes on behind it.
pub proof fn the_first_match_is_replaced(
    before: Seq<char>,
    pattern: Seq<char>,
    behind: Seq<char>,
    with: Seq<char>,
)
    requires
        pattern.len() > 0,
        forall|i: int|
            0 <= i < before.len() ==> #[trigger] (before + pattern + behind).subrange(
                i,
                i + pattern.len(),
            ) != pattern,
    ensures
        replaced(before + pattern + behind, pattern, with) == before + with + replaced(
            behind,
            pattern,
            with,
        ),
    decreases before.len(),
{
    let text = before + pattern + behind;
    let n = pattern.len() as int;
    if before.len() == 0 {
        assert(text.take(n) =~= pattern);
        assert(text.skip(n) =~= behind);
        assert(before + with + replaced(behind, pattern, with) =~= with + replaced(
            behind,
            pattern,
            with,
        ));
    } else {
        let rest = before.skip(1);
        let tail = rest + pattern + behind;
        assert(text.take(n) =~= text.subrange(0int, 0int + pattern.len()));
        assert(text.skip(1) =~= tail);
        assert forall|i: int| 0 <= i < rest.len() implies #[trigger] tail.subrange(
            i,
            i + pattern.len(),
        ) != pattern by {
            assert(tail.subrange(i, i + pattern.len()) =~= text.subrange(
                i + 1,
                i + 1 + pattern.len(),
            ));
        }
        the_first_match_is_replaced(rest, pattern, behind, with);
        assert(seq![text[0]] + (rest + with + replaced(behind, pattern, with)) =~= before + with
            + replaced(behind, pattern, with));
    }
}

/// The characters of a string, in order.
pub fn characters(text: &str) -> (r: Vec<char>)
    ensures
        r@ == text@,
{
    let mut r: Vec<char> = Vec::new();
    for c in it: text.chars()
        invariant
            it.seq() == text@,
            r@ == it.seq().take(it.index() as int),
    {
        r.push(c);
    }
    r
}

/// Whether `pattern` stands in `text` at position `at`.
fn matches_at(text: &Vec<char>, at: usize, pattern: &Vec<char>) -> (r: bool)
    requires
        at + pattern.len() <= text.len(),
    ensures
        r == (text@.subrange(at as int, at + pattern@.len()) == pattern@),
{
    let mut k: usize = 0;
    while k < pattern.len()
        invariant
            at + pattern.len() <= text.len(),
            k <= pattern@.len(),
            forall|j: int| 0 <= j < k ==> text@[at + j] == pattern@[j],
        decreases pattern@.len() - k,
    {
        if text[at + k] != pattern[k] {
            assert(text@.subrange(at as int, at + pattern@.len())[k as int] != pattern@[k as int]);
            return false;
        }
        k += 1;
    }
    assert(text@.subrange(at as int, at + pattern@.len()) =~= pattern@);
    true
}

/// `text` with every match of `pattern` exchanged for `with`.
pub fn replace(text: &str, pattern: &str, with: &str) -> (r: String)
    requires
        pattern@.len() > 0,
    ensures
        r@ == replaced(text@, pattern@, with@),
{
    let chars = characters(text);
    let wanted = characters(pattern);
    let mut out = String::new();
    let mut i: usize = 0;
    assert(text@.skip(0) =~= text@);
    while wanted.len() <= chars.len() - i
        invariant
            i <= chars@.len(),
            chars@ == text@,
            wanted@ == pattern@,
            pattern@.len() > 0,
            replaced(text@, pattern@, with@) =~= out@ + replaced(
                text@.skip(i as int),
                pattern@,
                with@,
            ),
        decreases chars@.len() - i,
    {
        let ghost rest = text@.skip(i as int);
        assert(rest.take(pattern@.len() as int) =~= text@.subrange(i as int, i + pattern@.len()));
        if matches_at(&chars, i, &wanted) {
            out.append(with);
            assert(rest.skip(pattern@.len() as int) =~= text@.skip(i + pattern@.len()));
            i += wanted.len();
        } else {
            out.push(chars[i]);
            assert(rest.skip(1) =~= text@.skip(i + 1));
            i += 1;
        }
    }
    let ghost before = out@;
    let ghost from = i as int;
    while i < chars.len()
        invariant
            0 <= from <= i <= chars@.len(),
            chars@ == text@,
            out@ =~= before + text@.subrange(from, i as int),
        decreases chars@.len() - i,
    {
        out.push(chars[i]);
        i += 1;
    }
    assert(text@.subrange(from, i as int) =~= text@.skip(from));
    out
}

// ---------------------------------------------------------------------------
// Joining and padding
// ---------------------------------------------------------------------------

/// The parts one after the other, with `sep` between neighbours.
pub open spec fn joined(parts: Seq<Seq<char>>, sep: Seq<char>) -> Seq<char>
    decreases parts.len(),
{
    if parts.len() == 0 {
        Seq::empty()
    } else if parts.len() == 1 {
        parts[0]
    } else {
        joined(parts.drop_last(), sep) + sep + parts.last()
    }
}

/// A list that is not empty is joined with one behind it by a separator between the two, one
/// part is joined to itself, and no part to nothing.
pub proof fn joining_goes_list_by_list(a: Seq<Seq<char>>, b: Seq<Seq<char>>, sep: Seq<char>)
    ensures
        a.len() > 0 && b.len() > 0 ==> joined(a + b, sep) == joined(a, sep) + sep + joined(b, sep),
        a.len() == 1 ==> joined(a, sep) == a[0],
        a.len() == 0 ==> joined(a, sep) == Seq::<char>::empty(),
    decreases b.len(),
{
    if a.len() > 0 && b.len() > 0 {
        let all = a + b;
        let front = b.drop_last();
        assert(all.drop_last() =~= a + front);
        assert(all.last() == b.last());
        if front.len() == 0 {
            assert(a + front =~= a);
        } else {
            joining_goes_list_by_list(a, front, sep);
            assert(joined(all, sep) =~= joined(a, sep) + sep + (joined(front, sep) + sep
                + b.last()));
        }
    }
}

/// Joins the parts with `sep` between neighbours.
pub fn join(parts: &Vec<String>, sep: &str) -> (r: String)
    ensures
        r@ == joined(texts(parts@), sep@),
{
    let mut out = String::new();
    let mut i: usize = 0;
    assert(texts(parts@).take(0) =~= Seq::<Seq<char>>::empty());
    while i < parts.len()
        invariant
            i <= parts@.len(),
            out@ == joined(texts(parts@).take(i as int), sep@),
        decreases parts@.len() - i,
    {
        let ghost done = texts(parts@).take(i as int);
        if i > 0 {
            out.append(sep);
        }
        out.append(parts[i].as_str());
        proof {
            let next = texts(parts@).take(i + 1);
            assert(next.drop_last() =~= done);
            assert(next.last() == parts@[i as int]@);
            if i == 0 {
                assert(Seq::<char>::empty() + parts@[0]@ =~= parts@[0]@);
            }
        }
        i += 1;
    }
    assert(texts(parts@).take(i as int) =~= texts(parts@));
    out
}

/// `text` followed by as many blanks as it takes to make `width` characters.
pub open spec fn padded(text: Seq<char>, width: nat) -> Seq<char> {
    text + Seq::new((if text.len() < width { width - text.len() } else { 0 }) as nat, |i: int| ' ')
}

/// Padding keeps the text in front, puts nothing but blanks behind it, and reaches the width
/// unless the text is longer.
pub proof fn padding_keeps_the_text(text: Seq<char>, width: nat)
    ensures
        padded(text, width).take(text.len() as int) == text,
        padded(text, width).len() == if text.len() < width {
            width
        } else {
            text.len()
        },
        forall|i: int|
            text.len() <= i < padded(text, width).len() ==> #[trigger] padded(text, width)[i]
                == ' ',
{
    assert(padded(text, width).take(text.len() as int) =~= text);
}

/// Appends `text`, and blanks after it up to `width` characters.
pub fn push_padded(out: &mut String, text: &str, width: usize)
    ensures
        final(out)@ == old(out)@ + padded(text@, width as nat),
{
    let ghost start = old(out)@;
    out.append(text);
    let mut n: usize = text.unicode_len();
    let ghost len = text@.len();
    assert(start + text@ =~= start + (text@ + Seq::new(0, |i: int| ' ')));
    while n < width
        invariant
            len == text@.len(),
            len <= n,
            n <= width || n == len,
            out@ =~= start + (text@ + Seq::new((n - len) as nat, |i: int| ' ')),
        decreases width - n,
    {
        out.push(' ');
        n += 1;
    }
}

} // verus!
