//! SQL string values: quoting, and what a reader of the quoted text gets back.

use crate::text::{join, joined, occurs, replace, replaced, texts};
use vstd::prelude::*;

verus! {

/// `value` with every single quote doubled.
pub open spec fn escaped(value: Seq<char>) -> Seq<char> {
    replaced(value, seq!['\''], seq!['\'', '\''])
}

/// `value` as a string literal.
pub open spec fn quoted(value: Seq<char>) -> Seq<char> {
    seq!['\''] + escaped(value) + seq!['\'']
}

/// Every value as a string literal, separated by commas.
pub open spec fn quoted_list(values: Seq<Seq<char>>) -> Seq<char> {
    joined(Seq::new(values.len(), |i: int| quoted(values[i])), ", "@)
}

/// What a reader of standard SQL, to whom a backslash is a character like any other, finds
/// behind an opening quote: the value up to the closing quote, two quotes in a row standing for
/// one, and the text behind the closing quote. `None` where the literal is never closed.
pub open spec fn read_literal(s: Seq<char>) -> Option<(Seq<char>, Seq<char>)>
    decreases s.len(),
{
    if s.len() == 0 {
        None
    } else if s[0] != '\'' {
        match read_literal(s.skip(1)) {
            Some((value, rest)) => Some((seq![s[0]] + value, rest)),
            None => None,
        }
    } else if s.len() >= 2 && s[1] == '\'' {
        match read_literal(s.skip(2)) {
            Some((value, rest)) => Some((seq!['\''] + value, rest)),
            None => None,
        }
    } else {
        Some((Seq::empty(), s.skip(1)))
    }
}

/// One step of `escaped`.
proof fn escaped_unfolds(value: Seq<char>)
    ensures
        value.len() == 0 ==> escaped(value) == value,
        value.len() > 0 && value[0] == '\'' ==> escaped(value) == seq!['\'', '\''] + escaped(
            value.skip(1),
        ),
        value.len() > 0 && value[0] != '\'' ==> escaped(value) == seq![value[0]] + escaped(
            value.skip(1),
        ),
{
    if value.len() > 0 {
        if value[0] == '\'' {
            assert(value.take(1) =~= seq!['\'']);
        } else {
            assert(value.take(1)[0] != seq!['\''][0]);
        }
    }
}

/// A value survives quoting, whatever quotes it holds: a reader of standard SQL gets the value
/// back and stops at the closing quote, so no quote in a value ends its literal early.
pub proof fn quoted_value_reads_back(value: Seq<char>, rest: Seq<char>)
    requires
        rest.len() == 0 || rest[0] != '\'',
    ensures
        quoted(value)[0] == '\'',
        read_literal((quoted(value) + rest).skip(1)) == Some((value, rest)),
{
    body_reads_back(value, rest);
    assert((quoted(value) + rest).skip(1) =~= escaped(value) + seq!['\''] + rest);
}

pub(crate) proof fn body_reads_back(value: Seq<char>, rest: Seq<char>)
    requires
        rest.len() == 0 || rest[0] != '\'',
    ensures
        read_literal(escaped(value) + seq!['\''] + rest) == Some((value, rest)),
    decreases value.len(),
{
    escaped_unfolds(value);
    let s = escaped(value) + seq!['\''] + rest;
    if value.len() == 0 {
        assert(s.skip(1) =~= rest);
        assert(value =~= Seq::<char>::empty());
    } else {
        let tail = value.skip(1);
        body_reads_back(tail, rest);
        if value[0] == '\'' {
            assert(s.skip(2) =~= escaped(tail) + seq!['\''] + rest);
            assert(seq!['\''] + tail =~= value);
        } else {
            assert(s.skip(1) =~= escaped(tail) + seq!['\''] + rest);
            assert(seq![value[0]] + tail =~= value);
        }
    }
}

/// What a reader finds in a list of `count` literals separated by commas: their values, and the
/// text behind the last of them.
pub open spec fn read_list(s: Seq<char>, count: nat) -> Option<(Seq<Seq<char>>, Seq<char>)>
    decreases count,
{
    if count == 0 {
        Some((Seq::empty(), s))
    } else if s.len() == 0 || s[0] != '\'' {
        None
    } else {
        match read_literal(s.skip(1)) {
            None => None,
            Some((value, rest)) => if count == 1 {
                Some((seq![value], rest))
            } else if rest.len() < 2 || rest.take(2) != ", "@ {
                None
            } else {
                match read_list(rest.skip(2), (count - 1) as nat) {
                    Some((values, behind)) => Some((seq![value] + values, behind)),
                    None => None,
                }
            },
        }
    }
}

/// A list of values survives quoting: a reader gets the values back, all of them and in order.
pub proof fn quoted_list_reads_back(values: Seq<Seq<char>>, rest: Seq<char>)
    requires
        rest.len() == 0 || rest[0] != '\'',
    ensures
        read_list(quoted_list(values) + rest, values.len()) == Some((values, rest)),
    decreases values.len(),
{
    reveal_strlit(", ");
    let parts = Seq::new(values.len(), |i: int| quoted(values[i]));
    let s = quoted_list(values) + rest;
    if values.len() == 0 {
        assert(s =~= rest);
        assert(values =~= Seq::<Seq<char>>::empty());
    } else if values.len() == 1 {
        quoted_value_reads_back(values[0], rest);
        assert(s =~= quoted(values[0]) + rest);
        assert(values =~= seq![values[0]]);
    } else {
        let others = values.skip(1);
        let other_parts = Seq::new(others.len(), |i: int| quoted(others[i]));
        joined_from_the_left(parts, ", "@);
        assert(parts.skip(1) =~= other_parts);
        quoted_list_reads_back(others, rest);
        let behind = ", "@ + (quoted_list(others) + rest);
        quoted_value_reads_back(values[0], behind);
        assert(s =~= quoted(values[0]) + behind);
        assert(behind.take(2) =~= ", "@);
        assert(behind.skip(2) =~= quoted_list(others) + rest);
        assert(seq![values[0]] + others =~= values);
    }
}

proof fn joined_from_the_left(parts: Seq<Seq<char>>, sep: Seq<char>)
    requires
        parts.len() >= 2,
    ensures
        joined(parts, sep) == parts[0] + sep + joined(parts.skip(1), sep),
    decreases parts.len(),
{
    let front = parts.drop_last();
    if parts.len() == 2 {
        assert(joined(front, sep) == parts[0]);
        assert(joined(parts.skip(1), sep) == parts[1]);
    } else {
        joined_from_the_left(front, sep);
        let rest = parts.skip(1);
        assert(rest.drop_last() =~= front.skip(1));
        assert(joined(parts, sep) =~= parts[0] + sep + (joined(front.skip(1), sep) + sep
            + parts.last()));
    }
}

/// `pattern` has no single quote.
pub open spec fn quote_free(pattern: Seq<char>) -> bool {
    forall|i: int| 0 <= i < pattern.len() ==> pattern[i] != '\''
}

proof fn escaped_prefix_is_a_prefix(value: Seq<char>, pattern: Seq<char>)
    requires
        quote_free(pattern),
        pattern.len() <= escaped(value).len(),
        escaped(value).take(pattern.len() as int) == pattern,
    ensures
        pattern.len() <= value.len(),
        value.take(pattern.len() as int) == pattern,
    decreases pattern.len(),
{
    escaped_unfolds(value);
    if pattern.len() == 0 {
        assert(value.take(0) =~= pattern);
    } else {
        let e = escaped(value);
        assert(e.take(pattern.len() as int)[0] == e[0]);
        let tail = value.skip(1);
        let short = pattern.skip(1);
        assert(escaped(tail).take(short.len() as int) =~= short) by {
            assert forall|i: int| 0 <= i < short.len() implies escaped(tail)[i] == short[i] by {
                assert(e.take(pattern.len() as int)[i + 1] == e[i + 1]);
            }
        }
        escaped_prefix_is_a_prefix(tail, short);
        assert forall|i: int| 0 <= i < pattern.len() implies value[i] == pattern[i] by {
            if i > 0 {
                assert(tail.take(short.len() as int)[i - 1] == short[i - 1]);
            }
        }
        assert(value.take(pattern.len() as int) =~= pattern);
    }
}

/// Quoting brings no pattern without quotes into a value that does not hold it.
pub proof fn escaping_adds_no_pattern(value: Seq<char>, pattern: Seq<char>)
    requires
        quote_free(pattern),
        pattern.len() > 0,
        !occurs(pattern, value),
    ensures
        !occurs(pattern, escaped(value)),
    decreases value.len(),
{
    escaped_unfolds(value);
    let n = pattern.len() as int;
    let e = escaped(value);
    if value.len() > 0 {
        let tail = value.skip(1);
        assert forall|i: int| 0 <= i && i + n <= tail.len() implies #[trigger] tail.subrange(
            i,
            i + n,
        ) != pattern by {
            assert(tail.subrange(i, i + n) =~= value.subrange(i + 1, i + 1 + n));
        }
        escaping_adds_no_pattern(tail, pattern);
        assert forall|i: int| 0 <= i && i + n <= e.len() implies #[trigger] e.subrange(i, i + n)
            != pattern by {
            if e.subrange(i, i + n) == pattern {
                assert(e.subrange(i, i + n)[0] == e[i]);
                let head: int = if value[0] == '\'' {
                    2
                } else {
                    1
                };
                if i >= head {
                    assert(escaped(tail).subrange(i - head, i - head + n) =~= e.subrange(i, i + n));
                    assert(false);
                } else if i == 0 {
                    assert(e.take(n) =~= e.subrange(i, i + n));
                    escaped_prefix_is_a_prefix(value, pattern);
                    assert(value.subrange(0int, 0int + n) =~= value.take(n));
                    assert(false);
                }
            }
        }
    }
}

/// `value` with every single quote doubled.
pub fn escape_quotes(value: &str) -> (r: String)
    ensures
        r@ == escaped(value@),
{
    proof {
        reveal_strlit("'");
        reveal_strlit("''");
        assert("'"@ =~= seq!['\'']);
        assert("''"@ =~= seq!['\'', '\'']);
    }
    replace(value, "'", "''")
}

/// The values as string literals, separated by commas.
pub fn quote_list(values: &Vec<String>) -> (r: String)
    ensures
        r@ == quoted_list(texts(values@)),
{
    let mut literals: Vec<String> = Vec::new();
    let mut i: usize = 0;
    while i < values.len()
        invariant
            i <= values@.len(),
            literals@.len() == i,
            forall|j: int| 0 <= j < i ==> #[trigger] literals@[j]@ == quoted(values@[j]@),
        decreases values@.len() - i,
    {
        let mut literal = String::new();
        literal.push('\'');
        literal.append(escape_quotes(values[i].as_str()).as_str());
        literal.push('\'');
        assert(literal@ =~= quoted(values@[i as int]@));
        literals.push(literal);
        i += 1;
    }
    assert(texts(literals@) =~= Seq::new(
        texts(values@).len(),
        |i: int| quoted(texts(values@)[i]),
    ));
    join(&literals, ", ")
}

} // verus!
