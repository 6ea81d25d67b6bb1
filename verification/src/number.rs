//! Numbers with a fraction, held exactly and compared by what they stand for.

use crate::text::characters;
use vstd::prelude::*;

verus! {

// ---------------------------------------------------------------------------
// Coefficients and decimal places
// ---------------------------------------------------------------------------

/// Ten to the power of `n`.
pub open spec fn power_of_ten(n: nat) -> int
    decreases n,
{
    if n == 0 {
        1
    } else {
        10 * power_of_ten((n - 1) as nat)
    }
}

/// `a` with `m` decimal places is the same number as `b` with `n` of them. A negative count of
/// places stands for zeros behind the coefficient.
pub open spec fn same_number(a: int, m: int, b: int, n: int) -> bool {
    if m <= n {
        a * power_of_ten((n - m) as nat) == b
    } else {
        a == b * power_of_ten((m - n) as nat)
    }
}

/// The number `a` with `m` decimal places, written with the smallest coefficient: one that does
/// not end in a zero. Zero has no decimal places.
pub open spec fn lowest_form(a: int, m: int) -> (int, int)
    decreases
            if a < 0 {
                -a
            } else {
                a
            },
{
    if a == 0 {
        (0, 0)
    } else if a % 10 == 0 {
        lowest_form(a / 10, m - 1)
    } else {
        (a, m)
    }
}

/// Two numbers are the same exactly where their lowest forms are.
pub proof fn lowest_form_tells_numbers_apart(a: int, m: int, b: int, n: int)
    ensures
        lowest_form(a, m) == lowest_form(b, n) <==> same_number(a, m, b, n),
    decreases
            (if a < 0 {
                -a
            } else {
                a
            }) + (if b < 0 {
                -b
            } else {
                b
            }),
{
    if a == 0 || b == 0 {
        zero_is_itself_alone(a, m, b, n);
        lowest_form_of_nonzero(a, m);
        lowest_form_of_nonzero(b, n);
    } else if a % 10 == 0 {
        ending_zero_is_a_place(a, m, b, n);
        lowest_form_tells_numbers_apart(a / 10, m - 1, b, n);
    } else if b % 10 == 0 {
        sameness_is_mutual(a, m, b, n);
        sameness_is_mutual(a, m, b / 10, n - 1);
        ending_zero_is_a_place(b, n, a, m);
        lowest_form_tells_numbers_apart(a, m, b / 10, n - 1);
    } else if m < n {
        let p = power_of_ten((n - m - 1) as nat);
        assert(a * (10 * p) == 10 * (a * p)) by (nonlinear_arith);
    } else if m > n {
        let p = power_of_ten((m - n - 1) as nat);
        assert(b * (10 * p) == 10 * (b * p)) by (nonlinear_arith);
    }
}

proof fn sameness_is_mutual(a: int, m: int, b: int, n: int)
    ensures
        same_number(a, m, b, n) <==> same_number(b, n, a, m),
{
    let p = power_of_ten(0);
    assert(a * p == a && b * p == b) by (nonlinear_arith)
        requires
            p == 1,
    ;
}

proof fn power_is_positive(n: nat)
    ensures
        power_of_ten(n) > 0,
    decreases n,
{
    if n > 0 {
        power_is_positive((n - 1) as nat);
    }
}

proof fn zero_is_itself_alone(a: int, m: int, b: int, n: int)
    requires
        a == 0 || b == 0,
    ensures
        same_number(a, m, b, n) <==> a == b,
{
    let p = power_of_ten((if m <= n { n - m } else { m - n }) as nat);
    power_is_positive((if m <= n { n - m } else { m - n }) as nat);
    assert(a * p == 0 <==> a == 0) by (nonlinear_arith)
        requires
            p > 0,
    ;
    assert(b * p == 0 <==> b == 0) by (nonlinear_arith)
        requires
            p > 0,
    ;
}

proof fn lowest_form_of_nonzero(a: int, m: int)
    ensures
        lowest_form(a, m).0 == 0 <==> a == 0,
    decreases
            if a < 0 {
                -a
            } else {
                a
            },
{
    if a != 0 && a % 10 == 0 {
        lowest_form_of_nonzero(a / 10, m - 1);
    }
}

proof fn ending_zero_is_a_place(a: int, m: int, b: int, n: int)
    requires
        a % 10 == 0,
    ensures
        same_number(a, m, b, n) <==> same_number(a / 10, m - 1, b, n),
{
    let c = a / 10;
    if m <= n {
        let p = power_of_ten((n - m) as nat);
        assert((n - (m - 1)) as nat == (n - m) as nat + 1);
        assert(power_of_ten((n - (m - 1)) as nat) == 10 * p);
        assert((10 * c) * p == c * (10 * p)) by (nonlinear_arith);
    } else {
        let p = power_of_ten((m - n - 1) as nat);
        assert(power_of_ten((m - n) as nat) == 10 * p);
        assert(b * (10 * p) == 10 * (b * p)) by (nonlinear_arith);
        if m - 1 == n {
            assert(b * p == b);
            assert(c * power_of_ten(0) == c);
        }
    }
}

// ---------------------------------------------------------------------------
// Integers as text
// ---------------------------------------------------------------------------

/// The digits of an integer's text, without its sign.
pub open spec fn unsigned_text(text: Seq<char>) -> Seq<char> {
    if text.len() > 0 && text[0] == '-' {
        text.skip(1)
    } else {
        text
    }
}

/// `text` is an integer in decimal: digits, behind a minus sign where it is negative.
pub open spec fn is_integer_text(text: Seq<char>) -> bool {
    &&& unsigned_text(text).len() > 0
    &&& forall|i: int|
        0 <= i < unsigned_text(text).len() ==> '0' <= #[trigger] unsigned_text(text)[i] <= '9'
}

/// The integer that a text stands for.
pub open spec fn integer_value(text: Seq<char>) -> int {
    let size = crate::text::decimal_value(unsigned_text(text));
    if text.len() > 0 && text[0] == '-' {
        -size
    } else {
        size
    }
}

/// The decimal text of an integer is an integer's text, and it stands for that integer.
pub proof fn signed_decimal_reads_back(n: int)
    ensures
        is_integer_text(crate::text::signed_decimal(n)),
        integer_value(crate::text::signed_decimal(n)) == n,
        crate::text::signed_decimal(n)[0] == '-' <==> n < 0,
{
    let text = crate::text::signed_decimal(n);
    let size = (if n < 0 {
        -n
    } else {
        n
    }) as nat;
    let d = crate::text::decimal(size);
    crate::text::decimal_reads_back(size);
    crate::text::decimal_has_digits_only(size);
    crate::text::decimal_has_no_leading_zero(size);
    assert(48 <= d[0] as int <= 57);
    assert(unsigned_text(text) =~= d);
    assert forall|i: int| 0 <= i < unsigned_text(text).len() implies '0' <= #[trigger] unsigned_text(
        text,
    )[i] <= '9' by {
        assert(48 <= d[i] as int <= 57);
    }
}

/// The number that digits stand for, the most significant digit first.
spec fn digits_value(digits: Seq<u8>) -> int
    decreases digits.len(),
{
    if digits.len() == 0 {
        0
    } else {
        digits_value(digits.drop_last()) * 10 + digits.last()
    }
}

/// Digits without a leading zero.
spec fn are_digits(digits: Seq<u8>) -> bool {
    &&& forall|i: int| 0 <= i < digits.len() ==> #[trigger] digits[i] < 10
    &&& digits.len() > 0 ==> digits[0] != 0
}

proof fn digits_are_positive(digits: Seq<u8>)
    requires
        are_digits(digits),
    ensures
        digits.len() == 0 <==> digits_value(digits) == 0,
        digits_value(digits) >= 0,
    decreases digits.len(),
{
    if digits.len() > 0 {
        digits_are_positive(digits.drop_last());
    }
}

proof fn digits_are_unique(a: Seq<u8>, b: Seq<u8>)
    requires
        are_digits(a),
        are_digits(b),
        digits_value(a) == digits_value(b),
    ensures
        a == b,
    decreases a.len(),
{
    digits_are_positive(a);
    digits_are_positive(b);
    if a.len() > 0 {
        assert(digits_value(a) % 10 == a.last());
        assert(digits_value(b) % 10 == b.last());
        digits_are_unique(a.drop_last(), b.drop_last());
        assert(a =~= a.drop_last().push(a.last()));
        assert(b =~= b.drop_last().push(b.last()));
    } else {
        assert(a =~= b);
    }
}

// ---------------------------------------------------------------------------
// Decimals
// ---------------------------------------------------------------------------

/// A number with a fraction, in its lowest form.
#[derive(Debug)]
pub struct Decimal {
    negative: bool,
    digits: Vec<u8>,
    scale: i128,
}

impl View for Decimal {
    type V = (int, int);

    /// The coefficient and the number of decimal places.
    closed spec fn view(&self) -> (int, int) {
        (signed(self.negative, self.digits@), self.scale as int)
    }
}

spec fn signed(negative: bool, digits: Seq<u8>) -> int {
    if negative {
        -digits_value(digits)
    } else {
        digits_value(digits)
    }
}

impl Decimal {
    #[verifier::type_invariant]
    spec fn is_lowest(self) -> bool {
        &&& are_digits(self.digits@)
        &&& if self.digits@.len() == 0 {
            !self.negative && self.scale == 0
        } else {
            self.digits@.last() != 0
        }
    }

    /// The integer `unscaled` with `scale` decimal places. `None` where the text is no integer.
    pub fn read(unscaled: &str, scale: i64) -> (r: Option<Decimal>)
        ensures
            r is Some <==> is_integer_text(unscaled@),
            r matches Some(number) ==> number@ == lowest_form(
                integer_value(unscaled@),
                scale as int,
            ),
    {
        let chars = characters(unscaled);
        let negative = chars.len() > 0 && chars[0] == '-';
        let first: usize = if negative {
            1
        } else {
            0
        };
        let ghost body = unsigned_text(unscaled@);
        assert(body =~= chars@.skip(first as int));
        if chars.len() == first {
            return None;
        }
        let mut digits: Vec<u8> = Vec::new();
        let mut i: usize = first;
        assert(body.take(0) =~= Seq::<char>::empty());
        while i < chars.len()
            invariant
                first <= i <= chars@.len(),
                body == unsigned_text(unscaled@),
                body == chars@.skip(first as int),
                are_digits(digits@),
                forall|j: int| 0 <= j < i - first ==> '0' <= #[trigger] body[j] <= '9',
                digits_value(digits@) == crate::text::decimal_value(body.take(i - first)),
            decreases chars@.len() - i,
        {
            let c = chars[i];
            assert(body[i - first] == c);
            if c < '0' || c > '9' {
                return None;
            }
            let d: u8 = (c as u32 - 48) as u8;
            let ghost next = body.take(i - first + 1);
            let ghost before = digits@;
            assert(next.drop_last() =~= body.take(i - first));
            assert(next.last() == c);
            if d != 0 || digits.len() > 0 {
                digits.push(d);
                assert(digits@.drop_last() =~= before);
            }
            i += 1;
        }
        assert(body.take(i - first) =~= body);
        Some(Decimal::from_digits(negative, digits, scale))
    }

    /// The number with the given digits, sign and decimal places.
    fn from_digits(negative: bool, all_digits: Vec<u8>, scale: i64) -> (r: Decimal)
        requires
            are_digits(all_digits@),
        ensures
            r@ == lowest_form(signed(negative, all_digits@), scale as int),
    {
        let ghost all = all_digits@;
        let count: usize = all_digits.len();
        let mut digits = all_digits;
        let mut places: i128 = scale as i128;
        while digits.len() > 0 && digits[digits.len() - 1] == 0
            invariant
                are_digits(digits@),
                digits@.len() <= count,
                places == scale - (count - digits@.len()),
                lowest_form(signed(negative, all), scale as int) == lowest_form(
                    signed(negative, digits@),
                    places as int,
                ),
            decreases digits@.len(),
        {
            proof {
                digits_are_positive(digits@);
                let a = signed(negative, digits@);
                assert(a % 10 == 0 && a / 10 == signed(negative, digits@.drop_last()));
            }
            let ghost before = digits@;
            let _ = digits.pop();
            assert(digits@ =~= before.drop_last());
            places = places - 1;
        }
        proof {
            digits_are_positive(digits@);
        }
        if digits.len() == 0 {
            Decimal { negative: false, digits, scale: 0 }
        } else {
            assert(signed(negative, digits@) % 10 != 0);
            Decimal { negative, digits, scale: places }
        }
    }

    /// Whether the two stand for the same number.
    pub fn is_equal(&self, other: &Decimal) -> (r: bool)
        ensures
            r == (self@ == other@),
    {
        proof {
            use_type_invariant(self);
            use_type_invariant(other);
            digits_are_positive(self.digits@);
            digits_are_positive(other.digits@);
            if self@ == other@ {
                digits_are_unique(self.digits@, other.digits@);
            }
        }
        if self.negative != other.negative || self.scale != other.scale || self.digits.len()
            != other.digits.len() {
            return false;
        }
        let mut i: usize = 0;
        while i < self.digits.len()
            invariant
                i <= self.digits@.len(),
                self.digits@.len() == other.digits@.len(),
                self@ == other@ ==> self.digits@ == other.digits@,
                forall|j: int| 0 <= j < i ==> self.digits@[j] == other.digits@[j],
            decreases self.digits@.len() - i,
        {
            if self.digits[i] != other.digits[i] {
                return false;
            }
            i += 1;
        }
        assert(self.digits@ =~= other.digits@);
        true
    }
}

} // verus!
