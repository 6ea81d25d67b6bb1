use dex_bench::number::Decimal;
use sqlx::types::BigDecimal;
use std::str::FromStr;

fn equal(a: (&str, i64), b: (&str, i64)) -> bool {
    Decimal::read(a.0, a.1).unwrap().is_equal(&Decimal::read(b.0, b.1).unwrap())
}

fn parts(text: &str) -> (String, i64) {
    let (unscaled, scale) = BigDecimal::from_str(text).unwrap().into_bigint_and_exponent();
    (unscaled.to_string(), scale)
}

#[test]
fn trailing_zeros_do_not_matter() {
    assert!(equal(("15", 1), ("1500", 3)));
    assert!(equal(("15", -2), ("1500", 0)));
    assert!(equal(("-70", 1), ("-7", 0)));
    assert!(!equal(("15", 1), ("15", 2)));
    assert!(!equal(("15", 1), ("-15", 1)));
    assert!(!equal(("15", 1), ("16", 1)));
    assert!(!equal(("101", 0), ("11", 0)));
}

#[test]
fn zero_is_zero_whatever_its_sign_and_scale() {
    assert!(equal(("0", 5), ("-000", i64::MIN)));
    assert!(equal(("0", i64::MAX), ("0", 0)));
    assert!(!equal(("0", 0), ("1", i64::MAX)));
}

#[test]
fn leading_zeros_do_not_matter() {
    assert!(equal(("007", 0), ("7", 0)));
    assert!(equal(("-0070", i64::MIN), ("-70", i64::MIN)));
}

#[test]
fn only_integers_are_read() {
    assert!(Decimal::read("", 0).is_none());
    assert!(Decimal::read("-", 0).is_none());
    assert!(Decimal::read("1.5", 0).is_none());
    assert!(Decimal::read("+1", 0).is_none());
    assert!(Decimal::read("--1", 0).is_none());
    assert!(Decimal::read("12a", 0).is_none());
    assert!(Decimal::read("12", 0).is_some());
}

#[test]
fn equality_is_that_of_big_decimals() {
    let texts = [
        "0", "0.000", "-0", "1", "1.0", "-1", "10", "1e1", "100e-1", "0.1", "0.10", "-0.1", "123.45600",
        "123.456", "99999999999999999999999999.90", "99999999999999999999999999.9", "1e30",
        "1000000000000000000000000000000", "1e-30", "0.000000000000000000000000000001",
    ];
    for a in texts {
        for b in texts {
            let (x, m) = parts(a);
            let (y, n) = parts(b);
            let same = BigDecimal::from_str(a).unwrap() == BigDecimal::from_str(b).unwrap();
            assert_eq!(equal((&x, m), (&y, n)), same, "{} and {}", a, b);
        }
    }
}
