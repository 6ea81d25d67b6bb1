use dex_bench::text::{
    characters, join, push_decimal, push_padded, push_signed_decimal, replace,
};

fn decimal(n: u128) -> String {
    let mut s = String::from("<");
    push_decimal(&mut s, n);
    s
}

fn signed(n: i64) -> String {
    let mut s = String::new();
    push_signed_decimal(&mut s, n);
    s
}

#[test]
fn decimals_match_the_usual_text() {
    for n in [0, 7, 9, 10, 99, 100, 1001, 1234567890, u64::MAX as u128, u128::MAX] {
        assert_eq!(decimal(n), format!("<{}", n));
    }
    assert_eq!(decimal(340), "<340");
}

#[test]
fn signed_decimals_match_the_usual_text() {
    for n in [0, -1, 1, -10, 42, i64::MAX, i64::MIN] {
        assert_eq!(signed(n), n.to_string());
    }
    assert_eq!(signed(-305), "-305");
}

#[test]
fn characters_are_kept_in_order() {
    assert_eq!(characters("aé✅"), vec!['a', 'é', '✅']);
    assert!(characters("").is_empty());
}

#[test]
fn replacement_goes_from_the_left_without_overlap() {
    assert_eq!(replace("aaaaa", "aa", "b"), "bba");
    assert_eq!(replace("{}x{}", "{}", "idx"), "idxxidx");
    assert_eq!(replace("{{}}", "{}", "y"), "{y}");
    assert_eq!(replace("ab", "abc", "z"), "ab");
    assert_eq!(replace("", "a", "z"), "");
}

#[test]
fn replacement_matches_the_standard_library() {
    let texts = ["", "'", "o'neil", "''", "a{}b{}{}", "{{}{}", "é'✅'", "`token0_address`x"];
    let patterns = ["'", "{}", "`token0_address`", "é", "{{"];
    for t in texts {
        for p in patterns {
            assert_eq!(replace(t, p, "<>"), t.replace(p, "<>"));
        }
    }
}

#[test]
fn what_is_absent_is_not_replaced() {
    assert_eq!(replace("idx_desc", "{}", "primary"), "idx_desc");
}

#[test]
fn joining_puts_the_separator_between_neighbours() {
    let parts = vec!["a".to_string(), "".to_string(), "c".to_string()];
    assert_eq!(join(&parts, ", "), "a, , c");
    assert_eq!(join(&vec!["one".to_string()], ", "), "one");
    assert_eq!(join(&Vec::new(), ", "), "");
}

#[test]
fn padding_counts_characters() {
    let mut s = String::from(">");
    push_padded(&mut s, "é", 3);
    s.push('|');
    assert_eq!(s, ">é  |");
    let mut long = String::new();
    push_padded(&mut long, "abcdef", 3);
    assert_eq!(long, "abcdef");
    let mut exact = String::new();
    push_padded(&mut exact, "abc", 3);
    assert_eq!(exact, "abc");
}
