use dex_bench::quote::{escape_quotes, quote_list};

#[test]
fn quotes_are_doubled() {
    assert_eq!(escape_quotes("o'neil"), "o''neil");
    assert_eq!(escape_quotes("''"), "''''");
    assert_eq!(escape_quotes("plain"), "plain");
    assert_eq!(escape_quotes(""), "");
}

#[test]
fn lists_are_quoted_and_separated() {
    let values = vec!["a".to_string(), "b'c".to_string()];
    assert_eq!(quote_list(&values), "'a', 'b''c'");
    assert_eq!(quote_list(&Vec::new()), "");
}

fn read_literal(s: &str) -> Option<(String, String)> {
    let chars: Vec<char> = s.chars().collect();
    let mut value = String::new();
    let mut i = 0;
    while i < chars.len() {
        if chars[i] != '\'' {
            value.push(chars[i]);
            i += 1;
        } else if i + 1 < chars.len() && chars[i + 1] == '\'' {
            value.push('\'');
            i += 2;
        } else {
            return Some((value, chars[i + 1..].iter().collect()));
        }
    }
    None
}

#[test]
fn a_quoted_value_reads_back() {
    for value in ["", "'", "a'b", "''x'", "x' OR '1'='1"] {
        let sql = format!("{}' AND 1", escape_quotes(value));
        assert_eq!(read_literal(&sql), Some((value.to_string(), " AND 1".to_string())));
    }
}

#[test]
fn a_quoted_list_reads_back() {
    let values = vec!["a', 'b".to_string(), "'".to_string(), "c".to_string()];
    let mut rest = format!("{})", quote_list(&values));
    let mut read = Vec::new();
    loop {
        let (value, behind) = read_literal(&rest[1..]).unwrap();
        read.push(value);
        if behind == ")" {
            break;
        }
        rest = behind[2..].to_string();
    }
    assert_eq!(read, values);
}
