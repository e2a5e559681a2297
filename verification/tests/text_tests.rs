use jpass::ids::new_uuid_string;
use jpass::text::{decimal_string, eq_ignore_ascii_case_str, to_ascii_lower, trim};

#[test]
fn trim_removes_surrounding_whitespace() {
    assert_eq!(trim("  a b \n"), "a b");
    assert_eq!(trim("\t\t"), "");
    assert_eq!(trim("x"), "x");
}

#[test]
fn ascii_case_folding() {
    assert_eq!(to_ascii_lower('Q'), 'q');
    assert_eq!(to_ascii_lower('é'), 'é');
    assert!(eq_ignore_ascii_case_str("Work", "wORK"));
    assert!(!eq_ignore_ascii_case_str("Work", "Works"));
    assert!(!eq_ignore_ascii_case_str("É", "é"));
}

#[test]
fn decimal_text() {
    assert_eq!(decimal_string(0), "0");
    assert_eq!(decimal_string(1700000000123), "1700000000123");
    assert_eq!(decimal_string(u128::MAX), u128::MAX.to_string());
}

#[test]
fn uuid_strings_are_hyphenated_lowercase_hex() {
    let a = new_uuid_string();
    let b = new_uuid_string();
    assert_ne!(a, b);
    assert_eq!(a.len(), 36);
    for (i, c) in a.char_indices() {
        if i == 8 || i == 13 || i == 18 || i == 23 {
            assert_eq!(c, '-');
        } else {
            assert!(c.is_ascii_digit() || ('a'..='f').contains(&c));
        }
    }
}
