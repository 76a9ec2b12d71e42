use nesql::text::{decimal_string, digit, push_decimal, to_ascii_uppercase, upper_char};

#[test]
fn decimal_matches_display() {
    for n in [0u64, 1, 9, 10, 11, 99, 100, 405, 1000, 65535, 1_000_000_007, u64::MAX] {
        assert_eq!(decimal_string(n), n.to_string());
    }
}

#[test]
fn decimal_exact_values() {
    assert_eq!(decimal_string(0), "0");
    assert_eq!(decimal_string(405), "405");
    assert_eq!(decimal_string(u64::MAX), "18446744073709551615");
}

#[test]
fn push_decimal_appends() {
    let mut s = String::from("v");
    push_decimal(&mut s, 12);
    assert_eq!(s, "v12");
}

#[test]
fn digits_are_their_characters() {
    let all: String = (0..10).map(digit).collect();
    assert_eq!(all, "0123456789");
}

#[test]
fn upper_char_only_touches_ascii_lowercase() {
    assert_eq!(upper_char('a'), 'A');
    assert_eq!(upper_char('z'), 'Z');
    assert_eq!(upper_char('A'), 'A');
    assert_eq!(upper_char('`'), '`');
    assert_eq!(upper_char('{'), '{');
    assert_eq!(upper_char('ñ'), 'ñ');
}

#[test]
fn ascii_uppercase_matches_std() {
    for s in ["", "nql", "Sql", "postgres-17.4", "ñandú", "MiXeD cAsE"] {
        assert_eq!(to_ascii_uppercase(s), s.to_ascii_uppercase());
    }
    assert_eq!(to_ascii_uppercase("ñql"), "ñQL");
}
