use virtuoso::chars::parse_u32;
use virtuoso::text::{bar_join, decimal_string};

fn chars(s: &str) -> Vec<char> {
    s.chars().collect()
}

#[test]
fn decimal_numerals() {
    assert_eq!(decimal_string(0), "0");
    assert_eq!(decimal_string(7), "7");
    assert_eq!(decimal_string(10), "10");
    assert_eq!(decimal_string(305), "305");
    assert_eq!(decimal_string(u64::MAX), u64::MAX.to_string());
    for n in 0..2000u64 {
        assert_eq!(decimal_string(n), n.to_string());
    }
}

#[test]
fn bar_records() {
    assert_eq!(bar_join(&vec![]), "|");
    assert_eq!(bar_join(&vec!["a".to_string()]), "|a|");
    assert_eq!(bar_join(&vec!["a".to_string(), String::new(), "bc".to_string()]), "|a||bc|");
}

#[test]
fn numbers_read_like_std() {
    let cases = [
        "0", "42", "+7", "", "+", "-1", "-0", "4294967295", "4294967296", "99999999999", "12a",
        "007", " 1", "1 ", "++1", "+0042", "٣",
    ];
    for c in cases {
        assert_eq!(parse_u32(&chars(c)), c.parse::<u32>().ok(), "input {:?}", c);
    }
}

#[test]
fn numeral_round_trip() {
    for n in [0u32, 1, 9, 10, 99, 100, 65535, 4294967295] {
        assert_eq!(parse_u32(&chars(&decimal_string(n as u64))), Some(n));
    }
}
