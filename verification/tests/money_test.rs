//! Amount parsing and rendering: exact values, the accepted grammar, and
//! the rejected shapes.

use budget_tui::money::{format_cents, format_cents_two, parse_amount, MAX_AMOUNT_CENTS};
use budget_tui::strutil::{contains_char, i32_to_string, i64_to_string, join_messages, text_is_blank};

#[test]
fn parse_plain_integers() {
    assert_eq!(parse_amount("0"), Some(0));
    assert_eq!(parse_amount("7"), Some(700));
    assert_eq!(parse_amount("500"), Some(50000));
    assert_eq!(parse_amount("999999999999"), Some(99999999999900));
}

#[test]
fn parse_with_fraction() {
    assert_eq!(parse_amount("12.34"), Some(1234));
    assert_eq!(parse_amount("12.3"), Some(1230));
    assert_eq!(parse_amount("12."), Some(1200));
    assert_eq!(parse_amount(".5"), Some(50));
    assert_eq!(parse_amount("0.05"), Some(5));
}

#[test]
fn parse_rejects_ill_formed_texts() {
    assert_eq!(parse_amount(""), None);
    assert_eq!(parse_amount("."), None);
    assert_eq!(parse_amount("abc"), None);
    assert_eq!(parse_amount("12a"), None);
    assert_eq!(parse_amount("1.2.3"), None);
    assert_eq!(parse_amount("-5"), None);
    // More than two fraction digits is not an amount.
    assert_eq!(parse_amount("1.234"), None);
    // More than twelve integer digits is out of range.
    assert_eq!(parse_amount("1000000000000"), None);
}

#[test]
fn parse_stays_in_bounds() {
    let v = parse_amount("999999999999.99").unwrap();
    assert_eq!(v, MAX_AMOUNT_CENTS);
}

#[test]
fn format_shortest() {
    assert_eq!(format_cents(0), "0");
    assert_eq!(format_cents(50000), "500");
    assert_eq!(format_cents(1230), "12.3");
    assert_eq!(format_cents(1234), "12.34");
    assert_eq!(format_cents(5), "0.05");
    assert_eq!(format_cents(-1234), "-12.34");
}

#[test]
fn format_two_digits() {
    assert_eq!(format_cents_two(50000), "500.00");
    assert_eq!(format_cents_two(1230), "12.30");
    assert_eq!(format_cents_two(7), "0.07");
    assert_eq!(format_cents_two(-7), "-0.07");
}

#[test]
fn format_then_parse_round_trips() {
    for v in [0i64, 1, 99, 100, 1234, 50000, 99999999999999] {
        assert_eq!(parse_amount(&format_cents(v)), Some(v));
        assert_eq!(parse_amount(&format_cents_two(v)), Some(v));
    }
}

#[test]
fn integer_rendering() {
    assert_eq!(i64_to_string(0), "0");
    assert_eq!(i64_to_string(42), "42");
    assert_eq!(i64_to_string(-42), "-42");
    assert_eq!(i64_to_string(i64::MIN), "-9223372036854775808");
    assert_eq!(i32_to_string(2024), "2024");
}

#[test]
fn message_joining() {
    let empty: Vec<String> = vec![];
    assert_eq!(join_messages(&empty), "");
    assert_eq!(join_messages(&vec!["one".to_string()]), "one");
    assert_eq!(
        join_messages(&vec!["one".to_string(), "two".to_string(), "three".to_string()]),
        "one, two, three"
    );
}

#[test]
fn text_predicates() {
    assert!(text_is_blank(""));
    assert!(text_is_blank("  \t"));
    assert!(!text_is_blank(" x "));
    assert!(contains_char("12.3", '.'));
    assert!(!contains_char("123", '.'));
}
