//! Numerals and joined pieces of text.

use diesel_tracing::text::{append_decimal, append_signed_decimal, enclose};

fn decimal_text(n: u64) -> String {
    let mut text = String::new();
    append_decimal(&mut text, n);
    text
}

#[test]
fn numerals_are_decimal_without_leading_zeros() {
    assert_eq!(decimal_text(0), "0");
    assert_eq!(decimal_text(7), "7");
    assert_eq!(decimal_text(9), "9");
    assert_eq!(decimal_text(10), "10");
    assert_eq!(decimal_text(99), "99");
    assert_eq!(decimal_text(100), "100");
    assert_eq!(decimal_text(1203), "1203");
    assert_eq!(decimal_text(4294967295), "4294967295");
    assert_eq!(decimal_text(u64::MAX), "18446744073709551615");
}

#[test]
fn a_negative_numeral_has_a_minus_sign() {
    for (n, text) in [
        (0i64, "0"),
        (5, "5"),
        (-1, "-1"),
        (-10, "-10"),
        (5432, "5432"),
        (i64::MAX, "9223372036854775807"),
        (i64::MIN, "-9223372036854775808"),
        (i64::MIN + 1, "-9223372036854775807"),
    ] {
        let mut out = String::new();
        append_signed_decimal(&mut out, n);
        assert_eq!(out, text);
        assert_eq!(out, n.to_string());
    }
}

#[test]
fn numerals_agree_with_the_standard_rendering() {
    let mut n: u64 = 1;
    for _ in 0..400 {
        assert_eq!(decimal_text(n), n.to_string());
        n = n.wrapping_mul(6364136223846793005).wrapping_add(1442695040888963407);
    }
}

#[test]
fn a_numeral_is_appended_after_what_is_there() {
    let mut out = String::from("depth: ");
    append_decimal(&mut out, 42);
    assert_eq!(out, "depth: 42");
    append_decimal(&mut out, 0);
    assert_eq!(out, "depth: 420");
}

#[test]
fn pieces_are_joined_in_order() {
    assert_eq!(enclose("Started query: `", "SELECT 1", "`"), "Started query: `SELECT 1`");
    assert_eq!(enclose("", "", ""), "");
    assert_eq!(enclose("a", "", "c"), "ac");
}
