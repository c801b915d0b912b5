use lighthouse::text::{append_decimal, same_text};

fn decimal(n: u64) -> String {
    let mut text = String::new();
    append_decimal(&mut text, n);
    text
}

#[test]
fn decimal_of_single_digits() {
    assert_eq!(decimal(0), "0");
    assert_eq!(decimal(7), "7");
    assert_eq!(decimal(9), "9");
}

#[test]
fn decimal_of_longer_numbers() {
    assert_eq!(decimal(10), "10");
    assert_eq!(decimal(1905), "1905");
    assert_eq!(decimal(671477574932627516), "671477574932627516");
    assert_eq!(decimal(u64::MAX), "18446744073709551615");
}

#[test]
fn decimal_agrees_with_std() {
    let mut n: u64 = 1;
    for _ in 0..19 {
        assert_eq!(decimal(n), n.to_string());
        assert_eq!(decimal(n - 1), (n - 1).to_string());
        assert_eq!(decimal(n + 1), (n + 1).to_string());
        n *= 10;
    }
}

#[test]
fn decimal_has_at_most_twenty_digits() {
    assert_eq!(decimal(u64::MAX).len(), 20);
    assert_eq!(decimal(9_999_999_999_999_999_999).len(), 19);
    assert_eq!(decimal(10_000_000_000_000_000_000).len(), 20);
}

#[test]
fn append_decimal_keeps_what_is_there() {
    let mut text = "n = ".to_string();
    append_decimal(&mut text, 42);
    assert_eq!(text, "n = 42");
    append_decimal(&mut text, 0);
    assert_eq!(text, "n = 420");
}

#[test]
fn same_text_compares_characters() {
    assert!(same_text("debug", "debug"));
    assert!(!same_text("debug", "Debug"));
    assert!(!same_text("debug", "debu"));
    assert!(!same_text("", "debug"));
    assert!(same_text("", ""));
    assert!(same_text("\u{e9}t\u{e9}", "\u{e9}t\u{e9}"));
}
