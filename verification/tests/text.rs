use gitstat::text::{
    decimal_text, digit_text, first_line, push_decimal, push_signed_decimal, same_text, short_id,
    starts_with, SHORT_ID_LEN,
};

#[test]
fn first_line_stops_at_the_line_feed() {
    assert_eq!(first_line("title\nbody\nmore"), "title");
    assert_eq!(first_line("title"), "title");
    assert_eq!(first_line(""), "");
    assert_eq!(first_line("\nbody"), "");
    assert_eq!(first_line("title\n"), "title");
}

#[test]
fn first_line_drops_a_carriage_return_before_the_line_feed() {
    assert_eq!(first_line("title\r\nbody"), "title");
    assert_eq!(first_line("\r\nbody"), "");
    assert_eq!(first_line("a\r\r\nb"), "a\r");
    // A carriage return that no line feed follows is part of the line.
    assert_eq!(first_line("title\r"), "title\r");
    assert_eq!(first_line("ti\rtle\nbody"), "ti\rtle");
}

#[test]
fn first_line_agrees_with_the_standard_line_splitting() {
    let samples = [
        "",
        "one",
        "one\ntwo",
        "one\r\ntwo",
        "one\r",
        "\n",
        "\r\n",
        "\r",
        "a\rb\nc",
        "h\u{e9}llo w\u{f6}rld\n\u{4e16}\u{754c}",
        "\u{1f600}\r\nx",
    ];
    for sample in samples {
        assert_eq!(first_line(sample), sample.lines().next().unwrap_or(""));
    }
}

#[test]
fn first_line_counts_characters_not_bytes() {
    assert_eq!(first_line("d\u{e9}j\u{e0} vu\nrest"), "d\u{e9}j\u{e0} vu");
    assert_eq!(first_line("\u{4e16}\u{754c}\r\nrest"), "\u{4e16}\u{754c}");
}

#[test]
fn short_id_takes_seven_characters() {
    assert_eq!(SHORT_ID_LEN, 7);
    assert_eq!(short_id("0123456789abcdef0123456789abcdef01234567"), "0123456");
    assert_eq!(short_id("01234567"), "0123456");
    assert_eq!(short_id("0123456"), "0123456");
}

#[test]
fn short_id_keeps_a_shorter_identifier_whole() {
    assert_eq!(short_id("abc"), "abc");
    assert_eq!(short_id(""), "");
    assert_eq!(short_id("\u{e9}\u{e9}\u{e9}\u{e9}\u{e9}\u{e9}\u{e9}\u{e9}"), "\u{e9}\u{e9}\u{e9}\u{e9}\u{e9}\u{e9}\u{e9}");
}

#[test]
fn starts_with_compares_whole_prefixes() {
    assert!(starts_with("feature: x", "feat"));
    assert!(starts_with("feature: x", "feature"));
    assert!(starts_with("feat", "feat"));
    assert!(starts_with("anything", ""));
    assert!(starts_with("", ""));
    assert!(!starts_with("fea", "feat"));
    assert!(!starts_with("", "f"));
    assert!(!starts_with("Feature", "feat"));
    assert!(!starts_with("a feat", "feat"));
    assert!(starts_with("\u{e9}t\u{e9} chaud", "\u{e9}t\u{e9}"));
    assert!(!starts_with("\u{e9}t\u{e9}", "\u{e8}"));
}

#[test]
fn same_text_is_equality() {
    assert!(same_text("", ""));
    assert!(same_text("Ada", "Ada"));
    assert!(!same_text("Ada", "ada"));
    assert!(!same_text("Ada", "Ada "));
    assert!(!same_text("Ada ", "Ada"));
    assert!(!same_text("", "x"));
    assert!(same_text("J\u{fc}rgen", "J\u{fc}rgen"));
}

#[test]
fn decimal_numerals() {
    assert_eq!(decimal_text(0), "0");
    assert_eq!(decimal_text(7), "7");
    assert_eq!(decimal_text(10), "10");
    assert_eq!(decimal_text(1234567890), "1234567890");
    assert_eq!(decimal_text(u64::MAX as u128), "18446744073709551615");
    assert_eq!(decimal_text(u128::MAX), "340282366920938463463374607431768211455");
    for d in 0u8..10 {
        assert_eq!(digit_text(d), d.to_string());
    }
}

#[test]
fn numerals_are_appended_to_what_is_there() {
    let mut out = String::from("n=");
    push_decimal(&mut out, 405);
    assert_eq!(out, "n=405");
    push_signed_decimal(&mut out, -12);
    assert_eq!(out, "n=405-12");
    push_signed_decimal(&mut out, 0);
    assert_eq!(out, "n=405-120");
}

#[test]
fn signed_numerals_reach_both_ends() {
    let mut out = String::new();
    push_signed_decimal(&mut out, i128::MIN);
    assert_eq!(out, i128::MIN.to_string());
    let mut out = String::new();
    push_signed_decimal(&mut out, i128::MAX);
    assert_eq!(out, i128::MAX.to_string());
    let mut out = String::new();
    push_signed_decimal(&mut out, -1);
    assert_eq!(out, "-1");
}
