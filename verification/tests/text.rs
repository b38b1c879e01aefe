use question_service::text::parse_unsigned;
use question_service::text::same_text;

#[test]
fn same_text_holds_of_equal_slices() {
    assert!(same_text("", ""));
    assert!(same_text("/hello", "/hello"));
    assert!(same_text("h\u{e9}llo \u{4e16}\u{754c}", "h\u{e9}llo \u{4e16}\u{754c}"));
}

#[test]
fn same_text_fails_of_different_slices() {
    assert!(!same_text("/hello", "/hellp"));
    assert!(!same_text("/hello", "/hell"));
    assert!(!same_text("/hell", "/hello"));
    assert!(!same_text("", "a"));
    assert!(!same_text("GET", "get"));
    assert!(!same_text("\u{e9}", "e"));
}

#[test]
fn parse_unsigned_reads_plain_digits() {
    assert_eq!(parse_unsigned("0"), Some(0));
    assert_eq!(parse_unsigned("1"), Some(1));
    assert_eq!(parse_unsigned("42"), Some(42));
    assert_eq!(parse_unsigned("1234567890"), Some(1_234_567_890));
}

#[test]
fn parse_unsigned_takes_a_leading_plus() {
    assert_eq!(parse_unsigned("+7"), Some(7));
    assert_eq!(parse_unsigned("+0"), Some(0));
}

#[test]
fn parse_unsigned_takes_leading_zeros() {
    assert_eq!(parse_unsigned("00012"), Some(12));
    assert_eq!(parse_unsigned("0000000000000000000001"), Some(1));
}

#[test]
fn parse_unsigned_stops_at_the_largest_value() {
    assert_eq!(parse_unsigned("4294967295"), Some(u32::MAX));
    assert_eq!(parse_unsigned("4294967296"), None);
    assert_eq!(parse_unsigned("4294967300"), None);
    assert_eq!(parse_unsigned("99999999999999999999"), None);
}

#[test]
fn parse_unsigned_refuses_texts_without_digits() {
    assert_eq!(parse_unsigned(""), None);
    assert_eq!(parse_unsigned("+"), None);
    assert_eq!(parse_unsigned("-"), None);
    assert_eq!(parse_unsigned("abc"), None);
}

#[test]
fn parse_unsigned_refuses_stray_characters() {
    assert_eq!(parse_unsigned("-1"), None);
    assert_eq!(parse_unsigned("-0"), None);
    assert_eq!(parse_unsigned("++1"), None);
    assert_eq!(parse_unsigned("1+"), None);
    assert_eq!(parse_unsigned(" 1"), None);
    assert_eq!(parse_unsigned("1 "), None);
    assert_eq!(parse_unsigned("1_000"), None);
    assert_eq!(parse_unsigned("12a"), None);
    assert_eq!(parse_unsigned("1.0"), None);
    assert_eq!(parse_unsigned("0x10"), None);
}

#[test]
fn parse_unsigned_refuses_digits_outside_ascii() {
    assert_eq!(parse_unsigned("\u{ff11}\u{ff12}"), None);
    assert_eq!(parse_unsigned("\u{663}"), None);
    assert_eq!(parse_unsigned("1\u{e9}"), None);
}

#[test]
fn parse_unsigned_reads_what_the_standard_parser_reads() {
    let samples = [
        "", "0", "1", "9", "10", "+1", "+", "-", "-1", "-0", "+-1", "++1", "1+", " 1", "1 ", "\t1",
        "1\n", "007", "+007", "4294967295", "4294967296", "+4294967295", "+4294967296",
        "42949672950", "18446744073709551616", "one", "1e3", "1_0", "0x1", "\u{ff11}", "\u{663}",
        "1\u{0}", "/", ":", "0/", "0:",
    ];
    for sample in samples {
        assert_eq!(parse_unsigned(sample), sample.parse::<u32>().ok(), "text {:?}", sample);
    }
    for number in (0..=u32::MAX).step_by(65_521) {
        let written = format!("{}", number);
        assert_eq!(parse_unsigned(&written), Some(number));
    }
}
