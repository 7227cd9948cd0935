use modbus_stream::text::{blank, chars_of, decimal, signed_decimal, is_white_space_char, join2, parse_unsigned, starts_with};

#[test]
fn unsigned_parsing_follows_std_grammar() {
    assert_eq!(parse_unsigned("42", u64::MAX), Some(42));
    assert_eq!(parse_unsigned("+5", 255), Some(5));
    assert_eq!(parse_unsigned("0012", 255), Some(12));
    assert_eq!(parse_unsigned("255", 255), Some(255));
    assert_eq!(parse_unsigned("256", 255), None);
    assert_eq!(parse_unsigned("-0", 255), None);
    assert_eq!(parse_unsigned("", 255), None);
    assert_eq!(parse_unsigned("+", 255), None);
    assert_eq!(parse_unsigned("++1", 255), None);
    assert_eq!(parse_unsigned(" 1", 255), None);
    assert_eq!(parse_unsigned("1 ", 255), None);
    assert_eq!(parse_unsigned("1e3", u64::MAX), None);
    assert_eq!(parse_unsigned("18446744073709551615", u64::MAX), Some(u64::MAX));
    assert_eq!(parse_unsigned("18446744073709551616", u64::MAX), None);
}

#[test]
fn unsigned_parsing_agrees_with_std() {
    for s in ["0", "7", "+7", "65535", "65536", "-1", "", "+", "x", "12a", "00000000000000000000001"] {
        assert_eq!(parse_unsigned(s, u16::MAX as u64), s.parse::<u16>().ok().map(|v| v as u64), "{s}");
        assert_eq!(parse_unsigned(s, u8::MAX as u64), s.parse::<u8>().ok().map(|v| v as u64), "{s}");
    }
}

#[test]
fn decimal_text_of_numbers() {
    assert_eq!(decimal(0), "0");
    assert_eq!(decimal(7), "7");
    assert_eq!(decimal(1234), "1234");
    assert_eq!(decimal(u64::MAX), u64::MAX.to_string());
}

#[test]
fn prefixes_and_joins() {
    assert!(starts_with("/dev/ttyUSB0", "/dev/"));
    assert!(starts_with("COM3", "COM"));
    assert!(!starts_with("CO", "COM"));
    assert!(starts_with("abc", ""));
    assert_eq!(join2("record_", "x"), "record_x");
    assert_eq!(chars_of("aé"), vec!['a', 'é']);
}

#[test]
fn blank_means_only_white_space() {
    assert!(blank(""));
    assert!(blank(" \t\n"));
    assert!(blank("\u{3000}\u{a0}"));
    assert!(!blank(" a "));
    assert!(is_white_space_char('\u{2028}'));
    assert!(!is_white_space_char('x'));
    for c in ['\u{0}', ' ', '\u{85}', '\u{200b}', '\u{feff}', '\u{2009}', 'a', '\u{1680}'] {
        assert_eq!(is_white_space_char(c), c.is_whitespace(), "{:?}", c);
    }
}

#[test]
fn signed_decimal_text_of_numbers() {
    for n in [0, 7, -7, 120, i32::MAX, i32::MIN] {
        assert_eq!(signed_decimal(n), n.to_string());
    }
}
