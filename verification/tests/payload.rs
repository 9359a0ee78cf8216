use myrtio_mqtt_homeassistant::payload::{format_i32, is_space_char, parse_number_payload, str_chars};
use myrtio_mqtt_homeassistant::text::str_equal;

fn formatted(v: i32, cap: usize) -> (usize, Vec<u8>) {
    let mut buf = vec![b'#'; cap];
    let n = format_i32(v, &mut buf);
    (n, buf)
}

#[test]
fn format_positive() {
    let (n, buf) = formatted(42, 8);
    assert_eq!(n, 2);
    assert_eq!(&buf[..2], b"42");
    assert_eq!(&buf[2..], b"######");
}

#[test]
fn format_zero_and_extremes() {
    let (n, buf) = formatted(0, 4);
    assert_eq!(&buf[..n], b"0");
    let (n, buf) = formatted(i32::MIN, 16);
    assert_eq!(&buf[..n], b"-2147483648");
    let (n, buf) = formatted(i32::MAX, 16);
    assert_eq!(&buf[..n], b"2147483647");
}

#[test]
fn format_negative_sign_and_digits_are_separate_pieces() {
    // Room for the sign only.
    let (n, buf) = formatted(-123, 3);
    assert_eq!(n, 1);
    assert_eq!(&buf, b"-##");
    // No room at all.
    let (n, buf) = formatted(-5, 0);
    assert_eq!(n, 0);
    assert!(buf.is_empty());
    // Exactly enough.
    let (n, buf) = formatted(-123, 4);
    assert_eq!(n, 4);
    assert_eq!(&buf, b"-123");
}

#[test]
fn format_positive_that_does_not_fit_writes_nothing() {
    let (n, buf) = formatted(12345, 4);
    assert_eq!(n, 0);
    assert_eq!(&buf, b"####");
}

#[test]
fn parse_plain_and_signed() {
    assert_eq!(parse_number_payload(b"42"), Some(42));
    assert_eq!(parse_number_payload(b"-17"), Some(-17));
    assert_eq!(parse_number_payload(b"+8"), Some(8));
    assert_eq!(parse_number_payload(b"007"), Some(7));
    assert_eq!(parse_number_payload(b"-0"), Some(0));
}

#[test]
fn parse_trims_white_space() {
    assert_eq!(parse_number_payload(b"  12\n"), Some(12));
    assert_eq!(parse_number_payload(b"\t-3 \r\n"), Some(-3));
    // U+00A0 and U+3000 are white space too.
    assert_eq!(parse_number_payload("\u{a0}5\u{3000}".as_bytes()), Some(5));
}

#[test]
fn parse_rejects_malformed() {
    assert_eq!(parse_number_payload(b""), None);
    assert_eq!(parse_number_payload(b"   "), None);
    assert_eq!(parse_number_payload(b"-"), None);
    assert_eq!(parse_number_payload(b"+"), None);
    assert_eq!(parse_number_payload(b"1 2"), None);
    assert_eq!(parse_number_payload(b"12a"), None);
    assert_eq!(parse_number_payload(b"--1"), None);
    assert_eq!(parse_number_payload(b"1.5"), None);
}

#[test]
fn parse_rejects_invalid_utf8() {
    assert_eq!(parse_number_payload(&[0xff, b'1']), None);
    assert_eq!(parse_number_payload(&[b'1', 0xc3]), None);
}

#[test]
fn parse_limits() {
    assert_eq!(parse_number_payload(b"2147483647"), Some(i32::MAX));
    assert_eq!(parse_number_payload(b"-2147483648"), Some(i32::MIN));
    assert_eq!(parse_number_payload(b"2147483648"), None);
    assert_eq!(parse_number_payload(b"-2147483649"), None);
    assert_eq!(parse_number_payload(b"99999999999999999999"), None);
}

#[test]
fn parse_agrees_with_std() {
    for s in ["1", " 77 ", "-2147483648", "+0", "x", "", "１２"] {
        let expected = s.trim().parse::<i32>().ok();
        assert_eq!(parse_number_payload(s.as_bytes()), expected, "{:?}", s);
    }
}

#[test]
fn formatted_state_reads_back() {
    for v in [0, 1, -1, 9, 10, -10, 12345, -98765, i32::MAX, i32::MIN] {
        let mut buf = [0u8; 16];
        let n = format_i32(v, &mut buf);
        assert_eq!(parse_number_payload(&buf[..n]), Some(v));
        assert_eq!(&buf[..n], v.to_string().as_bytes());
    }
}

#[test]
fn white_space_matches_std() {
    for c in ['\t', '\n', '\u{b}', '\u{c}', '\r', ' ', '\u{85}', '\u{a0}', '\u{1680}', '\u{2000}', '\u{200a}',
        '\u{2028}', '\u{2029}', '\u{202f}', '\u{205f}', '\u{3000}', 'a', '0', '\u{200b}', '\u{180e}', '\u{feff}']
    {
        assert_eq!(is_space_char(c), c.is_whitespace(), "{:?}", c);
    }
}

#[test]
fn chars_and_equality() {
    assert_eq!(str_chars("aé"), vec!['a', 'é']);
    assert!(str_equal("ON", "ON"));
    assert!(!str_equal("ON", "On"));
    assert!(!str_equal("ON", "ONN"));
    assert!(str_equal("", ""));
}
