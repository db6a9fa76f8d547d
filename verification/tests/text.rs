use nmeagc::text::{decimal_string, is_blank, parse_unsigned_str, trim_str};

#[test]
fn decimal_numbers_parse_as_std_does() {
    assert_eq!(parse_unsigned_str("23000", 65535), Some(23000));
    assert_eq!(parse_unsigned_str("+7", 65535), Some(7));
    assert_eq!(parse_unsigned_str("65536", 65535), None);
    assert_eq!(parse_unsigned_str("", 65535), None);
    assert_eq!(parse_unsigned_str("+", 65535), None);
    assert_eq!(parse_unsigned_str("-0", 65535), None);
    assert_eq!(parse_unsigned_str(" 1", 65535), None);
    assert_eq!(parse_unsigned_str("18446744073709551615", u64::MAX), Some(u64::MAX));
    assert_eq!(parse_unsigned_str("18446744073709551616", u64::MAX), None);
    for s in ["0", "+12", "4294967295", "99x", "x", "007"] {
        assert_eq!(parse_unsigned_str(s, u32::MAX as u64), s.parse::<u32>().ok().map(|v| v as u64));
    }
}

#[test]
fn numbers_read_back_what_was_written() {
    for n in [0u64, 9, 10, 23000, 65535, u64::MAX] {
        let s = decimal_string(n);
        assert_eq!(s, n.to_string());
        assert_eq!(parse_unsigned_str(&s, u64::MAX), Some(n));
    }
}

#[test]
fn trimming_as_str_trim() {
    for s in ["  a b \t", "\u{3000}x\u{2028}", "", "   ", "abc"] {
        assert_eq!(trim_str(s), s.trim());
        assert_eq!(is_blank(s), s.trim().is_empty());
    }
}
