use observatory::number::{decimal_text, parse_u16, parse_u8, parse_unsigned};

#[test]
fn numbers_are_read_as_the_standard_library_reads_them() {
    for s in [
        "0", "7", "42", "255", "256", "+5", "+", "", "-0", "-1", " 1", "1 ", "007", "1_0", "0x1",
        "99999999999999999999999", "18446744073709551615", "18446744073709551616", "65535",
        "65536", "++1", "٣", "1+",
    ] {
        assert_eq!(parse_u8(s), s.parse::<u8>().ok(), "{s:?}");
        assert_eq!(parse_u16(s), s.parse::<u16>().ok(), "{s:?}");
        assert_eq!(parse_unsigned(s, u64::MAX), s.parse::<u64>().ok(), "{s:?}");
    }
}

#[test]
fn a_number_is_bounded() {
    assert_eq!(parse_unsigned("100", 100), Some(100));
    assert_eq!(parse_unsigned("101", 100), None);
}

#[test]
fn decimal_text_is_read_back() {
    for n in [0, 9, 10, 99, 100, 9090, 65535, 1234567890, u64::MAX] {
        assert_eq!(decimal_text(n), n.to_string());
        assert_eq!(parse_unsigned(&decimal_text(n), u64::MAX), Some(n));
        assert_eq!(parse_unsigned(&format!("+{}", decimal_text(n)), u64::MAX), Some(n));
    }
}
