use zbx_np::text::{chars_of, i64_to_decimal, parse_hex_short, parse_u64, u64_to_decimal};

#[test]
fn decimal_formatting() {
    assert_eq!(u64_to_decimal(0), "0");
    assert_eq!(u64_to_decimal(1234567890), "1234567890");
    assert_eq!(u64_to_decimal(u64::MAX), "18446744073709551615");
    assert_eq!(i64_to_decimal(-42), "-42");
    assert_eq!(i64_to_decimal(i64::MIN), "-9223372036854775808");
    assert_eq!(i64_to_decimal(i64::MAX), "9223372036854775807");
}

#[test]
fn parsing_like_str_parse() {
    assert_eq!(parse_u64("42"), Some(42));
    assert_eq!(parse_u64("+42"), Some(42));
    assert_eq!(parse_u64("007"), Some(7));
    assert_eq!(parse_u64("18446744073709551615"), Some(u64::MAX));
    assert_eq!(parse_u64("18446744073709551616"), None);
    assert_eq!(parse_u64(""), None);
    assert_eq!(parse_u64("+"), None);
    assert_eq!(parse_u64("-1"), None);
    assert_eq!(parse_u64("1a"), None);
    for s in ["0", "99", "+3", "12x", " 1", "1 "] {
        assert_eq!(parse_u64(s), s.parse::<u64>().ok());
    }
}

#[test]
fn hex_parsing_like_from_str_radix() {
    for s in ["0041", "+41", "ffff", "FfFf", "", "+", "-1", "12g", "d800"] {
        let cs: Vec<char> = s.chars().collect();
        assert_eq!(parse_hex_short(&cs), u32::from_str_radix(s, 16).ok(), "{}", s);
    }
}

#[test]
fn chars_in_order() {
    assert_eq!(chars_of("aб€"), vec!['a', 'б', '€']);
}
