use upgrade_strategy::text::{decimal_string, parse_u32};

#[test]
fn decimal_string_writes_like_the_standard_library() {
    for n in [0u32, 1, 9, 10, 11, 99, 100, 101, 999, 1000, 12_345, 4_294_967_294, u32::MAX] {
        assert_eq!(decimal_string(n), n.to_string());
    }
    for n in 0u32..3000 {
        assert_eq!(decimal_string(n), n.to_string());
    }
    assert_eq!(decimal_string(0), "0");
    assert_eq!(decimal_string(4_294_967_295), "4294967295");
}

#[test]
fn parse_u32_reads_plain_digits() {
    assert_eq!(parse_u32("0"), Some(0));
    assert_eq!(parse_u32("7"), Some(7));
    assert_eq!(parse_u32("42"), Some(42));
    assert_eq!(parse_u32("4294967295"), Some(u32::MAX));
    assert_eq!(parse_u32("007"), Some(7));
    assert_eq!(parse_u32("0000000000000000000000012"), Some(12));
}

#[test]
fn parse_u32_takes_one_plus_sign() {
    assert_eq!(parse_u32("+5"), Some(5));
    assert_eq!(parse_u32("+0"), Some(0));
    assert_eq!(parse_u32("+"), None);
    assert_eq!(parse_u32("++5"), None);
    assert_eq!(parse_u32("5+"), None);
}

#[test]
fn parse_u32_refuses_what_is_no_number() {
    for text in [
        "", " ", "-", "-0", "-5", "1 ", " 1", "1_000", "1.0", "1e3", "0x10", "abc", "12a", "a12",
        "١٢", "１２", "1\u{0}", "١", "12é", "+é1",
    ] {
        assert_eq!(parse_u32(text), None, "{:?}", text);
    }
}

#[test]
fn parse_u32_refuses_what_does_not_fit() {
    assert_eq!(parse_u32("4294967296"), None);
    assert_eq!(parse_u32("4294967300"), None);
    assert_eq!(parse_u32("42949672950"), None);
    assert_eq!(parse_u32("99999999999999999999999999999999"), None);
    assert_eq!(parse_u32("+4294967296"), None);
    assert_eq!(parse_u32("18446744073709551616"), None);
    assert_eq!(parse_u32("184467440737095516160000000000005"), None);
}

#[test]
fn parse_u32_agrees_with_the_standard_library() {
    let pieces = ["", "+", "-", "0", "1", "9", "42", "4294967295", "4294967296", "a", " ", "٣"];
    for first in pieces {
        for second in pieces {
            for third in pieces {
                let text = format!("{}{}{}", first, second, third);
                assert_eq!(parse_u32(&text), text.parse::<u32>().ok(), "{:?}", text);
            }
        }
    }
}

#[test]
fn parse_u32_reads_back_what_decimal_string_writes() {
    for n in [0u32, 1, 10, 99, 1234, 65_535, 65_536, u32::MAX - 1, u32::MAX] {
        assert_eq!(parse_u32(&decimal_string(n)), Some(n));
    }
}
