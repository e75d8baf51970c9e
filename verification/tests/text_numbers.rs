use redis_h3::text::{
    decimal_text, hex_text, parse_i64, parse_u64, same_text, signed_decimal_text,
};

#[test]
fn decimal_text_of_numbers() {
    assert_eq!(decimal_text(0), "0");
    assert_eq!(decimal_text(7), "7");
    assert_eq!(decimal_text(10), "10");
    assert_eq!(decimal_text(707021008273408), "707021008273408");
    assert_eq!(decimal_text(u64::MAX), "18446744073709551615");
}

#[test]
fn hex_text_of_numbers() {
    assert_eq!(hex_text(0), "0");
    assert_eq!(hex_text(15), "f");
    assert_eq!(hex_text(16), "10");
    assert_eq!(hex_text(0x08f2_8308_280f_18f2), "8f28308280f18f2");
    assert_eq!(hex_text(u64::MAX), "ffffffffffffffff");
}

#[test]
fn signed_decimal_text_of_numbers() {
    assert_eq!(signed_decimal_text(0), "0");
    assert_eq!(signed_decimal_text(42), "42");
    assert_eq!(signed_decimal_text(-1), "-1");
    assert_eq!(signed_decimal_text(i64::MAX), "9223372036854775807");
    assert_eq!(signed_decimal_text(i64::MIN), "-9223372036854775808");
}

#[test]
fn parse_u64_reads_digits_and_a_plus_sign() {
    assert_eq!(parse_u64("0"), Some(0));
    assert_eq!(parse_u64("007"), Some(7));
    assert_eq!(parse_u64("+12"), Some(12));
    assert_eq!(parse_u64("707021008273408"), Some(707021008273408));
    assert_eq!(parse_u64("18446744073709551615"), Some(u64::MAX));
}

#[test]
fn parse_u64_refuses_everything_else() {
    assert_eq!(parse_u64(""), None);
    assert_eq!(parse_u64("+"), None);
    assert_eq!(parse_u64("-0"), None);
    assert_eq!(parse_u64("-"), None);
    assert_eq!(parse_u64("1.5"), None);
    assert_eq!(parse_u64("1e3"), None);
    assert_eq!(parse_u64(" 1"), None);
    assert_eq!(parse_u64("1 "), None);
    assert_eq!(parse_u64("1_000"), None);
    assert_eq!(parse_u64("++1"), None);
    assert_eq!(parse_u64("12a"), None);
    assert_eq!(parse_u64("١٢"), None);
    assert_eq!(parse_u64("18446744073709551616"), None);
    assert_eq!(parse_u64("99999999999999999999999"), None);
}

#[test]
fn parse_u64_agrees_with_the_standard_library() {
    for text in ["0", "+0", "-0", "", "+", "42", "0042", "18446744073709551615",
        "18446744073709551616", "4a", "a4", "+-1", "١"] {
        assert_eq!(parse_u64(text), u64::from_str_radix(text, 10).ok(), "{}", text);
    }
}

#[test]
fn parse_i64_reads_signed_numbers() {
    assert_eq!(parse_i64("0"), Some(0));
    assert_eq!(parse_i64("-0"), Some(0));
    assert_eq!(parse_i64("+5"), Some(5));
    assert_eq!(parse_i64("-5"), Some(-5));
    assert_eq!(parse_i64("9223372036854775807"), Some(i64::MAX));
    assert_eq!(parse_i64("-9223372036854775808"), Some(i64::MIN));
}

#[test]
fn parse_i64_refuses_everything_else() {
    assert_eq!(parse_i64(""), None);
    assert_eq!(parse_i64("-"), None);
    assert_eq!(parse_i64("+"), None);
    assert_eq!(parse_i64("--1"), None);
    assert_eq!(parse_i64("1-"), None);
    assert_eq!(parse_i64("9223372036854775808"), None);
    assert_eq!(parse_i64("-9223372036854775809"), None);
    assert_eq!(parse_i64("ten"), None);
    assert_eq!(parse_i64("1.0"), None);
}

#[test]
fn parse_i64_agrees_with_the_standard_library() {
    for text in ["0", "+0", "-0", "", "+", "-", "42", "-42", "9223372036854775807",
        "9223372036854775808", "-9223372036854775808", "-9223372036854775809", "4a", "é"] {
        assert_eq!(parse_i64(text), text.parse::<i64>().ok(), "{}", text);
    }
}

#[test]
fn text_and_number_go_round() {
    for n in [0u64, 9, 10, 99, 100, 4503599627370495, u64::MAX] {
        assert_eq!(parse_u64(&decimal_text(n)), Some(n));
    }
    for i in [0i64, -1, 1, i64::MIN, i64::MAX] {
        assert_eq!(parse_i64(&signed_decimal_text(i)), Some(i));
    }
}

#[test]
fn same_text_compares_characters() {
    assert!(same_text("", ""));
    assert!(same_text("LIMIT", "LIMIT"));
    assert!(!same_text("LIMIT", "limit"));
    assert!(!same_text("LIMIT", "LIMI"));
    assert!(!same_text("é", "e"));
    assert!(same_text("é", "é"));
}
