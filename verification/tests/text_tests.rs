use freebox_exporter::text::{eq_ignore_ascii_case, i64_to_decimal, is_blank_str, parse_i64, starts_with, str_eq, trim, u64_to_decimal};

#[test]
fn decimal_writing_reads_back() {
    for v in [0i64, 7, -7, 10, 1234567890, i64::MAX, i64::MIN] {
        assert_eq!(i64_to_decimal(v), v.to_string());
        assert_eq!(parse_i64(&i64_to_decimal(v)), Some(v));
    }
    assert_eq!(u64_to_decimal(u64::MAX), u64::MAX.to_string());
}

#[test]
fn parsing_matches_from_str() {
    for s in ["", "+", "-", "12a", " 1", "+5", "-0", "9223372036854775807", "9223372036854775808", "-9223372036854775808", "unknown", "80"] {
        assert_eq!(parse_i64(s), s.parse::<i64>().ok());
    }
}

#[test]
fn trimming_and_comparing() {
    assert_eq!(trim("  a b \t\n"), "a b");
    assert_eq!(trim("\u{3000}x\u{2028}"), "x");
    assert!(is_blank_str(" \t"));
    assert!(!is_blank_str(" x "));
    assert!(eq_ignore_ascii_case("RoUtEr", "router"));
    assert!(!eq_ignore_ascii_case("routers", "router"));
    assert!(str_eq("a", "a") && !str_eq("a", "b"));
    assert!(starts_with("reqwest::x", "reqwest") && !starts_with("req", "reqwest"));
}
