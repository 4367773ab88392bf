use mcp_agents::text::str_eq;
use mcp_agents::text::u64_to_dec;

#[test]
fn string_equality_by_content() {
    assert!(str_eq("abc", "abc"));
    assert!(str_eq("", ""));
    assert!(!str_eq("abc", "abd"));
    assert!(!str_eq("abc", "abcd"));
    assert!(!str_eq("2.0", "1.0"));
}

#[test]
fn decimal_notation() {
    assert_eq!(u64_to_dec(0), "0");
    assert_eq!(u64_to_dec(7), "7");
    assert_eq!(u64_to_dec(10), "10");
    assert_eq!(u64_to_dec(95), "95");
    assert_eq!(u64_to_dec(402), "402");
    assert_eq!(u64_to_dec(65535), "65535");
    assert_eq!(u64_to_dec(u64::MAX), "18446744073709551615");
}
