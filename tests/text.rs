use omu_dash::text::{
    contains_str, decimal_string, hex_string, join_path, name_is_absolute, signed_decimal_string,
    starts_with_str,
};

#[test]
fn decimal_renders_digits() {
    assert_eq!(decimal_string(0), "0");
    assert_eq!(decimal_string(7), "7");
    assert_eq!(decimal_string(26423), "26423");
    assert_eq!(decimal_string(u64::MAX), "18446744073709551615");
}

#[test]
fn signed_decimal_renders_sign() {
    assert_eq!(signed_decimal_string(-1), "-1");
    assert_eq!(signed_decimal_string(i32::MIN), "-2147483648");
    assert_eq!(signed_decimal_string(100), "100");
}

#[test]
fn hex_is_lower_case_two_digits_per_byte() {
    assert_eq!(hex_string(&[0x00, 0xff, 0x1a, 0x09]), "00ff1a09");
    assert_eq!(hex_string(&[]), "");
}

#[test]
fn join_inserts_one_separator() {
    assert_eq!(join_path("base", "token.txt"), "base/token.txt");
    assert_eq!(join_path("base/", "token.txt"), "base/token.txt");
    assert_eq!(join_path("", "token.txt"), "token.txt");
    assert_eq!(join_path("base", "/abs"), "/abs");
    assert_eq!(join_path("base", "C:\\x"), "C:\\x");
}

#[test]
fn absolute_names() {
    assert!(name_is_absolute("/etc"));
    assert!(name_is_absolute("\\etc"));
    assert!(name_is_absolute("D:/x"));
    assert!(!name_is_absolute("etc/x"));
    assert!(!name_is_absolute(""));
}

#[test]
fn substring_search() {
    assert!(contains_str("python3.13", "python"));
    assert!(contains_str("/usr/bin/python", "python"));
    assert!(!contains_str("pyth", "python"));
    assert!(contains_str("abc", ""));
    assert!(starts_with_str("https://x", "https://"));
    assert!(!starts_with_str("http://x", "https://"));
}
