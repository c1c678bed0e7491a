use mcpg_operator_api::ordered::str_lt;
use mcpg_operator_api::text::{
    decimal_string, has_non_white_space, starts_with, str_eq, strip_prefix, trim_char,
    trim_start_white_space,
};

#[test]
fn decimal_strings() {
    assert_eq!(decimal_string(0), "0");
    assert_eq!(decimal_string(4222), "4222");
    assert_eq!(decimal_string(-15), "-15");
    assert_eq!(decimal_string(i64::MIN), "-9223372036854775808");
    assert_eq!(decimal_string(i64::MAX), "9223372036854775807");
}

#[test]
fn prefixes_and_trimming() {
    assert!(starts_with("redis://x", "redis://"));
    assert!(!starts_with("redi", "redis://"));
    assert_eq!(strip_prefix("ab/cd", "ab/"), Some("cd"));
    assert_eq!(strip_prefix("ab/cd", "x"), None);
    assert_eq!(trim_char("//a/b//", '/'), "a/b");
    assert_eq!(trim_char("///", '/'), "");
    assert_eq!(trim_start_white_space("\u{3000} \tx y "), "x y ");
    assert!(!has_non_white_space(" \n\u{a0}"));
    assert!(has_non_white_space(" a "));
    assert!(str_eq("same", "same"));
    assert!(!str_eq("same", "sam"));
}

#[test]
fn code_point_order() {
    assert!(str_lt("a", "b"));
    assert!(str_lt("B", "a"));
    assert!(str_lt("ab", "abc"));
    assert!(!str_lt("abc", "ab"));
    assert!(!str_lt("x", "x"));
}
