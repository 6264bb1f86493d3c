use bambu_print_rs::text::{decimal_string, starts_with, str_eq};

#[test]
fn test_decimal_string() {
    assert_eq!(decimal_string(0), "0");
    assert_eq!(decimal_string(7), "7");
    assert_eq!(decimal_string(10), "10");
    assert_eq!(decimal_string(255), "255");
    assert_eq!(decimal_string(4294967295), "4294967295");
}

#[test]
fn test_str_helpers() {
    assert!(str_eq("pushall", "pushall"));
    assert!(!str_eq("pushall", "push"));
    assert!(starts_with("M104 S210", "M104"));
    assert!(!starts_with("M10", "M104"));
    assert!(starts_with("abc", ""));
}
