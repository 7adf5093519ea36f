use bevy_ios_toolkit::text::{
    comma_items, is_c_compatible, join_with_commas, lowercase_equals, parse_i64, split_commas,
    str_equals, trim,
};

#[test]
fn nul_is_what_cannot_cross() {
    assert!(is_c_compatible("restock"));
    assert!(is_c_compatible(""));
    assert!(!is_c_compatible("THE VAN\0 CAME"));
}

#[test]
fn lists_split_trim_and_join_as_std_does() {
    assert_eq!(split_commas(""), vec![String::new()]);
    assert_eq!(split_commas("a,,b"), vec!["a", "", "b"]);
    assert_eq!(comma_items(" restock, route ,,\t"), vec!["restock", "route"]);
    assert_eq!(trim("\u{3000} x y \n"), "x y");
    assert_eq!(join_with_commas(&vec!["a".into(), "b".into()]), "a,b");
    assert_eq!(join_with_commas(&Vec::new()), "");
}

#[test]
fn comparisons_and_numbers() {
    assert!(str_equals("abc", "abc"));
    assert!(!str_equals("abc", "abd"));
    assert!(lowercase_equals("ReQuIrEd", "required"));
    assert!(!lowercase_equals("required", "REQUIRED"));
    assert_eq!(parse_i64("7"), Some(7));
    assert_eq!(parse_i64("+12"), Some(12));
    assert_eq!(parse_i64("-9223372036854775808"), Some(i64::MIN));
    assert_eq!(parse_i64("9223372036854775808"), None);
    assert_eq!(parse_i64(" 7"), None);
    assert_eq!(parse_i64("-"), None);
    assert_eq!(parse_i64(""), None);
}
