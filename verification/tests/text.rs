use rustframe::order::{first_of_each_key, stable_order_by_key, str_lt};
use rustframe::text::{decimal_string, eq_ignore_ascii_case, join_with, split_on, str_eq, trim};

#[test]
fn decimal_numbers() {
    assert_eq!(decimal_string(0), "0");
    assert_eq!(decimal_string(404), "404");
    assert_eq!(decimal_string(u64::MAX), u64::MAX.to_string());
}

#[test]
fn comparisons() {
    assert!(str_eq("abc", "abc"));
    assert!(!str_eq("abc", "abd"));
    assert!(eq_ignore_ascii_case("TRUE", "true"));
    assert!(!eq_ignore_ascii_case("trué", "TRUÉ"));
    assert!(str_lt("ab", "abc"));
    assert!(str_lt("abc", "abd"));
    assert!(!str_lt("b", "abc"));
}

#[test]
fn splitting_and_joining() {
    assert_eq!(split_on("a+b++c", '+'), vec!["a", "b", "", "c"]);
    assert_eq!(join_with(&vec!["a".to_string(), "b".to_string()], "+"), "a+b");
}

#[test]
fn orders_by_key() {
    let keys = vec!["b".to_string(), "a".to_string(), "b".to_string(), "a".to_string()];
    assert_eq!(stable_order_by_key(&keys), vec![1, 3, 0, 2]);
    assert_eq!(first_of_each_key(&keys), vec![1, 0]);
}

#[test]
fn trim_removes_unicode_white_space_at_both_ends() {
    let samples = ["", "   ", "a", " a b \t\n", "\u{3000}x\u{a0}", "\u{200b}y", "\u{85}z\u{2029}"];
    for sample in samples {
        assert_eq!(trim(sample), sample.trim());
    }
    assert_eq!(trim(" a b \t\n"), "a b");
}
