use sabi_agent::text::{contains, decimal, join, lines, replace_all, sort_strings, str_less, trim};

#[test]
fn trimming_and_lines_follow_std() {
    assert_eq!(trim("\u{3000} a b \n"), "a b");
    assert_eq!(lines("a\r\nb\n\nc"), vec!["a", "b", "", "c"]);
    assert_eq!(lines("a\n"), vec!["a"]);
    assert!(lines("").is_empty());
}

#[test]
fn numbers_joins_and_order() {
    assert_eq!(decimal(0), "0");
    assert_eq!(decimal(18446744073709551615), "18446744073709551615");
    assert_eq!(join(&["a".to_string(), "b".to_string()], ", "), "a, b");
    assert!(str_less("Z", "a"));
    assert!(str_less("ab", "abc"));
    assert!(!str_less("b", "b"));
    assert_eq!(sort_strings(vec!["b".to_string(), "a".to_string(), "b".to_string()]), vec!["a", "b", "b"]);
}

#[test]
fn searching_and_replacing() {
    assert!(contains("hello world", "o w"));
    assert!(contains("x", ""));
    assert!(!contains("abc", "abd"));
    let v: Vec<char> = "a-b-c".chars().collect();
    let p: Vec<char> = "-".chars().collect();
    assert_eq!(replace_all(&v, &p, "+"), "a+b+c");
}
