use crossref::text::{decimal_string, format_queries, format_query, is_whitespace, join_strings, str_eq};

#[test]
fn topics_fold_and_join() {
    let topics = vec!["hello   world".to_string(), "foo".to_string()];
    assert_eq!(format_queries(&topics), "hello+world+foo");
}

#[test]
fn topic_whitespace_runs_collapse() {
    assert_eq!(format_query("  a \t b\n\nc  "), "a+b+c");
    assert_eq!(format_query("single"), "single");
    assert_eq!(format_query(""), "");
    assert_eq!(format_query("   "), "");
    assert_eq!(format_query("x\u{3000}y\u{a0}z"), "x+y+z");
}

#[test]
fn topics_empty_and_blank() {
    assert_eq!(format_queries(&[]), "");
    let topics = vec!["a".to_string(), " ".to_string(), "b c".to_string()];
    assert_eq!(format_queries(&topics), "a++b+c");
}

#[test]
fn decimal_rendering() {
    assert_eq!(decimal_string(0), "0");
    assert_eq!(decimal_string(7), "7");
    assert_eq!(decimal_string(10), "10");
    assert_eq!(decimal_string(2017), "2017");
}

#[test]
fn join_and_compare() {
    let parts = vec!["a".to_string(), "".to_string(), "bc".to_string()];
    assert_eq!(join_strings(&parts, ','), "a,,bc");
    assert_eq!(join_strings(&Vec::new(), ','), "");
    assert!(str_eq("abc", "abc"));
    assert!(!str_eq("abc", "abd"));
    assert!(!str_eq("abc", "ab"));
    assert!(is_whitespace('\u{2028}'));
    assert!(!is_whitespace('+'));
}
