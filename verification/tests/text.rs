use jenkins_demo::text::{decimal, join_lines, push_optional_line, same_text};

#[test]
fn decimal_writes_numbers_without_padding() {
    assert_eq!(decimal(0), "0");
    assert_eq!(decimal(7), "7");
    assert_eq!(decimal(10), "10");
    assert_eq!(decimal(1234567890), "1234567890");
    assert_eq!(decimal(u64::MAX), "18446744073709551615");
}

#[test]
fn decimal_agrees_with_the_standard_library() {
    for n in [0u64, 1, 9, 10, 11, 99, 100, 101, 999, 1000, 65535, 4294967296, u64::MAX - 1] {
        assert_eq!(decimal(n), n.to_string());
    }
}

#[test]
fn join_lines_closes_every_line() {
    assert_eq!(join_lines(&vec![]), "");
    assert_eq!(join_lines(&vec!["a".to_string()]), "a\n");
    assert_eq!(join_lines(&vec!["a".to_string(), "".to_string(), "b c".to_string()]), "a\n\nb c\n");
}

#[test]
fn optional_line_is_added_only_where_there_is_a_value() {
    let mut lines = vec!["first".to_string()];
    push_optional_line(&mut lines, "x: ", &None);
    assert_eq!(lines, vec!["first".to_string()]);
    push_optional_line(&mut lines, "x: ", &Some("1".to_string()));
    assert_eq!(lines, vec!["first".to_string(), "x: 1".to_string()]);
}

#[test]
fn same_text_compares_whole_strings() {
    assert!(same_text("", ""));
    assert!(same_text("job", "job"));
    assert!(!same_text("job", "jobs"));
    assert!(!same_text("job", "Job"));
}
