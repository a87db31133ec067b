use ocr_service::format_text_output;

#[test]
fn empty_set_formats_to_empty_string() {
    let lines: Vec<Option<String>> = Vec::new();
    assert_eq!(format_text_output(&lines), "");
}

#[test]
fn all_absent_formats_to_empty_string() {
    let lines: Vec<Option<String>> = vec![None, None, None];
    assert_eq!(format_text_output(&lines), "");
}

#[test]
fn single_line_has_no_separator() {
    let lines = vec![Some("hello".to_string())];
    assert_eq!(format_text_output(&lines), "hello");
}

#[test]
fn absent_entries_produce_no_blank_lines() {
    let lines = vec![Some("A".to_string()), None, Some("B".to_string())];
    assert_eq!(format_text_output(&lines), "A\nB");
}

#[test]
fn leading_and_trailing_absent_entries_are_skipped() {
    let lines = vec![None, Some("A".to_string()), None];
    assert_eq!(format_text_output(&lines), "A");
}

#[test]
fn order_of_lines_is_preserved() {
    let lines = vec![
        Some("first".to_string()),
        Some("second".to_string()),
        Some("third".to_string()),
    ];
    assert_eq!(format_text_output(&lines), "first\nsecond\nthird");
}

#[test]
fn present_empty_string_still_counts_as_a_line() {
    let lines = vec![Some(String::new()), Some("x".to_string())];
    assert_eq!(format_text_output(&lines), "\nx");
}

#[test]
fn formatting_is_deterministic() {
    let lines = vec![Some("one".to_string()), None, Some("two".to_string())];
    let first = format_text_output(&lines);
    let second = format_text_output(&lines);
    assert_eq!(first, second);
    assert_eq!(first, "one\ntwo");
}
