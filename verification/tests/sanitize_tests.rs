use text_to_cypher::sanitize::{sanitize_query_result, sanitize_result_text};

#[test]
fn short_results_pass_through() {
    let text = "1. (:Person {name: \"Alice\"})";
    assert_eq!(sanitize_query_result(text, 100), text);
}

#[test]
fn long_bracketed_property_is_truncated() {
    let long_list: String = (0..60).map(|i| i.to_string()).collect::<Vec<_>>().join(", ");
    let text = format!("(:Doc {{vector: [{long_list}]}})");
    let sanitized = sanitize_query_result(&text, 10);
    let kept: String = long_list.chars().take(10).collect();
    assert_eq!(sanitized, format!("(:Doc {{vector: [{kept}...]}})"));
}

#[test]
fn bracket_without_colon_context_is_kept() {
    let text = "[0, 1, 2, 3, 4, 5, 6, 7, 8, 9]";
    assert_eq!(sanitize_query_result(text, 5), text, "no property colon precedes the bracket");
}

#[test]
fn bracket_inside_string_is_kept() {
    let text = "(:Doc {note: \"keep [1, 2, 3, 4, 5] verbatim\"})";
    assert_eq!(sanitize_query_result(text, 3), text);
}

#[test]
fn newline_between_colon_and_bracket_blocks_truncation() {
    let text = "line: one\n[1, 2, 3, 4, 5]";
    assert_eq!(sanitize_query_result(text, 3), text);
}

#[test]
fn nested_brackets_truncate_at_matching_close() {
    let text = "(:Doc {m: [[1, 2], [3, 4]]})";
    let sanitized = sanitize_query_result(&text, 4);
    assert_eq!(sanitized, "(:Doc {m: [[1, ...]})");
}

#[test]
fn standard_bound_keeps_ordinary_results() {
    let text = "1. (:Person {name: \"Alice\", age: 30})\n2. (:Person {name: \"Bob\", age: 31})";
    assert_eq!(sanitize_result_text(text), text);
}
