use text_to_cypher::formatter::{
    format_query_records, format_value, GraphEdge, GraphNode, GraphPath, GraphValue,
};
use text_to_cypher::json::format_as_json;

#[test]
fn test_empty_records() {
    let records: Vec<Vec<GraphValue>> = vec![];
    assert_eq!(format_query_records(&records), "No results returned.");
}

#[test]
fn test_single_value() {
    let records = vec![vec![GraphValue::Int(42)]];
    assert_eq!(format_query_records(&records), "42");
}

#[test]
fn test_single_record_multiple_fields() {
    let f: f64 = 3.14;
    let records = vec![vec![
        GraphValue::Int(42),
        GraphValue::Bool(true),
        GraphValue::Float(f.to_string()),
    ]];
    assert_eq!(format_query_records(&records), "[42, true, 3.14]");
}

#[test]
fn test_multiple_records() {
    let records = vec![vec![GraphValue::Int(1)], vec![GraphValue::Int(2)]];
    let expected = "1. 1\n2. 2";
    assert_eq!(format_query_records(&records), expected);
}

#[test]
fn test_node_formatting() {
    let properties = vec![("name".to_string(), GraphValue::Int(42))];

    let node = GraphNode {
        id: 1,
        labels: vec!["Person".to_string()],
        properties,
    };

    let value = GraphValue::Node(node);
    let formatted = format_value(&value);
    assert!(formatted.contains("(:Person"));
    assert!(formatted.contains("name: 42"));
}

#[test]
fn test_edge_formatting() {
    let edge = GraphEdge {
        id: 1,
        relationship_type: "KNOWS".to_string(),
        source_id: 1,
        target_id: 2,
        properties: vec![],
    };

    let value = GraphValue::Edge(edge);
    let formatted = format_value(&value);
    assert_eq!(formatted, "-[:KNOWS]-");
}

#[test]
fn test_array_formatting() {
    let array = vec![GraphValue::Int(1), GraphValue::Int(2), GraphValue::Int(3)];

    let value = GraphValue::Array(array);
    let formatted = format_value(&value);
    assert_eq!(formatted, "[1, 2, 3]");
}

#[test]
fn test_string_quoting() {
    let records = vec![vec![GraphValue::Str("John Doe".to_string())]];
    assert_eq!(format_query_records(&records), "\"John Doe\"");
}

#[test]
fn test_node_without_labels_or_properties() {
    let node = GraphNode { id: 7, labels: vec![], properties: vec![] };
    assert_eq!(format_value(&GraphValue::Node(node)), "()");
}

#[test]
fn test_path_formatting() {
    let a = GraphNode { id: 1, labels: vec!["A".to_string()], properties: vec![] };
    let b = GraphNode { id: 2, labels: vec!["B".to_string()], properties: vec![] };
    let e = GraphEdge {
        id: 3,
        relationship_type: "TO".to_string(),
        source_id: 1,
        target_id: 2,
        properties: vec![],
    };
    let path = GraphPath { nodes: vec![a, b], edges: vec![e] };
    assert_eq!(format_value(&GraphValue::Path(path)), "(:A)-[:TO]-(:B)");
}

#[test]
fn test_negative_and_extreme_integers() {
    assert_eq!(format_value(&GraphValue::Int(-17)), "-17");
    assert_eq!(
        format_value(&GraphValue::Int(i64::MIN)),
        "-9223372036854775808"
    );
    assert_eq!(format_value(&GraphValue::Int(i64::MAX)), "9223372036854775807");
}

#[test]
fn test_json_escaping() {
    let records = vec![vec![GraphValue::Str("a\"b\\c\nd\te\rf\u{1}g".to_string())]];
    assert_eq!(
        format_as_json(&records),
        "[[\"a\\\"b\\\\c\\nd\\te\\rf\\u0001g\"]]"
    );
}

#[test]
fn test_json_records_shape() {
    let records = vec![
        vec![GraphValue::Int(1), GraphValue::Bool(false)],
        vec![GraphValue::Str("x".to_string())],
    ];
    assert_eq!(format_as_json(&records), "[[1,false],[\"x\"]]");
}

#[test]
fn test_json_node_edge_tagging() {
    let node = GraphNode {
        id: 4,
        labels: vec!["Person".to_string()],
        properties: vec![("age".to_string(), GraphValue::Int(30))],
    };
    let edge = GraphEdge {
        id: 9,
        relationship_type: "KNOWS".to_string(),
        source_id: 4,
        target_id: 5,
        properties: vec![],
    };
    let records = vec![vec![GraphValue::Node(node), GraphValue::Edge(edge)]];
    assert_eq!(
        format_as_json(&records),
        "[[{\"type\":\"node\",\"id\":4,\"labels\":[\"Person\"],\"properties\":{\"age\":30}},\
         {\"type\":\"edge\",\"id\":9,\"relationship\":\"KNOWS\",\"source\":4,\"target\":5,\"properties\":{}}]]"
    );
}
