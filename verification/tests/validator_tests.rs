use text_to_cypher::validator::CypherValidator;

#[test]
fn test_valid_query() {
    let query = "MATCH (n:Person) WHERE n.name = 'John' RETURN n";
    let result = CypherValidator::validate(query);
    assert!(result.is_valid, "Query should be valid");
    assert!(result.errors.is_empty(), "Should have no errors");
}

#[test]
fn test_empty_query() {
    let query = "";
    let result = CypherValidator::validate(query);
    assert!(!result.is_valid, "Empty query should be invalid");
    assert!(!result.errors.is_empty(), "Should have errors");
}

#[test]
fn test_unbalanced_parentheses() {
    let query = "MATCH (n:Person WHERE n.name = 'John' RETURN n";
    let result = CypherValidator::validate(query);
    assert!(!result.is_valid, "Query with unbalanced parentheses should be invalid");
}

#[test]
fn test_dangerous_operations() {
    let query = "MATCH (n) DROP n";
    let result = CypherValidator::validate(query);
    assert!(!result.is_valid, "Query with DROP should be invalid");
}

#[test]
fn test_balanced_parentheses() {
    assert!(CypherValidator::check_balanced_parentheses("()"));
    assert!(CypherValidator::check_balanced_parentheses("(())"));
    assert!(CypherValidator::check_balanced_parentheses("(()())"));
    assert!(!CypherValidator::check_balanced_parentheses("(()"));
    assert!(!CypherValidator::check_balanced_parentheses("())"));
}

#[test]
fn test_empty_query_error_text() {
    let result = CypherValidator::validate("   ");
    assert_eq!(result.errors.len(), 1);
    assert_eq!(result.errors[0], "Query is empty");
    assert!(result.warnings.is_empty());
}

#[test]
fn test_missing_keyword_error() {
    let result = CypherValidator::validate("hello world");
    assert!(!result.is_valid);
    assert!(result.errors.iter().any(|e| e == "Query does not contain valid Cypher keywords"));
}

#[test]
fn test_dangerous_error_text() {
    let result = CypherValidator::validate("MATCH (n) DELETE n");
    assert!(result
        .errors
        .iter()
        .any(|e| e == "Query contains potentially dangerous operations (DROP, DELETE ALL)"));
}

#[test]
fn test_unbalanced_brackets_error() {
    let result = CypherValidator::validate("MATCH (n) RETURN n[0");
    assert!(result.errors.iter().any(|e| e == "Unbalanced brackets in query"));
}

#[test]
fn test_warnings_for_missing_clauses() {
    let result = CypherValidator::validate("SET n.age = 3");
    assert!(result.is_valid, "Warnings must not block a query");
    assert!(result.warnings.iter().any(|w| w == "Query does not contain a MATCH clause"));
    assert!(result.warnings.iter().any(|w| w == "Query does not contain a RETURN clause"));
}

#[test]
fn test_create_start_suppresses_match_warning() {
    let result = CypherValidator::validate("CREATE (n:Person) RETURN n");
    assert!(!result.warnings.iter().any(|w| w == "Query does not contain a MATCH clause"));
}

#[test]
fn test_case_insensitive_keywords() {
    let result = CypherValidator::validate("match (n) return n");
    assert!(result.is_valid);
    assert!(result.warnings.is_empty());
}

#[test]
fn test_validate_deterministic() {
    let query = "MATCH (n:Person RETURN n";
    let a = CypherValidator::validate(query);
    let b = CypherValidator::validate(query);
    assert_eq!(a.is_valid, b.is_valid);
    assert_eq!(a.errors, b.errors);
    assert_eq!(a.warnings, b.warnings);
}

#[test]
fn test_suggest_fix_appends_return() {
    let fixed = CypherValidator::suggest_fix("MATCH (n:Person)", "Syntax error near end");
    assert_eq!(fixed, Some("MATCH (n:Person)\nRETURN *".to_string()));
}

#[test]
fn test_suggest_fix_inserts_where() {
    let fixed = CypherValidator::suggest_fix(
        "MATCH (n:Person) n.name = 'John' RETURN n",
        "Invalid syntax at offset 17",
    );
    assert_eq!(
        fixed,
        Some("MATCH (n:Person) \nWHERE n.name = 'John' RETURN n".to_string())
    );
}

#[test]
fn test_suggest_fix_none_for_other_errors() {
    let fixed = CypherValidator::suggest_fix("MATCH (n) RETURN n", "property not found");
    assert_eq!(fixed, None);
}
