use text_to_cypher::chat::{append_validation_feedback, ChatMessage, ChatRequest, ChatRole};
use text_to_cypher::synth::clean_query_response;
use text_to_cypher::template::{
    process_last_request_prompt, process_last_user_message, TemplateEngine,
};

#[test]
fn render_substitutes_each_variable_in_order() {
    let vars = vec![
        ("A".to_string(), "1".to_string()),
        ("B".to_string(), "2".to_string()),
    ];
    assert_eq!(TemplateEngine::render("{{A}}-{{B}}-{{A}}", &vars), "1-2-1");
}

#[test]
fn render_leaves_unknown_placeholders() {
    let vars = vec![("A".to_string(), "1".to_string())];
    assert_eq!(TemplateEngine::render("{{A}} {{C}}", &vars), "1 {{C}}");
}

#[test]
fn render_system_prompt_embeds_ontology() {
    let out = TemplateEngine::render_system_prompt(
        "Use this ontology: {{ONTOLOGY}}.",
        "{\"entities\":[]}",
    );
    assert_eq!(out, "Use this ontology: {\"entities\":[]}.");
}

#[test]
fn render_user_prompt_embeds_question() {
    let out = TemplateEngine::render_user_prompt("Q: {{QUESTION}}", "Who is Alice?");
    assert_eq!(out, "Q: Who is Alice?");
}

#[test]
fn render_last_request_prompt_embeds_all_three() {
    let out = TemplateEngine::render_last_request_prompt(
        "{{USER_QUESTION}} | {{CYPHER_QUERY}} | {{CYPHER_RESULT}}",
        "Who?",
        "MATCH (n) RETURN n",
        "42",
    );
    assert_eq!(out, "Who? | MATCH (n) RETURN n | 42");
}

#[test]
fn process_prompt_helpers_match_engine() {
    assert_eq!(
        process_last_user_message("Q {{QUESTION}}", "x"),
        TemplateEngine::render_user_prompt("Q {{QUESTION}}", "x")
    );
    assert_eq!(
        process_last_request_prompt("{{CYPHER_QUERY}}", "q", "c", "r"),
        TemplateEngine::render_last_request_prompt("{{CYPHER_QUERY}}", "q", "c", "r")
    );
}

#[test]
fn clean_reply_collapses_newlines_and_fences() {
    let cleaned = clean_query_response("```cypher stays\nMATCH (n)\nRETURN n```");
    assert_eq!(cleaned.as_deref(), Some("cypher stays MATCH (n) RETURN n"));
}

#[test]
fn clean_reply_rejects_empty_and_sentinel() {
    assert_eq!(clean_query_response("   \n  "), None);
    assert_eq!(clean_query_response("NO ANSWER"), None);
    assert_eq!(clean_query_response("  NO ANSWER  "), None);
}

#[test]
fn validation_feedback_appends_two_turns() {
    let conv = ChatRequest {
        messages: vec![ChatMessage { role: ChatRole::User, content: "find people".to_string() }],
    };
    let extended = append_validation_feedback(&conv, "BAD QUERY", "Unbalanced parentheses in query");
    assert_eq!(extended.messages.len(), 3);
    assert!(matches!(extended.messages[1].role, ChatRole::Assistant));
    assert_eq!(extended.messages[1].content, "BAD QUERY");
    assert!(matches!(extended.messages[2].role, ChatRole::User));
    assert_eq!(
        extended.messages[2].content,
        "The previous query has validation errors: Unbalanced parentheses in query. \
         Please generate a corrected Cypher query."
    );
}
