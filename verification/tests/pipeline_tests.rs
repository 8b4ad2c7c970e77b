use text_to_cypher::chat::{ChatMessage, ChatRequest, ChatRole};
use text_to_cypher::formatter::{format_query_records, GraphNode, GraphValue};
use text_to_cypher::pipeline::{Pipeline, PipelineAction, PipelinePhase};
use text_to_cypher::progress::Progress;
use text_to_cypher::processor::response_from_events;

fn tag_name(p: &Progress) -> &'static str {
    match p {
        Progress::Status(_) => "Status",
        Progress::Schema(_) => "Schema",
        Progress::CypherQuery(_) => "CypherQuery",
        Progress::CypherResult(_) => "CypherResult",
        Progress::ModelOutputChunk(_) => "ModelOutputChunk",
        Progress::Answer(_) => "Answer",
        Progress::Error(_) => "Error",
    }
}

fn event_text(p: &Progress) -> &str {
    match p {
        Progress::Status(t) => t,
        Progress::Schema(t) => t,
        Progress::CypherQuery(t) => t,
        Progress::CypherResult(t) => t,
        Progress::ModelOutputChunk(t) => t,
        Progress::Answer(t) => t,
        Progress::Error(t) => t,
    }
}

fn question_conversation(text: &str) -> ChatRequest {
    ChatRequest {
        messages: vec![ChatMessage { role: ChatRole::User, content: text.to_string() }],
    }
}

fn new_pipeline(question: &str, query_only: bool) -> Pipeline {
    Pipeline::new(
        question_conversation(question),
        query_only,
        "Generate OpenCypher statements using this ontology: {{ONTOLOGY}}".to_string(),
        "Generate an OpenCypher statement for: {{QUESTION}}".to_string(),
        "Answer {{USER_QUESTION}} from {{CYPHER_QUERY}} giving {{CYPHER_RESULT}}".to_string(),
    )
}

#[test]
fn happy_path_event_order() {
    let mut p = new_pipeline("Find all people named Alice", false);
    let mut events: Vec<Progress> = Vec::new();

    let (evs, act) = p.start("Processing query for graph: people using model: test".to_string());
    events.extend(evs);
    assert!(matches!(act, PipelineAction::ResolveSchema));

    let schema = "{\"entities\":[{\"label\":\"Person\",\"attributes\":[{\"name\":\"name\",\"type\":\"String\"}]}],\"relations\":[]}";
    let (evs, act) = p.on_schema(schema.to_string());
    events.extend(evs);
    let req = match act {
        PipelineAction::CallModel(req) => req,
        _ => panic!("expected a model call"),
    };
    assert!(matches!(req.messages[0].role, ChatRole::System));
    assert!(req.messages[0].content.contains(schema));
    assert_eq!(
        req.messages[1].content,
        "Generate an OpenCypher statement for: Find all people named Alice"
    );

    let (evs, act) = p.on_model_reply("MATCH (p:Person {name:\"Alice\"}) RETURN p");
    events.extend(evs);
    let query = match act {
        Some(PipelineAction::RunQuery(q)) => q,
        _ => panic!("expected an execution request"),
    };
    assert_eq!(query, "MATCH (p:Person {name:\"Alice\"}) RETURN p");

    let node = GraphNode {
        id: 1,
        labels: vec!["Person".to_string()],
        properties: vec![("name".to_string(), GraphValue::Str("Alice".to_string()))],
    };
    let result = format_query_records(&vec![vec![GraphValue::Node(node)]]);
    assert_eq!(result, "(:Person {name: \"Alice\"})");
    let (evs, act) = p.on_exec_ok(result.clone());
    events.extend(evs);
    match act {
        PipelineAction::StreamAnswer(req) => {
            assert!(req.messages[0].content.contains(&result));
        }
        _ => panic!("expected answer synthesis"),
    }

    let evs = p.on_answer_chunk("Alice was found.".to_string());
    let chunk_events = evs;
    assert_eq!(chunk_events.len(), 1);
    assert_eq!(tag_name(&chunk_events[0]), "ModelOutputChunk");

    let evs = p.on_answer_complete();
    events.extend(evs);
    assert!(matches!(p.phase(), PipelinePhase::Done));

    let tags: Vec<&str> = events.iter().map(tag_name).collect();
    assert_eq!(
        tags,
        vec!["Status", "Schema", "CypherQuery", "Status", "CypherResult", "Status", "Answer"]
    );
    assert!(!tags.contains(&"Error"));
    assert_eq!(event_text(events.last().unwrap()), "Alice was found.");
}

#[test]
fn destructive_query_blocked_then_fatal() {
    let mut p = new_pipeline("Delete everything", false);
    let (_evs, _act) = p.start("processing".to_string());
    let (_evs, _act) = p.on_schema("{}".to_string());

    let (evs, act) = p.on_model_reply("MATCH (n) DELETE n");
    assert!(evs.is_empty(), "the single retry is silent");
    let retry_req = match act {
        Some(PipelineAction::CallModel(req)) => req,
        _ => panic!("expected a regeneration request"),
    };
    let turns = &retry_req.messages;
    let assistant_turn = &turns[turns.len() - 2];
    assert!(matches!(assistant_turn.role, ChatRole::Assistant));
    assert_eq!(assistant_turn.content, "MATCH (n) DELETE n");
    let feedback_turn = &turns[turns.len() - 1];
    assert!(matches!(feedback_turn.role, ChatRole::User));
    assert!(feedback_turn.content.contains("validation errors"));
    assert!(feedback_turn.content.contains("dangerous operations"));

    let (evs, act) = p.on_model_reply("MATCH (n) DELETE n");
    assert!(act.is_none());
    assert_eq!(evs.len(), 1);
    assert_eq!(tag_name(&evs[0]), "Error");
    assert!(event_text(&evs[0]).contains("dangerous operations"));
    assert!(matches!(p.phase(), PipelinePhase::Failed));
}

#[test]
fn query_only_stops_after_query() {
    let mut p = new_pipeline("Find all people", true);
    let mut events: Vec<Progress> = Vec::new();
    let (evs, _act) = p.start("processing".to_string());
    events.extend(evs);
    let (evs, _act) = p.on_schema("{}".to_string());
    events.extend(evs);
    let (evs, act) = p.on_model_reply("MATCH (p:Person) RETURN p");
    events.extend(evs);
    assert!(act.is_none(), "query-only mode must not request execution or answering");
    assert!(matches!(p.phase(), PipelinePhase::Done));
    let tags: Vec<&str> = events.iter().map(tag_name).collect();
    assert_eq!(tags, vec!["Status", "Schema", "CypherQuery", "Answer"]);
    assert_eq!(event_text(&events[3]), "MATCH (p:Person) RETURN p");
}

#[test]
fn execution_failure_heals_once() {
    let mut p = new_pipeline("How many nodes", false);
    let (_e, _a) = p.start("processing".to_string());
    let (_e, _a) = p.on_schema("{}".to_string());
    let (_e, act) = p.on_model_reply("MATCH (n) RETURN count(n)");
    assert!(matches!(act, Some(PipelineAction::RunQuery(_))));

    let (evs, act) = p.on_exec_failed();
    assert!(evs.is_empty());
    let retry_req = match act {
        Some(PipelineAction::CallModel(req)) => req,
        _ => panic!("expected a self-healing regeneration"),
    };
    let feedback = &retry_req.messages[retry_req.messages.len() - 1];
    assert!(feedback.content.contains("The previous query failed with error"));

    let (evs, act) = p.on_model_reply("MATCH (m) RETURN count(m)");
    assert!(evs.is_empty(), "the healed query is executed without re-reporting");
    assert!(matches!(act, Some(PipelineAction::RunQuery(_))));

    let (evs, act) = p.on_exec_failed();
    assert!(act.is_none());
    assert_eq!(evs.len(), 1);
    assert_eq!(tag_name(&evs[0]), "Error");
    assert!(matches!(p.phase(), PipelinePhase::Failed));
}

#[test]
fn empty_reply_is_fatal() {
    let mut p = new_pipeline("Anything", false);
    let (_e, _a) = p.start("processing".to_string());
    let (_e, _a) = p.on_schema("{}".to_string());
    let (evs, act) = p.on_model_reply("NO ANSWER");
    assert!(act.is_none());
    assert_eq!(tag_name(&evs[0]), "Error");
    assert_eq!(event_text(&evs[0]), "No valid query was generated");
}

#[test]
fn schema_failure_is_fatal() {
    let mut p = new_pipeline("Anything", false);
    let (_e, _a) = p.start("processing".to_string());
    let evs = p.on_schema_failed("connection refused");
    assert_eq!(tag_name(&evs[0]), "Error");
    assert_eq!(event_text(&evs[0]), "Failed to discover schema: connection refused");
    assert!(matches!(p.phase(), PipelinePhase::Failed));
}

#[test]
fn answer_chunks_accumulate() {
    let mut p = new_pipeline("Who is there", false);
    let (_e, _a) = p.start("processing".to_string());
    let (_e, _a) = p.on_schema("{}".to_string());
    let (_e, _a) = p.on_model_reply("MATCH (n) RETURN n");
    let (_e, _a) = p.on_exec_ok("42".to_string());
    let _ = p.on_answer_chunk("The answer ".to_string());
    let _ = p.on_answer_chunk("is 42.".to_string());
    let evs = p.on_answer_complete();
    assert_eq!(event_text(&evs[0]), "The answer is 42.");
}

#[test]
fn buffered_outcome_from_events() {
    let mut p = new_pipeline("Find all people named Alice", false);
    let mut events: Vec<Progress> = Vec::new();
    let (evs, _a) = p.start("processing".to_string());
    events.extend(evs);
    let (evs, _a) = p.on_schema("{\"entities\":[]}".to_string());
    events.extend(evs);
    let (evs, _a) = p.on_model_reply("MATCH (p) RETURN p");
    events.extend(evs);
    let (evs, _a) = p.on_exec_ok("(:Person)".to_string());
    events.extend(evs);
    events.extend(p.on_answer_chunk("One person.".to_string()));
    events.extend(p.on_answer_complete());

    let response = response_from_events(&events);
    assert_eq!(response.status, "success");
    assert_eq!(response.schema.as_deref(), Some("{\"entities\":[]}"));
    assert_eq!(response.cypher_query.as_deref(), Some("MATCH (p) RETURN p"));
    assert_eq!(response.cypher_result.as_deref(), Some("(:Person)"));
    assert_eq!(response.answer.as_deref(), Some("One person."));
    assert!(response.error.is_none());
    assert!(!response.is_error());
}

#[test]
fn buffered_outcome_on_failure() {
    let mut p = new_pipeline("Anything", false);
    let mut events: Vec<Progress> = Vec::new();
    let (evs, _a) = p.start("processing".to_string());
    events.extend(evs);
    events.extend(p.on_schema_failed("unreachable"));
    let response = response_from_events(&events);
    assert!(response.is_error());
    assert_eq!(response.status, "error");
    assert_eq!(response.error.as_deref(), Some("Failed to discover schema: unreachable"));
    assert!(response.schema.is_none());
}

#[test]
fn query_only_buffered_outcome_has_no_answer() {
    let mut p = new_pipeline("Find all people", true);
    let mut events: Vec<Progress> = Vec::new();
    let (evs, _a) = p.start("processing".to_string());
    events.extend(evs);
    let (evs, _a) = p.on_schema("{\"entities\":[]}".to_string());
    events.extend(evs);
    let (evs, act) = p.on_model_reply("MATCH (p:Person) RETURN p");
    events.extend(evs);
    assert!(act.is_none());

    let response = response_from_events(&events);
    assert_eq!(response.status, "success");
    assert_eq!(response.schema.as_deref(), Some("{\"entities\":[]}"));
    assert_eq!(response.cypher_query.as_deref(), Some("MATCH (p:Person) RETURN p"));
    assert!(response.cypher_result.is_none());
    assert!(
        response.answer.is_none(),
        "the query-only terminal repeats the query; it is no answer"
    );
}

#[test]
fn provider_failure_during_synthesis_is_reported() {
    let mut p = new_pipeline("Anything", false);
    let (_e, _a) = p.start("processing".to_string());
    let (_e, _a) = p.on_schema("{}".to_string());
    let evs = p.on_model_failed("connection reset by peer");
    assert_eq!(evs.len(), 1);
    assert_eq!(tag_name(&evs[0]), "Error");
    assert_eq!(event_text(&evs[0]), "Chat request failed: connection reset by peer");
    assert!(matches!(p.phase(), PipelinePhase::Failed));
}

#[test]
fn fence_cleaning_in_reply() {
    let mut p = new_pipeline("Anything", false);
    let (_e, _a) = p.start("processing".to_string());
    let (_e, _a) = p.on_schema("{}".to_string());
    let (evs, _act) = p.on_model_reply("```\nMATCH (n)\nRETURN n\n```");
    assert_eq!(tag_name(&evs[0]), "CypherQuery");
    assert_eq!(event_text(&evs[0]), "MATCH (n) RETURN n");
}
