use text_to_cypher::client::TextToCypherClient;
use text_to_cypher::errors::{classify_provider_error, ErrorResponse, ProviderErrorKind};
use text_to_cypher::processor::{resolve_model, TextToCypherResponse};
use text_to_cypher::progress::Progress;
use text_to_cypher::vercel::VercelResponse;

#[test]
fn client_new_stores_configuration() {
    let client = TextToCypherClient::new("gpt-4o-mini", "SECRET-REDACTED", "falkor://127.0.0.1:6379");
    assert_eq!(client.model, "gpt-4o-mini");
    assert_eq!(client.api_key, "SECRET-REDACTED");
    assert_eq!(client.falkordb_connection, "falkor://127.0.0.1:6379");
}

#[test]
fn provider_errors_classify_by_substring() {
    assert!(matches!(
        classify_provider_error("model abc not found"),
        ProviderErrorKind::ModelNotFound
    ));
    assert!(matches!(
        classify_provider_error("rate limit exceeded"),
        ProviderErrorKind::RateLimited
    ));
    assert!(matches!(
        classify_provider_error("bad api key"),
        ProviderErrorKind::AuthenticationFailed
    ));
    assert!(matches!(
        classify_provider_error("socket hangup"),
        ProviderErrorKind::Upstream
    ));
}

#[test]
fn provider_error_response_carries_status() {
    let r = ErrorResponse::from_provider_error("rate limit exceeded");
    assert_eq!(r.error, "RATE_LIMITED");
    assert_eq!(r.message, "Rate limited: rate limit exceeded");
    assert_eq!(r.status_code, 429);
    let r = ErrorResponse::from_provider_error("socket hangup");
    assert_eq!(r.error, "GENAI_ERROR");
    assert_eq!(r.status_code, 502);
}

#[test]
fn fixed_error_responses() {
    assert_eq!(ErrorResponse::internal_server_error("x").status_code, 500);
    assert_eq!(ErrorResponse::bad_request("x").status_code, 400);
    assert_eq!(ErrorResponse::not_found("x").status_code, 404);
    assert_eq!(ErrorResponse::service_unavailable("x").status_code, 503);
}

#[test]
fn model_resolution_prefers_request() {
    let req = Some("a".to_string());
    let def = Some("b".to_string());
    assert_eq!(resolve_model(&req, &def).as_deref(), Some("a"));
    assert_eq!(resolve_model(&None, &def).as_deref(), Some("b"));
    assert_eq!(resolve_model(&None, &None), None);
}

#[test]
fn response_constructors() {
    let ok = TextToCypherResponse::success(
        "{}".to_string(),
        "MATCH (n) RETURN n".to_string(),
        Some("42".to_string()),
        None,
    );
    assert_eq!(ok.status, "success");
    assert!(!ok.is_error());
    assert_eq!(ok.cypher_result.as_deref(), Some("42"));
    assert!(ok.answer.is_none());

    let bad = TextToCypherResponse::error("boom".to_string());
    assert!(bad.is_error());
    assert_eq!(bad.error.as_deref(), Some("boom"));
}

#[test]
fn sse_encoding_is_exact() {
    assert_eq!(
        Progress::Status("hi".to_string()).to_sse(),
        "data: {\"Status\":\"hi\"}\n\n"
    );
    assert_eq!(
        Progress::Answer("done".to_string()).to_sse(),
        "data: {\"Result\":\"done\"}\n\n"
    );
    assert_eq!(
        Progress::Error("a \"quoted\" word".to_string()).to_sse(),
        "data: {\"Error\":\"a \\\"quoted\\\" word\"}\n\n"
    );
}

#[test]
fn vercel_error_bodies() {
    let r = VercelResponse::bad_request("missing graph_name");
    assert_eq!(r.status_code, 400);
    assert_eq!(r.body, "{\"error\":\"missing graph_name\",\"status\":\"error\"}");
    assert_eq!(r.headers[0].0, "Content-Type");
    assert_eq!(r.headers[0].1, "application/json");
    assert_eq!(r.headers[1].0, "Access-Control-Allow-Origin");
    assert_eq!(r.headers[1].1, "*");
    let r = VercelResponse::internal_error("boom");
    assert_eq!(r.status_code, 500);
}
