//! Error reporting: the wire error body, and the heuristic
//! classification of provider error texts into tagged kinds.  The
//! classifier inspects message substrings only; it is best-effort and
//! never authoritative, with an explicit unknown-cause fallback.

use vstd::prelude::*;
use crate::text::{contains_seq, contains_str};

verus! {

/// The error body returned to callers.
#[derive(Debug)]
pub struct ErrorResponse {
    pub error: String,
    pub message: String,
    pub status_code: u16,
}

/// Heuristic kind of a provider failure.
#[derive(Clone, Copy, PartialEq, Eq, Structural, Debug)]
pub enum ProviderErrorKind {
    ModelNotFound,
    RateLimited,
    AuthenticationFailed,
    Upstream,
}

/// The kind a provider error text is classified into, by substring
/// inspection, checked in a fixed order with `Upstream` as the
/// unknown-cause fallback.
pub open spec fn classify_spec(msg: Seq<char>) -> ProviderErrorKind {
    if contains_seq(msg, "not found"@) || contains_seq(msg, "model"@) {
        ProviderErrorKind::ModelNotFound
    } else if contains_seq(msg, "rate limit"@) || contains_seq(msg, "quota"@) {
        ProviderErrorKind::RateLimited
    } else if contains_seq(msg, "authentication"@) || contains_seq(msg, "api key"@) {
        ProviderErrorKind::AuthenticationFailed
    } else {
        ProviderErrorKind::Upstream
    }
}

/// Classifies a provider error text.
pub fn classify_provider_error(msg: &str) -> (r: ProviderErrorKind)
    ensures
        r == classify_spec(msg@),
{
    if contains_str(msg, "not found") || contains_str(msg, "model") {
        ProviderErrorKind::ModelNotFound
    } else if contains_str(msg, "rate limit") || contains_str(msg, "quota") {
        ProviderErrorKind::RateLimited
    } else if contains_str(msg, "authentication") || contains_str(msg, "api key") {
        ProviderErrorKind::AuthenticationFailed
    } else {
        ProviderErrorKind::Upstream
    }
}

/// The HTTP-like status a kind maps to.
pub open spec fn kind_status_spec(k: ProviderErrorKind) -> int {
    match k {
        ProviderErrorKind::ModelNotFound => 404,
        ProviderErrorKind::RateLimited => 429,
        ProviderErrorKind::AuthenticationFailed => 401,
        ProviderErrorKind::Upstream => 502,
    }
}

/// The label a kind maps to.
pub open spec fn kind_label_spec(k: ProviderErrorKind) -> Seq<char> {
    match k {
        ProviderErrorKind::ModelNotFound => "MODEL_NOT_FOUND"@,
        ProviderErrorKind::RateLimited => "RATE_LIMITED"@,
        ProviderErrorKind::AuthenticationFailed => "AUTHENTICATION_ERROR"@,
        ProviderErrorKind::Upstream => "GENAI_ERROR"@,
    }
}

/// The message prefix a kind maps to.
pub open spec fn kind_prefix_spec(k: ProviderErrorKind) -> Seq<char> {
    match k {
        ProviderErrorKind::ModelNotFound => "Model not found: "@,
        ProviderErrorKind::RateLimited => "Rate limited: "@,
        ProviderErrorKind::AuthenticationFailed => "Authentication failed: "@,
        ProviderErrorKind::Upstream => "AI service error: "@,
    }
}

impl ErrorResponse {
    /// The error body for a provider failure: label, prefixed
    /// message and status all follow the classified kind.
    pub fn from_provider_error(msg: &str) -> (r: ErrorResponse)
        ensures
            r.error@ == kind_label_spec(classify_spec(msg@)),
            r.message@ == kind_prefix_spec(classify_spec(msg@)) + msg@,
            r.status_code == kind_status_spec(classify_spec(msg@)),
    {
        let kind = classify_provider_error(msg);
        let error = match kind {
            ProviderErrorKind::ModelNotFound => String::from_str("MODEL_NOT_FOUND"),
            ProviderErrorKind::RateLimited => String::from_str("RATE_LIMITED"),
            ProviderErrorKind::AuthenticationFailed => String::from_str("AUTHENTICATION_ERROR"),
            ProviderErrorKind::Upstream => String::from_str("GENAI_ERROR"),
        };
        let mut message = match kind {
            ProviderErrorKind::ModelNotFound => String::from_str("Model not found: "),
            ProviderErrorKind::RateLimited => String::from_str("Rate limited: "),
            ProviderErrorKind::AuthenticationFailed => String::from_str("Authentication failed: "),
            ProviderErrorKind::Upstream => String::from_str("AI service error: "),
        };
        message.append(msg);
        let status_code: u16 = match kind {
            ProviderErrorKind::ModelNotFound => 404,
            ProviderErrorKind::RateLimited => 429,
            ProviderErrorKind::AuthenticationFailed => 401,
            ProviderErrorKind::Upstream => 502,
        };
        ErrorResponse { error, message, status_code }
    }

    /// The error body for an internal fault.
    pub fn internal_server_error(msg: &str) -> (r: ErrorResponse)
        ensures
            r.error@ == "INTERNAL_ERROR"@,
            r.message@ == msg@,
            r.status_code == 500,
    {
        ErrorResponse {
            error: String::from_str("INTERNAL_ERROR"),
            message: String::from_str(msg),
            status_code: 500,
        }
    }

    /// The error body for a malformed request.
    pub fn bad_request(msg: &str) -> (r: ErrorResponse)
        ensures
            r.error@ == "BAD_REQUEST"@,
            r.message@ == msg@,
            r.status_code == 400,
    {
        ErrorResponse {
            error: String::from_str("BAD_REQUEST"),
            message: String::from_str(msg),
            status_code: 400,
        }
    }

    /// The error body for a missing resource.
    pub fn not_found(msg: &str) -> (r: ErrorResponse)
        ensures
            r.error@ == "NOT_FOUND"@,
            r.message@ == msg@,
            r.status_code == 404,
    {
        ErrorResponse {
            error: String::from_str("NOT_FOUND"),
            message: String::from_str(msg),
            status_code: 404,
        }
    }

    /// The error body for an unavailable collaborator.
    pub fn service_unavailable(msg: &str) -> (r: ErrorResponse)
        ensures
            r.error@ == "SERVICE_UNAVAILABLE"@,
            r.message@ == msg@,
            r.status_code == 503,
    {
        ErrorResponse {
            error: String::from_str("SERVICE_UNAVAILABLE"),
            message: String::from_str(msg),
            status_code: 503,
        }
    }
}

} // verus!
