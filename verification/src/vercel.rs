//! Plain serverless response values: status, headers and a JSON body,
//! with the exact error-body text pinned down.

use vstd::prelude::*;
use crate::json::json_string;
use crate::text::strs_view;

verus! {

/// A serverless HTTP response.
#[derive(Debug)]
pub struct VercelResponse {
    pub status_code: u16,
    pub headers: Vec<(String, String)>,
    pub body: String,
}

/// The body of an error response: a JSON object holding the escaped
/// message and the fixed error status, members in name order.
pub open spec fn error_body_spec(message: Seq<char>) -> Seq<char> {
    "{\"error\":"@ + json_string(message) + ",\"status\":\"error\"}"@
}

/// The header names of a response, in order.
pub open spec fn header_names(headers: Seq<(String, String)>) -> Seq<Seq<char>> {
    strs_view(headers.map_values(|p: (String, String)| p.0))
}

/// The header values of a response, in order.
pub open spec fn header_values(headers: Seq<(String, String)>) -> Seq<Seq<char>> {
    strs_view(headers.map_values(|p: (String, String)| p.1))
}

/// The fixed headers of an error response: a JSON content type and a
/// permissive origin.
pub open spec fn error_headers(headers: Seq<(String, String)>) -> bool {
    &&& header_names(headers) == seq!["Content-Type"@, "Access-Control-Allow-Origin"@]
    &&& header_values(headers) == seq!["application/json"@, "*"@]
}

impl VercelResponse {
    /// An error response with JSON and permissive-origin headers.
    pub fn error(status_code: u16, message: &str) -> (r: VercelResponse)
        ensures
            r.status_code == status_code,
            r.body@ == error_body_spec(message@),
            error_headers(r.headers@),
    {
        let mut headers: Vec<(String, String)> = Vec::new();
        headers.push((String::from_str("Content-Type"), String::from_str("application/json")));
        headers.push((String::from_str("Access-Control-Allow-Origin"), String::from_str("*")));
        let mut body = String::from_str("{\"error\":");
        crate::json::append_json_string(&mut body, message);
        body.append(",\"status\":\"error\"}");
        let r = VercelResponse { status_code, headers, body };
        proof {
            assert(r.body@ =~= error_body_spec(message@));
            assert(header_names(r.headers@) =~= seq![
                "Content-Type"@,
                "Access-Control-Allow-Origin"@,
            ]);
            assert(header_values(r.headers@) =~= seq!["application/json"@, "*"@]);
        }
        r
    }

    /// A malformed-request error response.
    pub fn bad_request(message: &str) -> (r: VercelResponse)
        ensures
            r.status_code == 400,
            r.body@ == error_body_spec(message@),
            error_headers(r.headers@),
    {
        Self::error(400, message)
    }

    /// An internal-fault error response.
    pub fn internal_error(message: &str) -> (r: VercelResponse)
        ensures
            r.status_code == 500,
            r.body@ == error_body_spec(message@),
            error_headers(r.headers@),
    {
        Self::error(500, message)
    }
}

} // verus!
