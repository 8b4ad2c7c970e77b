//! The request/response form of the pipeline: the request record, the
//! buffered response, default resolution, and the fold that turns a
//! finished event stream into the single buffered outcome.

use vstd::prelude::*;
use crate::chat::ChatRequest;
use crate::progress::{Progress, ProgressTag, progress_view};
use crate::text::str_eq;

verus! {

/// One buffered conversion request.
#[derive(Debug)]
pub struct TextToCypherRequest {
    pub graph_name: String,
    pub chat_request: ChatRequest,
    pub model: Option<String>,
    pub key: Option<String>,
    pub falkordb_connection: Option<String>,
    /// When set, only the generated query is returned, unexecuted.
    pub cypher_only: bool,
}

/// The buffered outcome of one conversion request.
#[derive(Debug)]
pub struct TextToCypherResponse {
    pub status: String,
    pub schema: Option<String>,
    pub cypher_query: Option<String>,
    pub cypher_result: Option<String>,
    pub answer: Option<String>,
    pub error: Option<String>,
}

/// Text of an optional string.
pub open spec fn opt_view(o: Option<String>) -> Option<Seq<char>> {
    match o {
        Option::Some(s) => Option::Some(s@),
        Option::None => Option::None,
    }
}

/// The tool-call form of a request: the graph to consult and the
/// question to answer over it.
#[derive(Debug)]
pub struct TextToCypherTool {
    pub graph_name: String,
    pub question: String,
}

impl TextToCypherResponse {
    /// A successful outcome.
    pub fn success(
        schema: String,
        cypher_query: String,
        cypher_result: Option<String>,
        answer: Option<String>,
    ) -> (r: TextToCypherResponse)
        ensures
            r.status@ == "success"@,
            opt_view(r.schema) == Option::Some(schema@),
            opt_view(r.cypher_query) == Option::Some(cypher_query@),
            opt_view(r.cypher_result) == opt_view(cypher_result),
            opt_view(r.answer) == opt_view(answer),
            r.error is None,
    {
        TextToCypherResponse {
            status: String::from_str("success"),
            schema: Option::Some(schema),
            cypher_query: Option::Some(cypher_query),
            cypher_result,
            answer,
            error: Option::None,
        }
    }

    /// A failed outcome carrying one human-readable description.
    pub fn error(error_message: String) -> (r: TextToCypherResponse)
        ensures
            r.status@ == "error"@,
            r.schema is None,
            r.cypher_query is None,
            r.cypher_result is None,
            r.answer is None,
            opt_view(r.error) == Option::Some(error_message@),
    {
        TextToCypherResponse {
            status: String::from_str("error"),
            schema: Option::None,
            cypher_query: Option::None,
            cypher_result: Option::None,
            answer: Option::None,
            error: Option::Some(error_message),
        }
    }

    /// Whether this outcome reports a failure.
    pub fn is_error(&self) -> (r: bool)
        ensures
            r == (self.status@ == "error"@),
    {
        str_eq(self.status.as_str(), "error")
    }
}

/// The model to use: the request's, else the configured default,
/// else nothing.
pub open spec fn resolved_model_spec(
    request_model: Option<Seq<char>>,
    default_model: Option<Seq<char>>,
) -> Option<Seq<char>> {
    match request_model {
        Option::Some(m) => Option::Some(m),
        Option::None => default_model,
    }
}

/// Resolves the model for a request against the configured default.
pub fn resolve_model(request_model: &Option<String>, default_model: &Option<String>) -> (r: Option<
    String,
>)
    ensures
        opt_view(r) == resolved_model_spec(
            opt_view(*request_model),
            opt_view(*default_model),
        ),
{
    match request_model {
        Option::Some(m) => Option::Some(String::from_str(m.as_str())),
        Option::None => match default_model {
            Option::Some(d) => Option::Some(String::from_str(d.as_str())),
            Option::None => Option::None,
        },
    }
}

/// The text of the last event of `tag` among the first `i` events.
pub open spec fn last_text_of(evs: Seq<Progress>, tag: ProgressTag, i: int) -> Option<Seq<char>>
    decreases i,
{
    if i <= 0 || i > evs.len() {
        Option::None
    } else if progress_view(evs[i - 1]).0 == tag {
        Option::Some(progress_view(evs[i - 1]).1)
    } else {
        last_text_of(evs, tag, i - 1)
    }
}

fn find_last_text(evs: &Vec<Progress>, tag: ProgressTag) -> (r: Option<String>)
    ensures
        opt_view(r) == last_text_of(evs@, tag, evs@.len() as int),
{
    let n = evs.len();
    let mut i: usize = n;
    while i > 0
        invariant
            n == evs@.len(),
            i <= n,
            last_text_of(evs@, tag, n as int) == last_text_of(evs@, tag, i as int),
        decreases i,
    {
        let matched: Option<&String> = match &evs[i - 1] {
            Progress::Status(t) => if matches!(tag, ProgressTag::Status) {
                Option::Some(t)
            } else {
                Option::None
            },
            Progress::Schema(t) => if matches!(tag, ProgressTag::Schema) {
                Option::Some(t)
            } else {
                Option::None
            },
            Progress::CypherQuery(t) => if matches!(tag, ProgressTag::CypherQuery) {
                Option::Some(t)
            } else {
                Option::None
            },
            Progress::CypherResult(t) => if matches!(tag, ProgressTag::CypherResult) {
                Option::Some(t)
            } else {
                Option::None
            },
            Progress::ModelOutputChunk(t) => if matches!(tag, ProgressTag::ModelOutputChunk) {
                Option::Some(t)
            } else {
                Option::None
            },
            Progress::Answer(t) => if matches!(tag, ProgressTag::Answer) {
                Option::Some(t)
            } else {
                Option::None
            },
            Progress::Error(t) => if matches!(tag, ProgressTag::Error) {
                Option::Some(t)
            } else {
                Option::None
            },
        };
        match matched {
            Option::Some(t) => {
                return Option::Some(String::from_str(t.as_str()));
            },
            Option::None => {},
        }
        i = i - 1;
    }
    Option::None
}

/// Folds a finished event stream into the buffered outcome: any
/// `Error` event wins and yields the failed response carrying its
/// text; otherwise the last `Schema`, `CypherQuery` and `CypherResult`
/// texts fill the successful response, an absent schema or query
/// reading as empty.  The answer field holds the synthesized text
/// only when an execution result was reported: a query-only run's
/// terminal event repeats the generated query on the wire, and that
/// repetition is no natural-language answer, so its buffered outcome
/// carries none.
pub fn response_from_events(events: &Vec<Progress>) -> (r: TextToCypherResponse)
    ensures
        ({
            let n = events@.len() as int;
            match last_text_of(events@, ProgressTag::Error, n) {
                Option::Some(e) => {
                    &&& r.status@ == "error"@
                    &&& opt_view(r.error) == Option::Some(e)
                    &&& r.schema is None
                    &&& r.cypher_query is None
                    &&& r.cypher_result is None
                    &&& r.answer is None
                },
                Option::None => {
                    &&& r.status@ == "success"@
                    &&& r.error is None
                    &&& opt_view(r.schema) == Option::Some(
                        match last_text_of(events@, ProgressTag::Schema, n) {
                            Option::Some(s) => s,
                            Option::None => Seq::<char>::empty(),
                        },
                    )
                    &&& opt_view(r.cypher_query) == Option::Some(
                        match last_text_of(events@, ProgressTag::CypherQuery, n) {
                            Option::Some(q) => q,
                            Option::None => Seq::<char>::empty(),
                        },
                    )
                    &&& opt_view(r.cypher_result) == last_text_of(
                        events@,
                        ProgressTag::CypherResult,
                        n,
                    )
                    &&& opt_view(r.answer) == (
                    if last_text_of(events@, ProgressTag::CypherResult, n) is Some {
                        last_text_of(events@, ProgressTag::Answer, n)
                    } else {
                        Option::<Seq<char>>::None
                    })
                },
            }
        }),
{
    match find_last_text(events, ProgressTag::Error) {
        Option::Some(e) => TextToCypherResponse::error(e),
        Option::None => {
            let schema = match find_last_text(events, ProgressTag::Schema) {
                Option::Some(s) => s,
                Option::None => String::new(),
            };
            let query = match find_last_text(events, ProgressTag::CypherQuery) {
                Option::Some(q) => q,
                Option::None => String::new(),
            };
            let result = find_last_text(events, ProgressTag::CypherResult);
            let answer = if result.is_some() {
                find_last_text(events, ProgressTag::Answer)
            } else {
                Option::None
            };
            TextToCypherResponse::success(schema, query, result, answer)
        },
    }
}

} // verus!
