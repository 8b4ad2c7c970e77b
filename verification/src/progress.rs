//! Typed progress events, their wire encoding, and the stage-order
//! discipline every emitted event stream obeys: tags appear in
//! pipeline stage order and at most one terminal event ever appears.

use vstd::prelude::*;
use crate::json::{append_json_string, json_string};

verus! {

/// One unit of the ordered output stream.  `Answer` is the successful
/// terminal event; `Error` the failing one.
#[derive(Debug)]
pub enum Progress {
    Status(String),
    Schema(String),
    CypherQuery(String),
    CypherResult(String),
    ModelOutputChunk(String),
    Answer(String),
    Error(String),
}

/// The tag of an event, without its text.
#[derive(Clone, Copy, PartialEq, Eq, Structural, Debug)]
pub enum ProgressTag {
    Status,
    Schema,
    CypherQuery,
    CypherResult,
    ModelOutputChunk,
    Answer,
    Error,
}

/// Tag and text of one event.
pub open spec fn progress_view(p: Progress) -> (ProgressTag, Seq<char>) {
    match p {
        Progress::Status(t) => (ProgressTag::Status, t@),
        Progress::Schema(t) => (ProgressTag::Schema, t@),
        Progress::CypherQuery(t) => (ProgressTag::CypherQuery, t@),
        Progress::CypherResult(t) => (ProgressTag::CypherResult, t@),
        Progress::ModelOutputChunk(t) => (ProgressTag::ModelOutputChunk, t@),
        Progress::Answer(t) => (ProgressTag::Answer, t@),
        Progress::Error(t) => (ProgressTag::Error, t@),
    }
}

/// The tags of a list of events.
pub open spec fn tags_of(evs: Seq<Progress>) -> Seq<ProgressTag> {
    evs.map_values(|p: Progress| progress_view(p).0)
}

/// A terminal tag ends the stream.
pub open spec fn is_terminal(t: ProgressTag) -> bool {
    t == ProgressTag::Answer || t == ProgressTag::Error
}

/// The stage-order automaton.  A trace position names the next stage
/// zone still open, in the order: leading statuses, schema, query,
/// one pre-result status, result, one pre-answer status, answer
/// chunks, terminal.  `-1` marks a violated order.
pub open spec fn tag_step(pos: int, t: ProgressTag) -> int {
    match t {
        ProgressTag::Status => if pos <= 0 {
            0
        } else if pos <= 3 {
            4
        } else if pos <= 5 {
            6
        } else {
            -1
        },
        ProgressTag::Schema => if pos <= 1 {
            2
        } else {
            -1
        },
        ProgressTag::CypherQuery => if pos <= 2 {
            3
        } else {
            -1
        },
        ProgressTag::CypherResult => if pos <= 4 {
            5
        } else {
            -1
        },
        ProgressTag::ModelOutputChunk => if pos <= 6 {
            6
        } else {
            -1
        },
        ProgressTag::Answer => if pos <= 7 {
            8
        } else {
            -1
        },
        ProgressTag::Error => if pos <= 7 {
            8
        } else {
            -1
        },
    }
}

/// Position of the automaton after reading `ts`, or `-1` once the
/// order has been violated.
pub open spec fn trace_pos(ts: Seq<ProgressTag>) -> int
    decreases ts.len(),
{
    if ts.len() == 0 {
        0
    } else {
        let p = trace_pos(ts.drop_last());
        if p < 0 {
            -1
        } else {
            tag_step(p, ts.last())
        }
    }
}

/// The stream read so far respects the stage order.
pub open spec fn trace_ok(ts: Seq<ProgressTag>) -> bool {
    trace_pos(ts) >= 0
}

/// A valid trace stays valid on every prefix.
pub proof fn lemma_trace_prefix(ts: Seq<ProgressTag>, i: int)
    requires
        trace_ok(ts),
        0 <= i <= ts.len(),
    ensures
        trace_ok(ts.take(i)),
    decreases ts.len() - i,
{
    if i == ts.len() {
        assert(ts.take(i) =~= ts);
    } else {
        lemma_trace_prefix(ts, i + 1);
        assert(ts.take(i + 1).drop_last() =~= ts.take(i));
        assert(trace_pos(ts.take(i + 1)) >= 0);
    }
}

/// After a terminal tag the automaton accepts nothing more.
proof fn lemma_trace_pos_after_terminal(ts: Seq<ProgressTag>, i: int)
    requires
        0 <= i < ts.len(),
        is_terminal(ts[i]),
        trace_pos(ts.take(i + 1)) >= 0,
    ensures
        trace_pos(ts.take(i + 1)) == 8,
{
    assert(ts.take(i + 1).last() == ts[i]);
    assert(ts.take(i + 1).drop_last() =~= ts.take(i));
}

/// In a valid trace every terminal tag stands last: whatever happens,
/// a stream carries at most one `Answer` or `Error`, and nothing
/// follows it.
pub proof fn lemma_single_terminal(ts: Seq<ProgressTag>, i: int)
    requires
        trace_ok(ts),
        0 <= i < ts.len(),
        is_terminal(ts[i]),
    ensures
        i == ts.len() - 1,
{
    if i < ts.len() - 1 {
        lemma_trace_prefix(ts, i + 2);
        lemma_trace_prefix(ts, i + 1);
        lemma_trace_pos_after_terminal(ts, i);
        assert(ts.take(i + 2).drop_last() =~= ts.take(i + 1));
        assert(trace_pos(ts.take(i + 2)) == tag_step(8, ts[i + 1]));
        assert(tag_step(8, ts[i + 1]) == -1);
    }
}

impl Progress {
    /// The wire form of one event: a server-sent-events data line
    /// holding the event as a one-member JSON object.
    pub open spec fn sse_spec(self) -> Seq<char> {
        let (tag, text) = progress_view(self);
        "data: {\""@ + (match tag {
            ProgressTag::Status => "Status"@,
            ProgressTag::Schema => "Schema"@,
            ProgressTag::CypherQuery => "CypherQuery"@,
            ProgressTag::CypherResult => "CypherResult"@,
            ProgressTag::ModelOutputChunk => "ModelOutputChunk"@,
            ProgressTag::Answer => "Result"@,
            ProgressTag::Error => "Error"@,
        }) + "\":"@ + json_string(text) + "}\n\n"@
    }

    /// Formats the event as a server-sent-events message.  The
    /// successful terminal keeps its classical wire name `Result`.
    pub fn to_sse(&self) -> (r: String)
        ensures
            r@ == self.sse_spec(),
    {
        let mut out = String::from_str("data: {\"");
        match self {
            Progress::Status(_) => out.append("Status"),
            Progress::Schema(_) => out.append("Schema"),
            Progress::CypherQuery(_) => out.append("CypherQuery"),
            Progress::CypherResult(_) => out.append("CypherResult"),
            Progress::ModelOutputChunk(_) => out.append("ModelOutputChunk"),
            Progress::Answer(_) => out.append("Result"),
            Progress::Error(_) => out.append("Error"),
        }
        out.append("\":");
        match self {
            Progress::Status(t) => append_json_string(&mut out, t.as_str()),
            Progress::Schema(t) => append_json_string(&mut out, t.as_str()),
            Progress::CypherQuery(t) => append_json_string(&mut out, t.as_str()),
            Progress::CypherResult(t) => append_json_string(&mut out, t.as_str()),
            Progress::ModelOutputChunk(t) => append_json_string(&mut out, t.as_str()),
            Progress::Answer(t) => append_json_string(&mut out, t.as_str()),
            Progress::Error(t) => append_json_string(&mut out, t.as_str()),
        }
        out.append("}\n\n");
        proof {
            assert(out@ =~= self.sse_spec());
        }
        out
    }
}

} // verus!
