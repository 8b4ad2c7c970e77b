//! Size-bounding a formatted query result before it is embedded in
//! the answer prompt: bracketed value lists that follow a property
//! colon are truncated to a bounded number of characters, everything
//! else passes through unchanged.  String regions are respected: a
//! bracket inside a quoted string never starts a segment.
//!
//! The scanning rule is deliberately the only one.  An alternative
//! design parses a JSON-shaped result into a value tree, truncates
//! every over-long string in it, and re-serializes; re-serialization
//! re-prints every number from its parsed floating-point value, and
//! this library holds no floating point, so that variant's behaviour
//! cannot be stated or reproduced here.  A caller that needs
//! JSON-tree truncation must bound the text before handing it in.

use vstd::prelude::*;
use crate::text::{depth_count, push_char};

verus! {

/// How many characters of a bracketed property value survive.
pub const QUERY_RESULT_MAX_PROPERTY_LENGTH: usize = 100;

/// How far back a property colon is looked for.
pub const COLON_WINDOW: usize = 256;

/// Whether the scanner is inside a quoted string after reading `ch`.
pub open spec fn next_in_string(ch: char, in_string: bool, escape: bool) -> bool {
    if ch == '"' && !escape {
        !in_string
    } else {
        in_string
    }
}

/// Whether the character after `ch` is escaped.
pub open spec fn next_escape(ch: char, escape: bool) -> bool {
    ch == '\\' && !escape
}

/// Start of the look-behind window before `idx`.
pub open spec fn window_start(idx: int) -> int {
    if idx >= 256 {
        idx - 256
    } else {
        0
    }
}

/// A property colon stands in the window before `idx`: the last colon
/// of the window, with no line break between it and `idx`.
pub open spec fn colon_ok(q: Seq<char>, idx: int) -> bool {
    exists|c: int|
        {
            &&& window_start(idx) <= c < idx < q.len()
            &&& #[trigger] q[c] == ':'
            &&& (forall|t: int| c < t < idx ==> #[trigger] q[t] != ':')
            &&& (forall|t: int| c <= t < idx ==> #[trigger] q[t] != '\n' && q[t] != '\r')
        }
}

/// `end` closes the bracket opened at `idx`: the first position where
/// the running bracket count returns to zero.
pub open spec fn bracket_end_at(q: Seq<char>, idx: int, end: int) -> bool {
    &&& 0 <= idx < end < q.len()
    &&& q[idx] == '['
    &&& depth_count(q.subrange(idx, end + 1), '[', ']') == 0
    &&& (forall|t: int|
        idx < t < end ==> depth_count(#[trigger] q.subrange(idx, t + 1), '[', ']') != 0)
}

/// The bracket opened at `idx` is closed somewhere.
pub open spec fn has_bracket_end(q: Seq<char>, idx: int) -> bool {
    exists|end: int| bracket_end_at(q, idx, end)
}

/// The emitted text for one bracket segment: over-long content keeps
/// its first `max` characters with a `...` marker.
pub open spec fn truncated_segment(q: Seq<char>, idx: int, end: int, max: int) -> Seq<char> {
    let inner = q.subrange(idx + 1, end);
    if inner.len() > max {
        seq!['['] + inner.take(max) + "..."@ + seq![']']
    } else {
        q.subrange(idx, end + 1)
    }
}

/// The sanitized text of `q` from `idx` on, with the string-scanner
/// state carried along.
pub open spec fn sanitize_from(
    q: Seq<char>,
    idx: int,
    in_string: bool,
    escape: bool,
    max: int,
) -> Seq<char>
    decreases q.len() - idx,
{
    if idx < 0 || idx >= q.len() {
        Seq::<char>::empty()
    } else {
        let ch = q[idx];
        if ch == '[' && !in_string && colon_ok(q, idx) && has_bracket_end(q, idx) {
            let end = choose|end: int| bracket_end_at(q, idx, end);
            truncated_segment(q, idx, end, max) + sanitize_from(q, end + 1, in_string, false, max)
        } else {
            seq![ch] + sanitize_from(
                q,
                idx + 1,
                next_in_string(ch, in_string, escape),
                next_escape(ch, escape),
                max,
            )
        }
    }
}

/// The whole text sanitized.
pub open spec fn sanitize_spec(q: Seq<char>, max: int) -> Seq<char> {
    sanitize_from(q, 0, false, false, max)
}

/// Two closings of the same bracket are the same position.
proof fn lemma_bracket_end_unique(q: Seq<char>, idx: int, e1: int, e2: int)
    requires
        bracket_end_at(q, idx, e1),
        bracket_end_at(q, idx, e2),
    ensures
        e1 == e2,
{
    if e1 < e2 {
        assert(depth_count(q.subrange(idx, e1 + 1), '[', ']') != 0);
    } else if e2 < e1 {
        assert(depth_count(q.subrange(idx, e2 + 1), '[', ']') != 0);
    }
}

/// Decides `colon_ok` at one position.
#[verifier::loop_isolation(false)]
fn find_colon_ok(q: &str, idx: usize) -> (r: bool)
    requires
        idx < q@.len(),
    ensures
        r == colon_ok(q@, idx as int),
{
    let ws: usize = if idx >= COLON_WINDOW {
        idx - COLON_WINDOW
    } else {
        0
    };
    let mut last: Option<usize> = Option::None;
    let mut t: usize = ws;
    while t < idx
        invariant
            ws == window_start(idx as int),
            ws <= t <= idx,
            idx < q@.len(),
            match last {
                Option::Some(c) => ws <= c < t && q@[c as int] == ':' && (forall|u: int|
                    c < u < t ==> #[trigger] q@[u] != ':'),
                Option::None => forall|u: int| ws <= u < t ==> #[trigger] q@[u] != ':',
            },
        decreases idx - t,
    {
        if q.get_char(t) == ':' {
            last = Option::Some(t);
        }
        t = t + 1;
    }
    match last {
        Option::Some(c) => {
            let mut u: usize = c;
            while u < idx
                invariant
                    c <= u <= idx,
                    idx < q@.len(),
                    forall|v: int| c <= v < u ==> #[trigger] q@[v] != '\n' && q@[v] != '\r',
                decreases idx - u,
            {
                let ch = q.get_char(u);
                if ch == '\n' || ch == '\r' {
                    proof {
                        assert forall|c2: int|
                            (window_start(idx as int) <= c2 < idx < q@.len() && q@[c2] == ':' && (
                            forall|t2: int|
                                c2 < t2 < idx ==> #[trigger] q@[t2] != ':')) implies !(forall|
                            t2: int,
                        |
                            c2 <= t2 < idx ==> #[trigger] q@[t2] != '\n' && q@[t2] != '\r') by {
                            assert(c2 == c) by {
                                if c2 < c {
                                    assert(q@[c as int] == ':');
                                } else if c2 > c {
                                    assert(q@[c2] != ':');
                                }
                            }
                            assert(q@[u as int] == '\n' || q@[u as int] == '\r');
                        }
                        assert(!colon_ok(q@, idx as int));
                    }
                    return false;
                }
                u = u + 1;
            }
            proof {
                assert(colon_ok(q@, idx as int)) by {
                    assert({
                        &&& window_start(idx as int) <= c < idx < q@.len()
                        &&& q@[c as int] == ':'
                        &&& (forall|t2: int| c < t2 < idx ==> #[trigger] q@[t2] != ':')
                        &&& (forall|t2: int|
                            c <= t2 < idx ==> #[trigger] q@[t2] != '\n' && q@[t2] != '\r')
                    });
                }
            }
            true
        },
        Option::None => {
            proof {
                assert forall|c2: int|
                    !(window_start(idx as int) <= c2 < idx < q@.len() && #[trigger] q@[c2]
                        == ':') by {}
            }
            false
        },
    }
}

/// Finds the closing of the bracket at `idx`, when there is one.
fn find_bracket_end(q: &str, idx: usize) -> (r: Option<usize>)
    requires
        idx < q@.len(),
        q@[idx as int] == '[',
    ensures
        match r {
            Option::Some(end) => bracket_end_at(q@, idx as int, end as int),
            Option::None => !has_bracket_end(q@, idx as int),
        },
{
    let n = q.unicode_len();
    let mut count: usize = 0;
    let mut t = idx;
    proof {
        assert(q@.subrange(idx as int, idx as int) =~= Seq::<char>::empty());
    }
    while t < n
        invariant
            n == q@.len(),
            idx <= t <= n,
            q@[idx as int] == '[',
            count == depth_count(q@.subrange(idx as int, t as int), '[', ']'),
            count <= t - idx,
            t > idx ==> count >= 1,
            forall|u: int|
                idx < u < t ==> depth_count(#[trigger] q@.subrange(idx as int, u + 1), '[', ']')
                    != 0,
        decreases n - t,
    {
        let ch = q.get_char(t);
        proof {
            assert(q@.subrange(idx as int, t + 1).drop_last() =~= q@.subrange(
                idx as int,
                t as int,
            ));
            assert(q@.subrange(idx as int, t + 1).last() == q@[t as int]);
        }
        if ch == '[' {
            count = count + 1;
        } else if ch == ']' {
            count = count - 1;
            if count == 0 {
                proof {
                    assert(t > idx);
                    assert(bracket_end_at(q@, idx as int, t as int));
                }
                return Option::Some(t);
            }
        }
        t = t + 1;
    }
    proof {
        assert forall|end: int| !bracket_end_at(q@, idx as int, end) by {
            if idx < end < n {
                assert(depth_count(q@.subrange(idx as int, end + 1), '[', ']') != 0);
            }
        }
    }
    Option::None
}

/// Sanitizes a formatted result: every bracketed list that follows a
/// property colon within the look-behind window, outside any quoted
/// string, is truncated to at most `max_len` characters; the rest of
/// the text is copied unchanged.
#[verifier::loop_isolation(false)]
#[verifier::rlimit(100)]
pub fn sanitize_query_result(query_result: &str, max_len: usize) -> (r: String)
    ensures
        r@ == sanitize_spec(query_result@, max_len as int),
{
    let n = query_result.unicode_len();
    let mut out = String::new();
    let mut idx: usize = 0;
    let mut in_string = false;
    let mut escape = false;
    while idx < n
        invariant
            n == query_result@.len(),
            idx <= n,
            sanitize_spec(query_result@, max_len as int) == out@ + sanitize_from(
                query_result@,
                idx as int,
                in_string,
                escape,
                max_len as int,
            ),
        decreases n - idx,
    {
        let ch = query_result.get_char(idx);
        let mut segment_done = false;
        if ch == '[' && !in_string && find_colon_ok(query_result, idx) {
            match find_bracket_end(query_result, idx) {
                Option::Some(end) => {
                    let ghost spec_end = choose|e: int|
                        bracket_end_at(query_result@, idx as int, e);
                    proof {
                        lemma_bracket_end_unique(query_result@, idx as int, spec_end, end as int);
                    }
                    let inner_len = end - idx - 1;
                    if inner_len > max_len {
                        push_char(&mut out, '[');
                        let kept = query_result.substring_char(idx + 1, idx + 1 + max_len);
                        out.append(kept);
                        out.append("...");
                        push_char(&mut out, ']');
                        proof {
                            assert(query_result@.subrange(idx + 1, idx + 1 + max_len) =~= query_result@.subrange(
                                idx + 1,
                                end as int,
                            ).take(max_len as int));
                        }
                    } else {
                        let whole = query_result.substring_char(idx, end + 1);
                        out.append(whole);
                    }
                    escape = false;
                    idx = end + 1;
                    segment_done = true;
                },
                Option::None => {},
            }
        }
        if !segment_done {
            push_char(&mut out, ch);
            let new_escape = ch == '\\' && !escape;
            if ch == '"' && !escape {
                in_string = !in_string;
            }
            escape = new_escape;
            idx = idx + 1;
        }
    }
    proof {
        assert(out@ + Seq::<char>::empty() =~= out@);
    }
    out
}

/// Sanitizes with the standard property-length bound.
pub fn sanitize_result_text(query_result: &str) -> (r: String)
    ensures
        r@ == sanitize_spec(query_result@, QUERY_RESULT_MAX_PROPERTY_LENGTH as int),
{
    sanitize_query_result(query_result, QUERY_RESULT_MAX_PROPERTY_LENGTH)
}

} // verus!
