//! Static validation of generated graph queries: structural sanity
//! checks, a conservative block on destructive statements, and
//! parenthesis/bracket balancing.  Pure text analysis; nothing here
//! executes a query.

use vstd::prelude::*;
use crate::text::{
    balanced_spec, check_balanced, contains_seq, contains_str, is_match_at, is_space, is_space_char,
    lower_seq, starts_with, starts_with_seq, to_lower, to_upper, trim, trim_spec, upper_seq,
};

verus! {

/// Outcome of validating one query: `is_valid` holds exactly when no
/// error was found; warnings never block execution.
pub struct ValidationResult {
    pub is_valid: bool,
    pub errors: Vec<String>,
    pub warnings: Vec<String>,
}

pub struct CypherValidator;

/// `kw` occurs in `u` followed by at least one white-space character.
/// `u` is expected to be an uppercased query text.
pub open spec fn keyword_then_space(u: Seq<char>, kw: Seq<char>) -> bool {
    exists|i: int|
        is_match_at(u, kw, i) && i + kw.len() < u.len() && is_space_char(u[i + kw.len()])
}

/// The query contains at least one structural query-language keyword,
/// compared without regard to ASCII case.
pub open spec fn has_query_keyword(t: Seq<char>) -> bool {
    let u = upper_seq(t);
    contains_seq(u, "MATCH"@) || contains_seq(u, "CREATE"@) || contains_seq(u, "MERGE"@)
        || contains_seq(u, "DELETE"@) || contains_seq(u, "SET"@) || contains_seq(u, "REMOVE"@)
        || contains_seq(u, "RETURN"@) || contains_seq(u, "WITH"@) || contains_seq(u, "UNWIND"@)
        || contains_seq(u, "CALL"@)
}

/// The query contains a destructive operation: `DROP` or `DELETE`
/// followed by white space, compared without regard to ASCII case.
pub open spec fn has_dangerous_operation(t: Seq<char>) -> bool {
    keyword_then_space(upper_seq(t), "DROP"@) || keyword_then_space(upper_seq(t), "DELETE"@)
}

/// The query contains a `MATCH` clause (`MATCH` then white space).
pub open spec fn has_match_clause(t: Seq<char>) -> bool {
    keyword_then_space(upper_seq(t), "MATCH"@)
}

/// The query contains a `RETURN` clause (`RETURN` then white space).
pub open spec fn has_return_clause(t: Seq<char>) -> bool {
    keyword_then_space(upper_seq(t), "RETURN"@)
}

/// The query starts with a keyword that legitimately omits `MATCH`.
pub open spec fn starts_without_match(t: Seq<char>) -> bool {
    let u = upper_seq(t);
    starts_with_seq(u, "CREATE"@) || starts_with_seq(u, "MERGE"@) || starts_with_seq(u, "CALL"@)
        || starts_with_seq(u, "UNWIND"@)
}

/// The exact error texts reported for a query, in report order.
/// An empty query short-circuits every other check.
pub open spec fn validate_errors(q: Seq<char>) -> Seq<Seq<char>> {
    let t = trim_spec(q);
    if t.len() == 0 {
        seq!["Query is empty"@]
    } else {
        (if !has_query_keyword(t) {
            seq!["Query does not contain valid Cypher keywords"@]
        } else {
            Seq::<Seq<char>>::empty()
        }) + (if has_dangerous_operation(t) {
            seq!["Query contains potentially dangerous operations (DROP, DELETE ALL)"@]
        } else {
            Seq::<Seq<char>>::empty()
        }) + (if !balanced_spec(t, '(', ')') {
            seq!["Unbalanced parentheses in query"@]
        } else {
            Seq::<Seq<char>>::empty()
        }) + (if !balanced_spec(t, '[', ']') {
            seq!["Unbalanced brackets in query"@]
        } else {
            Seq::<Seq<char>>::empty()
        })
    }
}

/// The exact warning texts reported for a query, in report order.
pub open spec fn validate_warnings(q: Seq<char>) -> Seq<Seq<char>> {
    let t = trim_spec(q);
    if t.len() == 0 {
        Seq::<Seq<char>>::empty()
    } else {
        (if !has_match_clause(t) && !starts_without_match(t) {
            seq!["Query does not contain a MATCH clause"@]
        } else {
            Seq::<Seq<char>>::empty()
        }) + (if !has_return_clause(t) {
            seq!["Query does not contain a RETURN clause"@]
        } else {
            Seq::<Seq<char>>::empty()
        })
    }
}

/// A valid query is one without errors.
pub open spec fn validate_is_valid(q: Seq<char>) -> bool {
    validate_errors(q).len() == 0
}

fn keyword_then_space_exec(u: &str, kw: &str) -> (r: bool)
    requires
        kw@.len() > 0,
    ensures
        r == keyword_then_space(u@, kw@),
{
    let n = u.unicode_len();
    let m = kw.unicode_len();
    if m >= n {
        proof {
            assert forall|i: int| !(is_match_at(u@, kw@, i) && i + m < n) by {}
        }
        return false;
    }
    let last = n - m - 1;
    let mut i: usize = 0;
    while i <= last
        invariant
            n == u@.len(),
            m == kw@.len(),
            1 <= m < n,
            last == n - m - 1,
            i <= last + 1,
            forall|k: int|
                0 <= k < i ==> !(is_match_at(u@, kw@, k) && k + m < n && is_space_char(u@[k + m])),
        decreases last + 1 - i,
    {
        if crate::text::match_at(u, kw, i) && is_space(u.get_char(i + m)) {
            return true;
        }
        i = i + 1;
    }
    proof {
        assert forall|k: int|
            !(is_match_at(u@, kw@, k) && k + m < n && is_space_char(u@[k + m])) by {
            if 0 <= k && k + m < n {
                assert(k <= last);
            }
        }
    }
    false
}

impl CypherValidator {
    /// Checks parenthesis balance: the running count never goes
    /// negative and ends at zero.
    pub fn check_balanced_parentheses(query: &str) -> (r: bool)
        ensures
            r == balanced_spec(query@, '(', ')'),
    {
        check_balanced(query, '(', ')')
    }

    /// Checks square-bracket balance: the running count never goes
    /// negative and ends at zero.
    pub fn check_balanced_brackets(query: &str) -> (r: bool)
        ensures
            r == balanced_spec(query@, '[', ']'),
    {
        check_balanced(query, '[', ']')
    }

    /// Validates a query for structural sanity and safety.  The result
    /// is a pure function of the query text: the errors, the warnings
    /// and the verdict are exactly those given by `validate_errors` and
    /// `validate_warnings`.
    pub fn validate(query: &str) -> (r: ValidationResult)
        ensures
            crate::text::strs_view(r.errors@) == validate_errors(query@),
            crate::text::strs_view(r.warnings@) == validate_warnings(query@),
            r.is_valid == validate_is_valid(query@),
    {
        let mut errors: Vec<String> = Vec::new();
        let mut warnings: Vec<String> = Vec::new();
        let t = trim(query);
        let ts = t.as_str();

        if ts.unicode_len() == 0 {
            errors.push(String::from_str("Query is empty"));
            proof {
                assert(crate::text::strs_view(errors@) =~= validate_errors(query@));
                assert(crate::text::strs_view(warnings@) =~= validate_warnings(query@));
            }
            return ValidationResult { is_valid: false, errors, warnings };
        }

        let upper = to_upper(ts);
        let us = upper.as_str();

        let has_keyword = contains_str(us, "MATCH") || contains_str(us, "CREATE") || contains_str(
            us,
            "MERGE",
        ) || contains_str(us, "DELETE") || contains_str(us, "SET") || contains_str(us, "REMOVE")
            || contains_str(us, "RETURN") || contains_str(us, "WITH") || contains_str(us, "UNWIND")
            || contains_str(us, "CALL");
        if !has_keyword {
            errors.push(String::from_str("Query does not contain valid Cypher keywords"));
        }

        proof {
            reveal_strlit("DROP");
            reveal_strlit("DELETE");
            reveal_strlit("MATCH");
            reveal_strlit("RETURN");
        }
        let dangerous = keyword_then_space_exec(us, "DROP") || keyword_then_space_exec(
            us,
            "DELETE",
        );
        if dangerous {
            errors.push(
                String::from_str("Query contains potentially dangerous operations (DROP, DELETE ALL)"),
            );
        }

        let match_clause = keyword_then_space_exec(us, "MATCH");
        let starts_other = starts_with(us, "CREATE") || starts_with(us, "MERGE") || starts_with(
            us,
            "CALL",
        ) || starts_with(us, "UNWIND");
        if !match_clause && !starts_other {
            warnings.push(String::from_str("Query does not contain a MATCH clause"));
        }

        if !keyword_then_space_exec(us, "RETURN") {
            warnings.push(String::from_str("Query does not contain a RETURN clause"));
        }

        if !Self::check_balanced_parentheses(ts) {
            errors.push(String::from_str("Unbalanced parentheses in query"));
        }

        if !Self::check_balanced_brackets(ts) {
            errors.push(String::from_str("Unbalanced brackets in query"));
        }

        let is_valid = errors.len() == 0;
        proof {
            assert(crate::text::strs_view(errors@) =~= validate_errors(query@));
            assert(crate::text::strs_view(warnings@) =~= validate_warnings(query@));
        }
        ValidationResult { is_valid, errors, warnings }
    }
}

/// A character that may start an identifier.
pub open spec fn ident_start(c: char) -> bool {
    ('a' <= c && c <= 'z') || ('A' <= c && c <= 'Z') || c == '_'
}

/// A character that may continue an identifier.
pub open spec fn ident_char(c: char) -> bool {
    ident_start(c) || ('0' <= c && c <= '9')
}

/// A `MATCH (…) binding.property =` shape starting at `i`, with the
/// condition (the property comparison) starting at `p`: the keyword,
/// white space, a parenthesized pattern, white space, an identifier,
/// a dot, an identifier, optional white space, and an equals sign.
pub open spec fn where_match(q: Seq<char>, i: int, p: int) -> bool {
    exists|a: int, b: int, d: int, e: int, f: int|
        #[trigger] where_match_body(q, i, p, a, b, d, e, f)
}

/// There is no condition shape starting at `i`.
pub open spec fn no_where_match_at(q: Seq<char>, i: int) -> bool {
    forall|p: int| !where_match(q, i, p)
}

/// The query with `\nWHERE ` spliced in before position `p`.
pub open spec fn spliced_where(q: Seq<char>, p: int) -> Seq<char> {
    q.take(p) + "\nWHERE "@ + q.skip(p)
}

fn is_ident_start(c: char) -> (r: bool)
    ensures
        r == ident_start(c),
{
    ('a' <= c && c <= 'z') || ('A' <= c && c <= 'Z') || c == '_'
}

fn is_ident_char(c: char) -> (r: bool)
    ensures
        r == ident_char(c),
{
    is_ident_start(c) || ('0' <= c && c <= '9')
}

/// First index at or after `from` whose character fails `space`, or
/// the length.
fn scan_spaces(q: &str, from: usize) -> (r: usize)
    requires
        from <= q@.len(),
    ensures
        from <= r <= q@.len(),
        forall|t: int| from <= t < r ==> is_space_char(#[trigger] q@[t]),
        r < q@.len() ==> !is_space_char(q@[r as int]),
{
    let n = q.unicode_len();
    let mut i: usize = from;
    while i < n && is_space(q.get_char(i))
        invariant
            n == q@.len(),
            from <= i <= n,
            forall|t: int| from <= t < i ==> is_space_char(#[trigger] q@[t]),
        decreases n - i,
    {
        i = i + 1;
    }
    i
}

/// First index after `from` whose character continues no identifier,
/// or the length.
fn scan_ident(q: &str, from: usize) -> (r: usize)
    requires
        from < q@.len(),
    ensures
        from < r <= q@.len(),
        forall|t: int| from < t < r ==> ident_char(#[trigger] q@[t]),
        r < q@.len() ==> !ident_char(q@[r as int]),
{
    let n = q.unicode_len();
    let mut i: usize = from + 1;
    while i < n && is_ident_char(q.get_char(i))
        invariant
            n == q@.len(),
            from < i <= n,
            forall|t: int| from < t < i ==> ident_char(#[trigger] q@[t]),
        decreases n - i,
    {
        i = i + 1;
    }
    i
}

/// First index after `from` holding a closing parenthesis, or the
/// length.
fn scan_to_close(q: &str, from: usize) -> (r: usize)
    requires
        from < q@.len(),
    ensures
        from < r <= q@.len(),
        forall|t: int| from < t < r ==> #[trigger] q@[t] != ')',
        r < q@.len() ==> q@[r as int] == ')',
{
    let n = q.unicode_len();
    let mut i: usize = from + 1;
    while i < n && q.get_char(i) != ')'
        invariant
            n == q@.len(),
            from < i <= n,
            forall|t: int| from < t < i ==> #[trigger] q@[t] != ')',
        decreases n - i,
    {
        i = i + 1;
    }
    i
}

/// Tries the condition shape at one start position; `u` is the
/// uppercased query text.
fn where_parse_at(q: &str, u: &str, i: usize) -> (r: Option<usize>)
    requires
        u@ == upper_seq(q@),
        i + 5 <= q@.len(),
    ensures
        match r {
            Option::Some(p) => where_match(q@, i as int, p as int),
            Option::None => no_where_match_at(q@, i as int),
        },
{
    proof {
        reveal_strlit("MATCH");
    }
    let n = q.unicode_len();
    if !crate::text::match_at(u, "MATCH", i) {
        proof {
            assert forall|p: int| !where_match(q@, i as int, p) by {}
        }
        return Option::None;
    }
    let a = scan_spaces(q, i + 5);
    if a == i + 5 || a >= n || q.get_char(a) != '(' {
        proof {
            assert forall|p: int| !where_match(q@, i as int, p) by {
                if where_match(q@, i as int, p) {
                    let (a2, b2, d2, e2, f2) = choose|a2: int, b2: int, d2: int, e2: int, f2: int|
                        where_match_body(q@, i as int, p, a2, b2, d2, e2, f2);
                    assert(a2 == a) by {
                        if a2 < a {
                            assert(is_space_char(q@[a2]));
                        } else if a2 > a {
                            assert(is_space_char(q@[a as int]));
                        }
                    }
                }
            }
        }
        return Option::None;
    }
    let b = scan_to_close(q, a);
    if b >= n || b == a + 1 {
        proof {
            assert forall|p: int| !where_match(q@, i as int, p) by {
                if where_match(q@, i as int, p) {
                    let (a2, b2, d2, e2, f2) = choose|a2: int, b2: int, d2: int, e2: int, f2: int|
                        where_match_body(q@, i as int, p, a2, b2, d2, e2, f2);
                    assert(a2 == a);
                    assert(b2 == b) by {
                        if b2 < b {
                            assert(q@[b2] != ')');
                        } else if b2 > b {
                            assert(q@[b as int] != ')');
                        }
                    }
                }
            }
        }
        return Option::None;
    }
    let p = scan_spaces(q, b + 1);
    if p == b + 1 || p >= n || !is_ident_start(q.get_char(p)) {
        proof {
            assert forall|pp: int| !where_match(q@, i as int, pp) by {
                if where_match(q@, i as int, pp) {
                    let (a2, b2, d2, e2, f2) = choose|a2: int, b2: int, d2: int, e2: int, f2: int|
                        where_match_body(q@, i as int, pp, a2, b2, d2, e2, f2);
                    assert(a2 == a);
                    assert(b2 == b);
                    assert(pp == p) by {
                        if pp < p {
                            assert(is_space_char(q@[pp]));
                            assert(!ident_start(q@[pp]));
                        } else if pp > p {
                            assert(is_space_char(q@[p as int]));
                        }
                    }
                }
            }
        }
        return Option::None;
    }
    let d = scan_ident(q, p);
    if d >= n || q.get_char(d) != '.' {
        proof {
            assert forall|pp: int| !where_match(q@, i as int, pp) by {
                if where_match(q@, i as int, pp) {
                    let (a2, b2, d2, e2, f2) = choose|a2: int, b2: int, d2: int, e2: int, f2: int|
                        where_match_body(q@, i as int, pp, a2, b2, d2, e2, f2);
                    assert(a2 == a);
                    assert(b2 == b);
                    assert(pp == p);
                    assert(d2 == d) by {
                        if d2 < d {
                            assert(ident_char(q@[d2]));
                        } else if d2 > d {
                            assert(ident_char(q@[d as int]));
                        }
                    }
                }
            }
        }
        return Option::None;
    }
    if d + 1 >= n || !is_ident_start(q.get_char(d + 1)) {
        proof {
            assert forall|pp: int| !where_match(q@, i as int, pp) by {
                if where_match(q@, i as int, pp) {
                    let (a2, b2, d2, e2, f2) = choose|a2: int, b2: int, d2: int, e2: int, f2: int|
                        where_match_body(q@, i as int, pp, a2, b2, d2, e2, f2);
                    assert(a2 == a);
                    assert(b2 == b);
                    assert(pp == p);
                    assert(d2 == d);
                }
            }
        }
        return Option::None;
    }
    let e = scan_ident(q, d + 1);
    let f = scan_spaces(q, e);
    if f >= n || q.get_char(f) != '=' {
        proof {
            assert forall|pp: int| !where_match(q@, i as int, pp) by {
                if where_match(q@, i as int, pp) {
                    let (a2, b2, d2, e2, f2) = choose|a2: int, b2: int, d2: int, e2: int, f2: int|
                        where_match_body(q@, i as int, pp, a2, b2, d2, e2, f2);
                    assert(a2 == a);
                    assert(b2 == b);
                    assert(pp == p);
                    assert(d2 == d);
                    assert(f2 == f) by {
                        if f2 < e {
                            assert(ident_char(q@[f2]) || f2 == d + 1);
                        } else if f2 < f {
                            assert(is_space_char(q@[f2]));
                        } else if f2 > f {
                            assert(is_space_char(q@[f as int]));
                        }
                    }
                }
            }
        }
        return Option::None;
    }
    proof {
        assert(where_match_body(
            q@,
            i as int,
            p as int,
            a as int,
            b as int,
            d as int,
            e as int,
            f as int,
        ));
        assert(where_match(q@, i as int, p as int));
    }
    Option::Some(p)
}

/// The body of `where_match`, with the intermediate positions named.
pub open spec fn where_match_body(
    q: Seq<char>,
    i: int,
    p: int,
    a: int,
    b: int,
    d: int,
    e: int,
    f: int,
) -> bool {
    &&& is_match_at(upper_seq(q), "MATCH"@, i)
    &&& i + 5 < a < q.len()
    &&& (forall|t: int| i + 5 <= t < a ==> is_space_char(#[trigger] q[t]))
    &&& q[a] == '('
    &&& a + 1 < b < q.len()
    &&& (forall|t: int| a < t < b ==> #[trigger] q[t] != ')')
    &&& q[b] == ')'
    &&& b + 1 < p < q.len()
    &&& (forall|t: int| b + 1 <= t < p ==> is_space_char(#[trigger] q[t]))
    &&& ident_start(q[p])
    &&& p < d < q.len()
    &&& (forall|t: int| p < t < d ==> ident_char(#[trigger] q[t]))
    &&& q[d] == '.'
    &&& d + 1 < q.len()
    &&& ident_start(q[d + 1])
    &&& d + 1 < e <= q.len()
    &&& (forall|t: int| d + 1 < t < e ==> ident_char(#[trigger] q[t]))
    &&& e <= f < q.len()
    &&& (forall|t: int| e <= t < f ==> is_space_char(#[trigger] q[t]))
    &&& q[f] == '='
}

impl CypherValidator {
    /// Splices a missing `WHERE` keyword into a query of the shape
    /// `MATCH (…) binding.property = …`, at the leftmost such shape.
    pub fn try_add_where_clause(query: &str) -> (r: Option<String>)
        ensures
            match r {
                Option::Some(s) => exists|i: int, p: int|
                    {
                        &&& #[trigger] where_match(query@, i, p)
                        &&& s@ == spliced_where(query@, p)
                        &&& forall|i2: int| 0 <= i2 < i ==> no_where_match_at(query@, i2)
                    },
                Option::None => forall|i: int| no_where_match_at(query@, i),
            },
    {
        let n = query.unicode_len();
        let upper = to_upper(query);
        if n < 5 {
            proof {
                assert forall|i: int| no_where_match_at(query@, i) by {
                    assert forall|p: int| !where_match(query@, i, p) by {}
                }
            }
            return Option::None;
        }
        let mut i: usize = 0;
        while i <= n - 5
            invariant
                n == query@.len(),
                n >= 5,
                upper@ == upper_seq(query@),
                i <= n - 5 + 1,
                forall|i2: int| 0 <= i2 < i ==> no_where_match_at(query@, i2),
            decreases n - i,
        {
            match where_parse_at(query, upper.as_str(), i) {
                Option::Some(p) => {
                    let ghost iw = i as int;
                    let mut s = String::from_str(query.substring_char(0, p));
                    s.append("\nWHERE ");
                    s.append(query.substring_char(p, n));
                    proof {
                        reveal_strlit("\nWHERE ");
                        assert(query@.subrange(0, p as int) =~= query@.take(p as int));
                        assert(query@.subrange(p as int, n as int) =~= query@.skip(p as int));
                        assert(s@ =~= spliced_where(query@, p as int));
                    }
                    return Option::Some(s);
                },
                Option::None => {},
            }
            i = i + 1;
        }
        proof {
            assert forall|i2: int| no_where_match_at(query@, i2) by {
                if 0 <= i2 <= n - 5 {
                } else {
                    assert forall|p: int| !where_match(query@, i2, p) by {
                        assert(upper_seq(query@).len() == n);
                    }
                }
            }
        }
        Option::None
    }

    /// Suggests a corrected query for a reported execution error: for
    /// a syntax complaint it appends a missing `RETURN` clause, or
    /// splices a missing `WHERE` keyword; otherwise it suggests
    /// nothing.  The inspected error text is matched without regard
    /// to ASCII case.
    pub fn suggest_fix(query: &str, error: &str) -> (r: Option<String>)
        ensures
            ({
                let q = trim_spec(query@);
                let el = lower_seq(error@);
                let syntaxish = contains_seq(el, "syntax error"@) || contains_seq(
                    el,
                    "invalid syntax"@,
                );
                match r {
                    Option::Some(s) => {
                        ||| (syntaxish && !contains_seq(upper_seq(q), "RETURN"@) && s@ == q
                            + "\nRETURN *"@)
                        ||| (syntaxish && contains_seq(upper_seq(q), "RETURN"@) && contains_seq(
                            q,
                            seq!['='],
                        ) && !contains_seq(upper_seq(q), "WHERE"@) && contains_seq(
                            upper_seq(q),
                            "MATCH"@,
                        ) && exists|i: int, p: int|
                            {
                                &&& #[trigger] where_match(q, i, p)
                                &&& s@ == spliced_where(q, p)
                                &&& forall|i2: int| 0 <= i2 < i ==> no_where_match_at(q, i2)
                            })
                    },
                    Option::None => {
                        &&& !(syntaxish && !contains_seq(upper_seq(q), "RETURN"@))
                        &&& ((syntaxish && contains_seq(q, seq!['=']) && !contains_seq(
                            upper_seq(q),
                            "WHERE"@,
                        ) && contains_seq(upper_seq(q), "MATCH"@)) ==> forall|i: int|
                            no_where_match_at(q, i))
                    },
                }
            }),
    {
        let q = trim(query);
        let qs = q.as_str();
        let el = to_lower(error);
        let els = el.as_str();
        let syntaxish = contains_str(els, "syntax error") || contains_str(els, "invalid syntax");
        let qu = to_upper(qs);
        let qus = qu.as_str();
        proof {
            reveal_strlit("=");
            assert("="@ =~= seq!['=']);
        }
        if syntaxish && !contains_str(qus, "RETURN") {
            let mut s = String::from_str(qs);
            s.append("\nRETURN *");
            proof {
                reveal_strlit("\nRETURN *");
                assert(s@ =~= trim_spec(query@) + "\nRETURN *"@);
            }
            return Option::Some(s);
        }
        if syntaxish && contains_str(qs, "=") && !contains_str(qus, "WHERE") && contains_str(
            qus,
            "MATCH",
        ) {
            return Self::try_add_where_clause(qs);
        }
        Option::None
    }
}

/// Validation is deterministic: the verdict, the errors and the
/// warnings depend on the query text alone, so two validations of equal
/// texts agree in every component.
pub proof fn lemma_validate_deterministic(q1: Seq<char>, q2: Seq<char>)
    requires
        q1 == q2,
    ensures
        validate_errors(q1) == validate_errors(q2),
        validate_warnings(q1) == validate_warnings(q2),
        validate_is_valid(q1) == validate_is_valid(q2),
{
}

} // verus!
