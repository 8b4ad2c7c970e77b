//! JSON rendering of query results: string escaping per the standard
//! rules and a fully typed array-of-arrays form with type-tagged
//! objects for nodes, edges and paths.

use vstd::prelude::*;
use crate::formatter::{GraphEdge, GraphNode, GraphPath, GraphValue};
use crate::text::{int_rep, i64_to_string, push_char};

verus! {

/// Lowercase hexadecimal digit for a value below 16.
pub open spec fn hex_digit(d: int) -> char {
    if d < 10 {
        ((0x30 + d) as u8) as char
    } else {
        ((0x57 + d) as u8) as char
    }
}

/// JSON escape of one character: quote, backslash and the common
/// control characters get two-character escapes, other control
/// characters become `\u00XX`, everything else stands as it is.
pub open spec fn esc_char(c: char) -> Seq<char> {
    if c == '"' {
        seq!['\\', '"']
    } else if c == '\\' {
        seq!['\\', '\\']
    } else if c == '\n' {
        seq!['\\', 'n']
    } else if c == '\t' {
        seq!['\\', 't']
    } else if c == '\r' {
        seq!['\\', 'r']
    } else if (c as u32) < 0x20 {
        seq!['\\', 'u', '0', '0', hex_digit((c as u32) as int / 16), hex_digit((c as u32) as int % 16)]
    } else {
        seq![c]
    }
}

/// JSON escape of the first `i` characters of `s`.
pub open spec fn esc_prefix(s: Seq<char>, i: int) -> Seq<char>
    decreases i,
{
    if i <= 0 || i > s.len() {
        Seq::<char>::empty()
    } else {
        esc_prefix(s, i - 1) + esc_char(s[i - 1])
    }
}

/// A JSON string literal: quotes around the escaped text.
pub open spec fn json_string(s: Seq<char>) -> Seq<char> {
    seq!['"'] + esc_prefix(s, s.len() as int) + seq!['"']
}

fn hex_digit_exec(d: u32) -> (c: char)
    requires
        d < 16,
    ensures
        c == hex_digit(d as int),
{
    if d < 10 {
        ((0x30 + d as u8)) as char
    } else {
        ((0x57 + d as u8)) as char
    }
}

/// Appends the JSON string literal for `s` to `out`.
pub fn append_json_string(out: &mut String, s: &str)
    ensures
        final(out)@ == old(out)@ + json_string(s@),
{
    push_char(out, '"');
    let n = s.unicode_len();
    let mut i: usize = 0;
    while i < n
        invariant
            n == s@.len(),
            i <= n,
            out@ == old(out)@ + seq!['"'] + esc_prefix(s@, i as int),
        decreases n - i,
    {
        let c = s.get_char(i);
        if c == '"' {
            out.append("\\\"");
        } else if c == '\\' {
            out.append("\\\\");
        } else if c == '\n' {
            out.append("\\n");
        } else if c == '\t' {
            out.append("\\t");
        } else if c == '\r' {
            out.append("\\r");
        } else if (c as u32) < 0x20 {
            out.append("\\u00");
            push_char(out, hex_digit_exec((c as u32) / 16));
            push_char(out, hex_digit_exec((c as u32) % 16));
        } else {
            push_char(out, c);
        }
        proof {
            reveal_strlit("\\\"");
            reveal_strlit("\\\\");
            reveal_strlit("\\n");
            reveal_strlit("\\t");
            reveal_strlit("\\r");
            reveal_strlit("\\u00");
            assert(out@ =~= old(out)@ + seq!['"'] + esc_prefix(s@, i + 1));
        }
        i = i + 1;
    }
    push_char(out, '"');
    proof {
        assert(out@ =~= old(out)@ + json_string(s@));
    }
}

/// JSON text of one value.
pub open spec fn jv(v: GraphValue) -> Seq<char>
    decreases v, 0int,
{
    match v {
        GraphValue::Bool(b) => if b {
            "true"@
        } else {
            "false"@
        },
        GraphValue::Int(i) => int_rep(i as int),
        GraphValue::Float(t) => t@,
        GraphValue::Str(s) => json_string(s@),
        GraphValue::Node(n) => jv_node(n),
        GraphValue::Edge(e) => jv_edge(e),
        GraphValue::Path(p) => jv_path(p),
        GraphValue::Array(arr) => seq!['['] + jv_list_prefix(arr@, arr@.len() as int) + seq![']'],
    }
}

/// The first `i` values as JSON, joined by commas.
pub open spec fn jv_list_prefix(vs: Seq<GraphValue>, i: int) -> Seq<char>
    decreases vs, i,
{
    if i <= 0 || i > vs.len() {
        Seq::<char>::empty()
    } else if i == 1 {
        jv(vs[0])
    } else {
        jv_list_prefix(vs, i - 1) + seq![','] + jv(vs[i - 1])
    }
}

/// The first `i` properties as JSON object members, joined by commas.
pub open spec fn jv_props_prefix(ps: Seq<(String, GraphValue)>, i: int) -> Seq<char>
    decreases ps, i,
{
    if i <= 0 || i > ps.len() {
        Seq::<char>::empty()
    } else if i == 1 {
        json_string(ps[0].0@) + seq![':'] + jv(ps[0].1)
    } else {
        jv_props_prefix(ps, i - 1) + seq![','] + json_string(ps[i - 1].0@) + seq![':'] + jv(
            ps[i - 1].1,
        )
    }
}

/// The first `i` labels as JSON strings, joined by commas.
pub open spec fn jv_labels_prefix(ls: Seq<Seq<char>>, i: int) -> Seq<char>
    decreases i,
{
    if i <= 0 || i > ls.len() {
        Seq::<char>::empty()
    } else if i == 1 {
        json_string(ls[0])
    } else {
        jv_labels_prefix(ls, i - 1) + seq![','] + json_string(ls[i - 1])
    }
}

/// A node as a type-tagged JSON object.
pub open spec fn jv_node(n: GraphNode) -> Seq<char>
    decreases n, 1int,
{
    "{\"type\":\"node\",\"id\":"@ + int_rep(n.id as int) + ",\"labels\":["@ + jv_labels_prefix(
        n.labels@.map_values(|l: String| l@),
        n.labels@.len() as int,
    ) + "],\"properties\":{"@ + jv_props_prefix(n.properties@, n.properties@.len() as int) + "}}"@
}

/// An edge as a type-tagged JSON object.
pub open spec fn jv_edge(e: GraphEdge) -> Seq<char>
    decreases e, 1int,
{
    "{\"type\":\"edge\",\"id\":"@ + int_rep(e.id as int) + ",\"relationship\":"@ + json_string(
        e.relationship_type@,
    ) + ",\"source\":"@ + int_rep(e.source_id as int) + ",\"target\":"@ + int_rep(
        e.target_id as int,
    ) + ",\"properties\":{"@ + jv_props_prefix(e.properties@, e.properties@.len() as int) + "}}"@
}

/// The first `i` nodes of a path as JSON, joined by commas.
pub open spec fn jv_path_nodes_prefix(p: GraphPath, i: int) -> Seq<char>
    decreases p, i,
{
    if i <= 0 || i > p.nodes@.len() {
        Seq::<char>::empty()
    } else if i == 1 {
        jv_node(p.nodes@[0])
    } else {
        jv_path_nodes_prefix(p, i - 1) + seq![','] + jv_node(p.nodes@[i - 1])
    }
}

/// The first `i` edges of a path as JSON, joined by commas.
pub open spec fn jv_path_edges_prefix(p: GraphPath, i: int) -> Seq<char>
    decreases p, i,
{
    if i <= 0 || i > p.edges@.len() {
        Seq::<char>::empty()
    } else if i == 1 {
        jv_edge(p.edges@[0])
    } else {
        jv_path_edges_prefix(p, i - 1) + seq![','] + jv_edge(p.edges@[i - 1])
    }
}

/// A path as a type-tagged JSON object.
pub open spec fn jv_path(p: GraphPath) -> Seq<char>
    decreases p, p.nodes@.len() + p.edges@.len() + 1,
{
    "{\"type\":\"path\",\"nodes\":["@ + jv_path_nodes_prefix(p, p.nodes@.len() as int)
        + "],\"edges\":["@ + jv_path_edges_prefix(p, p.edges@.len() as int) + "]}"@
}

/// One record as a JSON array of values.
pub open spec fn jv_record(rec: Seq<GraphValue>) -> Seq<char> {
    seq!['['] + jv_list_prefix(rec, rec.len() as int) + seq![']']
}

/// The first `i` records as JSON arrays, joined by commas.
pub open spec fn jv_records_prefix(records: Seq<Seq<GraphValue>>, i: int) -> Seq<char>
    decreases i,
{
    if i <= 0 || i > records.len() {
        Seq::<char>::empty()
    } else if i == 1 {
        jv_record(records[0])
    } else {
        jv_records_prefix(records, i - 1) + seq![','] + jv_record(records[i - 1])
    }
}

/// A whole result as a JSON array of arrays.
pub open spec fn format_json_spec(records: Seq<Seq<GraphValue>>) -> Seq<char> {
    seq!['['] + jv_records_prefix(records, records.len() as int) + seq![']']
}

/// Appends the JSON text of one value to `out`.
#[verifier::loop_isolation(false)]
#[verifier::rlimit(60)]
pub fn append_json_value(out: &mut String, v: &GraphValue)
    ensures
        final(out)@ == old(out)@ + jv(*v),
    decreases *v, 0int,
{
    match v {
        GraphValue::Bool(b) => {
            if *b {
                out.append("true");
            } else {
                out.append("false");
            }
        },
        GraphValue::Int(i) => {
            let t = i64_to_string(*i);
            out.append(t.as_str());
        },
        GraphValue::Float(t) => {
            out.append(t.as_str());
        },
        GraphValue::Str(s) => {
            append_json_string(out, s.as_str());
        },
        GraphValue::Node(n) => {
            append_json_node(out, n);
        },
        GraphValue::Edge(e) => {
            append_json_edge(out, e);
        },
        GraphValue::Path(p) => {
            append_json_path(out, p);
        },
        GraphValue::Array(arr) => {
            push_char(out, '[');
            let n = arr.len();
            let mut i: usize = 0;
            while i < n
                invariant
                    i <= n,
                    out@ == old(out)@ + seq!['['] + jv_list_prefix(arr@, i as int),
                decreases n - i,
            {
                if i > 0 {
                    push_char(out, ',');
                }
                append_json_value(out, &arr[i]);
                proof {
                    assert(out@ =~= old(out)@ + seq!['['] + jv_list_prefix(arr@, i + 1));
                }
                i = i + 1;
            }
            push_char(out, ']');
            proof {
                assert(out@ =~= old(out)@ + jv(*v));
            }
        },
    }
}

/// Appends the JSON object for one path to `out`.
#[verifier::loop_isolation(false)]
#[verifier::rlimit(100)]
pub fn append_json_path(out: &mut String, p: &GraphPath)
    ensures
        final(out)@ == old(out)@ + jv_path(*p),
    decreases *p, p.nodes@.len() + p.edges@.len() + 2,
{
    out.append("{\"type\":\"path\",\"nodes\":[");
    let nc = p.nodes.len();
    let mut i: usize = 0;
    while i < nc
        invariant
            i <= nc,
            out@ == old(out)@ + "{\"type\":\"path\",\"nodes\":["@ + jv_path_nodes_prefix(
                *p,
                i as int,
            ),
        decreases nc - i,
    {
        if i > 0 {
            push_char(out, ',');
        }
        append_json_node(out, &p.nodes[i]);
        proof {
            assert(out@ =~= old(out)@ + "{\"type\":\"path\",\"nodes\":["@ + jv_path_nodes_prefix(
                *p,
                i + 1,
            ));
        }
        i = i + 1;
    }
    out.append("],\"edges\":[");
    let ghost mid = out@;
    let ec = p.edges.len();
    let mut j: usize = 0;
    while j < ec
        invariant
            j <= ec,
            out@ == mid + jv_path_edges_prefix(*p, j as int),
        decreases ec - j,
    {
        if j > 0 {
            push_char(out, ',');
        }
        append_json_edge(out, &p.edges[j]);
        proof {
            assert(out@ =~= mid + jv_path_edges_prefix(*p, j + 1));
        }
        j = j + 1;
    }
    out.append("]}");
    proof {
        assert(out@ =~= old(out)@ + jv_path(*p));
    }
}

/// Appends the comma-separated JSON members for properties to `out`.
#[verifier::loop_isolation(false)]
fn append_json_props(out: &mut String, ps: &Vec<(String, GraphValue)>)
    ensures
        final(out)@ == old(out)@ + jv_props_prefix(ps@, ps@.len() as int),
    decreases ps@, ps@.len() as int + 1,
{
    let n = ps.len();
    let mut i: usize = 0;
    while i < n
        invariant
            i <= n,
            out@ == old(out)@ + jv_props_prefix(ps@, i as int),
        decreases n - i,
    {
        if i > 0 {
            push_char(out, ',');
        }
        append_json_string(out, ps[i].0.as_str());
        push_char(out, ':');
        append_json_value(out, &ps[i].1);
        proof {
            assert(out@ =~= old(out)@ + jv_props_prefix(ps@, i + 1));
        }
        i = i + 1;
    }
}

/// Appends the JSON object for one node to `out`.
#[verifier::loop_isolation(false)]
pub fn append_json_node(out: &mut String, n: &GraphNode)
    ensures
        final(out)@ == old(out)@ + jv_node(*n),
    decreases *n, 2int,
{
    let ghost lview = n.labels@.map_values(|l: String| l@);
    out.append("{\"type\":\"node\",\"id\":");
    let idt = i64_to_string(n.id);
    out.append(idt.as_str());
    out.append(",\"labels\":[");
    let ghost mid = out@;
    let lc = n.labels.len();
    let mut i: usize = 0;
    while i < lc
        invariant
            i <= lc,
            out@ == mid + jv_labels_prefix(lview, i as int),
        decreases lc - i,
    {
        if i > 0 {
            push_char(out, ',');
        }
        append_json_string(out, n.labels[i].as_str());
        proof {
            assert(out@ =~= mid + jv_labels_prefix(lview, i + 1));
        }
        i = i + 1;
    }
    out.append("],\"properties\":{");
    append_json_props(out, &n.properties);
    out.append("}}");
    proof {
        assert(out@ =~= old(out)@ + jv_node(*n));
    }
}

/// Appends the JSON object for one edge to `out`.
#[verifier::loop_isolation(false)]
pub fn append_json_edge(out: &mut String, e: &GraphEdge)
    ensures
        final(out)@ == old(out)@ + jv_edge(*e),
    decreases *e, 2int,
{
    out.append("{\"type\":\"edge\",\"id\":");
    let idt = i64_to_string(e.id);
    out.append(idt.as_str());
    out.append(",\"relationship\":");
    append_json_string(out, e.relationship_type.as_str());
    out.append(",\"source\":");
    let st = i64_to_string(e.source_id);
    out.append(st.as_str());
    out.append(",\"target\":");
    let tt = i64_to_string(e.target_id);
    out.append(tt.as_str());
    out.append(",\"properties\":{");
    append_json_props(out, &e.properties);
    out.append("}}");
    proof {
        assert(out@ =~= old(out)@ + jv_edge(*e));
    }
}

/// Formats a whole query result as a JSON array of arrays, one inner
/// array per record, with type-tagged objects for graph entities.
#[verifier::loop_isolation(false)]
pub fn format_as_json(records: &Vec<Vec<GraphValue>>) -> (r: String)
    ensures
        r@ == format_json_spec(records@.map_values(|rec: Vec<GraphValue>| rec@)),
{
    let ghost rview = records@.map_values(|rec: Vec<GraphValue>| rec@);
    let mut out = String::new();
    push_char(&mut out, '[');
    let n = records.len();
    let mut i: usize = 0;
    while i < n
        invariant
            i <= n,
            n == records@.len(),
            rview == records@.map_values(|rec: Vec<GraphValue>| rec@),
            out@ == seq!['['] + jv_records_prefix(rview, i as int),
        decreases n - i,
    {
        if i > 0 {
            push_char(&mut out, ',');
        }
        push_char(&mut out, '[');
        let ghost mid = out@;
        let rec = &records[i];
        let m = rec.len();
        let mut j: usize = 0;
        while j < m
            invariant
                j <= m,
                m == rec@.len(),
                out@ == mid + jv_list_prefix(rec@, j as int),
            decreases m - j,
        {
            if j > 0 {
                push_char(&mut out, ',');
            }
            append_json_value(&mut out, &rec[j]);
            proof {
                assert(out@ =~= mid + jv_list_prefix(rec@, j + 1));
            }
            j = j + 1;
        }
        push_char(&mut out, ']');
        proof {
            assert(rview[i as int] == rec@);
            assert(out@ =~= seq!['['] + jv_records_prefix(rview, i + 1));
        }
        i = i + 1;
    }
    push_char(&mut out, ']');
    proof {
        assert(out@ =~= format_json_spec(rview));
    }
    out
}

} // verus!
