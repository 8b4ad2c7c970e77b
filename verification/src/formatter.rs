//! Typed graph values and their two renderings: a compact text form
//! for model consumption and a type-tagged JSON form for machine
//! consumption.  Both are specified exactly, value by value.

use vstd::prelude::*;
use crate::text::{
    dec_rep, int_rep, i64_to_string, push_char, trim_end, trim_end_spec, u64_to_string,
};

verus! {

/// One value of a query result record.  A floating-point number is
/// carried as its decimal text, which is all the renderings read.
pub enum GraphValue {
    Bool(bool),
    Int(i64),
    Float(String),
    Str(String),
    Node(GraphNode),
    Edge(GraphEdge),
    Path(GraphPath),
    Array(Vec<GraphValue>),
}

pub struct GraphNode {
    pub id: i64,
    pub labels: Vec<String>,
    pub properties: Vec<(String, GraphValue)>,
}

pub struct GraphEdge {
    pub id: i64,
    pub relationship_type: String,
    pub source_id: i64,
    pub target_id: i64,
    pub properties: Vec<(String, GraphValue)>,
}

/// Alternating nodes and edges; edge `i` stands between node `i` and
/// node `i + 1`.
pub struct GraphPath {
    pub nodes: Vec<GraphNode>,
    pub edges: Vec<GraphEdge>,
}

/// The label segment of a node: `:L` for each of the first `i` labels.
pub open spec fn fmt_labels_prefix(ls: Seq<Seq<char>>, i: int) -> Seq<char>
    decreases i,
{
    if i <= 0 {
        Seq::<char>::empty()
    } else {
        fmt_labels_prefix(ls, i - 1) + seq![':'] + ls[i - 1]
    }
}

/// Compact text of one value.
pub open spec fn fmt_value(v: GraphValue) -> Seq<char>
    decreases v, 0int,
{
    match v {
        GraphValue::Bool(b) => if b {
            "true"@
        } else {
            "false"@
        },
        GraphValue::Int(i) => int_rep(i as int),
        GraphValue::Float(t) => t@,
        GraphValue::Str(s) => seq!['"'] + s@ + seq!['"'],
        GraphValue::Node(n) => fmt_node(n),
        GraphValue::Edge(e) => fmt_edge(e),
        GraphValue::Path(p) => fmt_path_prefix(p, p.nodes@.len() as int),
        GraphValue::Array(arr) => seq!['['] + fmt_list_prefix(arr@, arr@.len() as int) + seq![']'],
    }
}

/// The first `i` values, formatted and joined by `", "`.
pub open spec fn fmt_list_prefix(vs: Seq<GraphValue>, i: int) -> Seq<char>
    decreases vs, i,
{
    if i <= 0 || i > vs.len() {
        Seq::<char>::empty()
    } else if i == 1 {
        fmt_value(vs[0])
    } else {
        fmt_list_prefix(vs, i - 1) + ", "@ + fmt_value(vs[i - 1])
    }
}

/// The first `i` properties as `key: value`, joined by `", "`.
pub open spec fn fmt_props_prefix(ps: Seq<(String, GraphValue)>, i: int) -> Seq<char>
    decreases ps, i,
{
    if i <= 0 || i > ps.len() {
        Seq::<char>::empty()
    } else if i == 1 {
        ps[0].0@ + ": "@ + fmt_value(ps[0].1)
    } else {
        fmt_props_prefix(ps, i - 1) + ", "@ + ps[i - 1].0@ + ": "@ + fmt_value(ps[i - 1].1)
    }
}

/// The property-brace segment, empty when there are no properties.
pub open spec fn fmt_props_segment(ps: Seq<(String, GraphValue)>) -> Seq<char>
    decreases ps, ps.len() + 1,
{
    if ps.len() == 0 {
        Seq::<char>::empty()
    } else {
        " {"@ + fmt_props_prefix(ps, ps.len() as int) + seq!['}']
    }
}

/// A node renders as `(:L1:L2 {k: v, ...})`; the label segment is
/// omitted without labels, the brace segment without properties.
pub open spec fn fmt_node(n: GraphNode) -> Seq<char>
    decreases n, 1int,
{
    seq!['('] + fmt_labels_prefix(
        n.labels@.map_values(|l: String| l@),
        n.labels@.len() as int,
    ) + fmt_props_segment(n.properties@) + seq![')']
}

/// An edge renders as `-[:TYPE {k: v, ...}]-`.
pub open spec fn fmt_edge(e: GraphEdge) -> Seq<char>
    decreases e, 1int,
{
    "-[:"@ + e.relationship_type@ + fmt_props_segment(e.properties@) + "]-"@
}

/// The first `i` nodes of a path, each preceded (from the second node
/// on) by the edge that leads to it, with no separator.
pub open spec fn fmt_path_prefix(p: GraphPath, i: int) -> Seq<char>
    decreases p, i,
{
    if i <= 0 || i > p.nodes@.len() {
        Seq::<char>::empty()
    } else {
        fmt_path_prefix(p, i - 1) + (if i - 1 > 0 && i - 2 < p.edges@.len() {
            fmt_edge(p.edges@[i - 2])
        } else {
            Seq::<char>::empty()
        }) + fmt_node(p.nodes@[i - 1])
    }
}

/// One record: a single field renders bare, several render bracketed.
pub open spec fn fmt_record(rec: Seq<GraphValue>) -> Seq<char> {
    if rec.len() == 1 {
        fmt_value(rec[0])
    } else {
        seq!['['] + fmt_list_prefix(rec, rec.len() as int) + seq![']']
    }
}

/// The first `i` records as numbered lines, each ended by a newline.
pub open spec fn fmt_lines_prefix(records: Seq<Seq<GraphValue>>, i: int) -> Seq<char>
    decreases i,
{
    if i <= 0 {
        Seq::<char>::empty()
    } else {
        fmt_lines_prefix(records, i - 1) + dec_rep(i as nat) + ". "@ + fmt_record(records[i - 1])
            + seq!['\n']
    }
}

/// Compact text of a whole result: the fixed sentence for no records,
/// the bare record for one, numbered lines with the trailing white
/// space trimmed for several.
pub open spec fn format_records_spec(records: Seq<Seq<GraphValue>>) -> Seq<char> {
    if records.len() == 0 {
        "No results returned."@
    } else if records.len() == 1 {
        fmt_record(records[0])
    } else {
        trim_end_spec(fmt_lines_prefix(records, records.len() as int))
    }
}

/// Formats one value in the compact text form.
#[verifier::loop_isolation(false)]
pub fn format_value(v: &GraphValue) -> (r: String)
    ensures
        r@ == fmt_value(*v),
    decreases *v, 0int,
{
    match v {
        GraphValue::Bool(b) => {
            if *b {
                String::from_str("true")
            } else {
                String::from_str("false")
            }
        },
        GraphValue::Int(i) => i64_to_string(*i),
        GraphValue::Float(t) => t.clone(),
        GraphValue::Str(s) => {
            let mut r = String::new();
            push_char(&mut r, '"');
            r.append(s.as_str());
            push_char(&mut r, '"');
            proof {
                assert(r@ =~= fmt_value(*v));
            }
            r
        },
        GraphValue::Node(n) => format_node(n),
        GraphValue::Edge(e) => format_edge(e),
        GraphValue::Path(p) => {
            let count = p.nodes.len();
            let mut r = String::new();
            let mut i: usize = 0;
            while i < count
                invariant
                    count == p.nodes@.len(),
                    i <= count,
                    r@ == fmt_path_prefix(*p, i as int),
                decreases count - i,
                {
                let edge_count = p.edges.len();
                if i > 0 && i - 1 < edge_count {
                    let et = format_edge(&p.edges[i - 1]);
                    r.append(et.as_str());
                }
                let nt = format_node(&p.nodes[i]);
                r.append(nt.as_str());
                proof {
                    assert(r@ =~= fmt_path_prefix(*p, i + 1));
                }
                i = i + 1;
            }
            r
        },
        GraphValue::Array(arr) => {
            let mut r = String::new();
            push_char(&mut r, '[');
            let body = format_list(arr);
            r.append(body.as_str());
            push_char(&mut r, ']');
            proof {
                assert(r@ =~= fmt_value(*v));
            }
            r
        },
    }
}

/// Formats a list of values joined by `", "`.
#[verifier::loop_isolation(false)]
fn format_list(vs: &Vec<GraphValue>) -> (r: String)
    ensures
        r@ == fmt_list_prefix(vs@, vs@.len() as int),
    decreases vs@, vs@.len() as int + 1,
{
    let n = vs.len();
    let mut r = String::new();
    let mut i: usize = 0;
    while i < n
        invariant
            n == vs@.len(),
            i <= n,
            r@ == fmt_list_prefix(vs@, i as int),
        decreases n - i,
    {
        if i > 0 {
            r.append(", ");
        }
        let vt = format_value(&vs[i]);
        r.append(vt.as_str());
        proof {
            assert(r@ =~= fmt_list_prefix(vs@, i + 1));
        }
        i = i + 1;
    }
    r
}

/// Formats the ` {k: v, ...}` property segment of a node or an edge.
#[verifier::loop_isolation(false)]
fn format_props(ps: &Vec<(String, GraphValue)>) -> (r: String)
    ensures
        r@ == fmt_props_segment(ps@),
    decreases ps@, ps@.len() as int + 2,
{
    let n = ps.len();
    if n == 0 {
        return String::new();
    }
    let mut r = String::from_str(" {");
    let mut i: usize = 0;
    while i < n
        invariant
            n == ps@.len(),
            i <= n,
            r@ == " {"@ + fmt_props_prefix(ps@, i as int),
        decreases n - i,
    {
        if i > 0 {
            r.append(", ");
        }
        r.append(ps[i].0.as_str());
        r.append(": ");
        let vt = format_value(&ps[i].1);
        r.append(vt.as_str());
        proof {
            assert(r@ =~= " {"@ + fmt_props_prefix(ps@, i + 1));
        }
        i = i + 1;
    }
    push_char(&mut r, '}');
    proof {
        assert(r@ =~= fmt_props_segment(ps@));
    }
    r
}

/// Formats one node.
pub fn format_node(n: &GraphNode) -> (r: String)
    ensures
        r@ == fmt_node(*n),
    decreases *n, 2int,
{
    let ghost lview = n.labels@.map_values(|l: String| l@);
    let mut r = String::new();
    push_char(&mut r, '(');
    let count = n.labels.len();
    let mut i: usize = 0;
    while i < count
        invariant
            count == n.labels@.len(),
            lview == n.labels@.map_values(|l: String| l@),
            i <= count,
            r@ == seq!['('] + fmt_labels_prefix(lview, i as int),
        decreases count - i,
    {
        push_char(&mut r, ':');
        r.append(n.labels[i].as_str());
        proof {
            assert(r@ =~= seq!['('] + fmt_labels_prefix(lview, i + 1));
        }
        i = i + 1;
    }
    let props = format_props(&n.properties);
    r.append(props.as_str());
    push_char(&mut r, ')');
    proof {
        assert(r@ =~= fmt_node(*n));
    }
    r
}

/// Formats one edge.
pub fn format_edge(e: &GraphEdge) -> (r: String)
    ensures
        r@ == fmt_edge(*e),
    decreases *e, 2int,
{
    let mut r = String::from_str("-[:");
    r.append(e.relationship_type.as_str());
    let props = format_props(&e.properties);
    r.append(props.as_str());
    r.append("]-");
    proof {
        assert(r@ =~= fmt_edge(*e));
    }
    r
}

/// Formats one record in the compact text form.
pub fn format_record(rec: &Vec<GraphValue>) -> (r: String)
    ensures
        r@ == fmt_record(rec@),
{
    if rec.len() == 1 {
        format_value(&rec[0])
    } else {
        let mut r = String::new();
        push_char(&mut r, '[');
        let body = format_list(rec);
        r.append(body.as_str());
        push_char(&mut r, ']');
        proof {
            assert(r@ =~= fmt_record(rec@));
        }
        r
    }
}

/// Formats a whole query result in the compact text form; the result
/// is exactly `format_records_spec` of the records.
pub fn format_query_records(records: &Vec<Vec<GraphValue>>) -> (r: String)
    ensures
        r@ == format_records_spec(records@.map_values(|rec: Vec<GraphValue>| rec@)),
{
    let ghost rview = records@.map_values(|rec: Vec<GraphValue>| rec@);
    let n = records.len();
    if n == 0 {
        return String::from_str("No results returned.");
    }
    if n == 1 {
        return format_record(&records[0]);
    }
    let mut out = String::new();
    let mut i: usize = 0;
    while i < n
        invariant
            n == records@.len(),
            n >= 2,
            rview == records@.map_values(|rec: Vec<GraphValue>| rec@),
            i <= n,
            out@ == fmt_lines_prefix(rview, i as int),
        decreases n - i,
    {
        let num = u64_to_string((i as u64) + 1);
        out.append(num.as_str());
        out.append(". ");
        let rt = format_record(&records[i]);
        out.append(rt.as_str());
        push_char(&mut out, '\n');
        proof {
            assert(out@ =~= fmt_lines_prefix(rview, i + 1));
        }
        i = i + 1;
    }
    trim_end(out.as_str())
}

} // verus!
