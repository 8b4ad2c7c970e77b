//! Schema discovery planning: the introspection queries sent to the
//! graph database, the parsers of their raw records, and the assembly
//! of a schema from the collected observations.  The database calls
//! themselves run outside; everything that decides is here.

use vstd::prelude::*;
use crate::formatter::GraphValue;
use crate::schema::{attr_view, attrs_view, Attribute, AttributeType, Entity, Relation, Schema,
    parse_type_spec};
use crate::text::{dec_rep, u64_to_string};

verus! {

/// Image of one attribute: name, type, count, unique, required,
/// example texts.
pub type AttrV = (Seq<char>, AttributeType, int, bool, bool, Option<Seq<Seq<char>>>);

/// Image of one relation: label, source, target, attributes.
pub type RelV = (Seq<char>, Seq<char>, Seq<char>, Seq<AttrV>);

/// Image of a relation value.
pub open spec fn rel_view(r: Relation) -> RelV {
    (r.label@, r.source@, r.target@, attrs_view(r.attributes@))
}

/// Image of a list of relations.
pub open spec fn rels_view(v: Seq<Relation>) -> Seq<RelV> {
    v.map_values(|r: Relation| rel_view(r))
}

/// Appending one relation appends its image.
pub proof fn lemma_rels_view_push(v: Seq<Relation>, r: Relation)
    ensures
        rels_view(v.push(r)) == rels_view(v).push(rel_view(r)),
{
    assert(rels_view(v.push(r)) =~= rels_view(v).push(rel_view(r)));
}

/// The introspection query that lists entity labels.
pub fn labels_query() -> (r: String)
    ensures
        r@ == "CALL db.labels()"@,
{
    String::from_str("CALL db.labels()")
}

/// The introspection query that lists relationship-type labels.
pub fn relationship_types_query() -> (r: String)
    ensures
        r@ == "CALL db.relationshipTypes()"@,
{
    String::from_str("CALL db.relationshipTypes()")
}

/// The sampling query that collects `(key, runtime type)` pairs with
/// their counts over up to `sample_size` instances of an entity label.
pub fn entity_attributes_query(label: &str, sample_size: u64) -> (r: String)
    ensures
        r@ == "MATCH (a:"@ + label@
            + ") CALL { WITH a RETURN [k IN keys(a) | [k, typeof(a[k])]] AS types } WITH types LIMIT "@
            + dec_rep(sample_size as nat) + " UNWIND types AS kt RETURN kt, count(1) ORDER BY kt[0]"@,
{
    let mut q = String::from_str("MATCH (a:");
    q.append(label);
    q.append(") CALL { WITH a RETURN [k IN keys(a) | [k, typeof(a[k])]] AS types } WITH types LIMIT ");
    let n = u64_to_string(sample_size);
    q.append(n.as_str());
    q.append(" UNWIND types AS kt RETURN kt, count(1) ORDER BY kt[0]");
    q
}

/// The sampling query for a relationship-type label.
pub fn relationship_attributes_query(label: &str, sample_size: u64) -> (r: String)
    ensures
        r@ == "MATCH ()-[a:"@ + label@
            + "]->() CALL { WITH a RETURN [k IN keys(a) | [k, typeof(a[k])]] AS types } WITH types LIMIT "@
            + dec_rep(sample_size as nat) + " UNWIND types AS kt RETURN kt, count(1) ORDER BY kt[0]"@,
{
    let mut q = String::from_str("MATCH ()-[a:");
    q.append(label);
    q.append(
        "]->() CALL { WITH a RETURN [k IN keys(a) | [k, typeof(a[k])]] AS types } WITH types LIMIT ",
    );
    let n = u64_to_string(sample_size);
    q.append(n.as_str());
    q.append(" UNWIND types AS kt RETURN kt, count(1) ORDER BY kt[0]");
    q
}

/// The probe that asks whether at least one edge of `label` connects
/// an instance of `source` to an instance of `target`.
pub fn relation_probe_query(source: &str, label: &str, target: &str) -> (r: String)
    ensures
        r@ == "MATCH (s:"@ + source@ + ")-[a:"@ + label@ + "]->(t:"@ + target@
            + ") return a limit 1"@,
{
    let mut q = String::from_str("MATCH (s:");
    q.append(source);
    q.append(")-[a:");
    q.append(label);
    q.append("]->(t:");
    q.append(target);
    q.append(") return a limit 1");
    q
}

/// The label a record of the label-listing queries contributes: its
/// first value, when that value is a string.
pub open spec fn record_label(rec: Seq<GraphValue>) -> Option<Seq<char>> {
    if rec.len() > 0 {
        match rec[0] {
            GraphValue::Str(s) => Option::Some(s@),
            _ => Option::None,
        }
    } else {
        Option::None
    }
}

/// The labels contributed by the first `i` records, in order.
pub open spec fn labels_prefix(records: Seq<Seq<GraphValue>>, i: int) -> Seq<Seq<char>>
    decreases i,
{
    if i <= 0 || i > records.len() {
        Seq::<Seq<char>>::empty()
    } else {
        labels_prefix(records, i - 1) + match record_label(records[i - 1]) {
            Option::Some(l) => seq![l],
            Option::None => Seq::<Seq<char>>::empty(),
        }
    }
}

/// Extracts the string labels from the records of a label listing.
pub fn labels_from_records(records: &Vec<Vec<GraphValue>>) -> (r: Vec<String>)
    ensures
        r@.map_values(|s: String| s@) == labels_prefix(
            records@.map_values(|rec: Vec<GraphValue>| rec@),
            records@.len() as int,
        ),
{
    let ghost rview = records@.map_values(|rec: Vec<GraphValue>| rec@);
    let n = records.len();
    let mut r: Vec<String> = Vec::new();
    let mut i: usize = 0;
    while i < n
        invariant
            n == records@.len(),
            rview == records@.map_values(|rec: Vec<GraphValue>| rec@),
            i <= n,
            r@.map_values(|s: String| s@) == labels_prefix(rview, i as int),
        decreases n - i,
    {
        let rec = &records[i];
        if rec.len() > 0 {
            match &rec[0] {
                GraphValue::Str(s) => {
                    r.push(String::from_str(s.as_str()));
                },
                _ => {},
            }
        }
        proof {
            assert(rview[i as int] == records@[i as int]@);
            assert(r@.map_values(|s: String| s@) =~= labels_prefix(rview, i + 1));
        }
        i = i + 1;
    }
    r
}

/// The attribute observation one sampling record contributes: the
/// record must hold a `[key, type]` pair and a count.
pub open spec fn record_attr(rec: Seq<GraphValue>) -> Option<(Seq<char>, AttributeType, int)> {
    if rec.len() >= 2 {
        match (rec[0], rec[1]) {
            (GraphValue::Array(kt), GraphValue::Int(count)) => {
                if kt@.len() >= 2 {
                    match (kt@[0], kt@[1]) {
                        (GraphValue::Str(k), GraphValue::Str(t)) => Option::Some(
                            (k@, parse_type_spec(t@), count as int),
                        ),
                        _ => Option::None,
                    }
                } else {
                    Option::None
                }
            },
            _ => Option::None,
        }
    } else {
        Option::None
    }
}

/// The attributes contributed by the first `i` sampling records; an
/// observation is never unique or required and carries no examples.
pub open spec fn attrs_prefix(records: Seq<Seq<GraphValue>>, i: int) -> Seq<AttrV>
    decreases i,
{
    if i <= 0 || i > records.len() {
        Seq::<AttrV>::empty()
    } else {
        attrs_prefix(records, i - 1) + match record_attr(records[i - 1]) {
            Option::Some(kt) => seq![
                (kt.0, kt.1, kt.2, false, false, Option::<Seq<Seq<char>>>::None),
            ],
            Option::None => Seq::<AttrV>::empty(),
        }
    }
}

/// Aggregates the records of one sampling query into attributes,
/// defaulting unknown runtime types to the string type.
pub fn attributes_from_records(records: &Vec<Vec<GraphValue>>) -> (r: Vec<Attribute>)
    ensures
        attrs_view(r@) == attrs_prefix(
            records@.map_values(|rec: Vec<GraphValue>| rec@),
            records@.len() as int,
        ),
{
    let ghost rview = records@.map_values(|rec: Vec<GraphValue>| rec@);
    let n = records.len();
    let mut r: Vec<Attribute> = Vec::new();
    let mut i: usize = 0;
    while i < n
        invariant
            n == records@.len(),
            rview == records@.map_values(|rec: Vec<GraphValue>| rec@),
            i <= n,
            attrs_view(r@) == attrs_prefix(rview, i as int),
        decreases n - i,
    {
        let rec = &records[i];
        if rec.len() >= 2 {
            match (&rec[0], &rec[1]) {
                (GraphValue::Array(kt), GraphValue::Int(count)) => {
                    if kt.len() >= 2 {
                        match (&kt[0], &kt[1]) {
                            (GraphValue::Str(k), GraphValue::Str(t)) => {
                                let name = String::from_str(k.as_str());
                                let ty = AttributeType::parse_or_default(t.as_str());
                                r.push(Attribute::new(name, ty, *count, false, false));
                            },
                            _ => {},
                        }
                    }
                },
                _ => {},
            }
        }
        proof {
            assert(rview[i as int] == records@[i as int]@);
            assert(attrs_view(r@) =~= attrs_prefix(rview, i + 1));
        }
        i = i + 1;
    }
    r
}

/// The relations contributed by source `s` and the first `t` targets
/// of one relationship label: one for each connected pair.
pub open spec fn rels_for_t(
    label: Seq<char>,
    attrs: Seq<AttrV>,
    elabels: Seq<Seq<char>>,
    row: Seq<bool>,
    s: int,
    t: int,
) -> Seq<RelV>
    decreases t,
{
    if t <= 0 || t > row.len() || t > elabels.len() || s < 0 || s >= elabels.len() {
        Seq::<RelV>::empty()
    } else {
        rels_for_t(label, attrs, elabels, row, s, t - 1) + (if row[t - 1] {
            seq![(label, elabels[s], elabels[t - 1], attrs)]
        } else {
            Seq::<RelV>::empty()
        })
    }
}

/// The relations contributed by the first `s` sources of one label.
pub open spec fn rels_for_s(
    label: Seq<char>,
    attrs: Seq<AttrV>,
    elabels: Seq<Seq<char>>,
    rows: Seq<Seq<bool>>,
    s: int,
) -> Seq<RelV>
    decreases s,
{
    if s <= 0 || s > rows.len() || s > elabels.len() {
        Seq::<RelV>::empty()
    } else {
        rels_for_s(label, attrs, elabels, rows, s - 1) + rels_for_t(
            label,
            attrs,
            elabels,
            rows[s - 1],
            s - 1,
            elabels.len() as int,
        )
    }
}

/// The relations contributed by the first `l` relationship labels.
pub open spec fn rels_all(
    elabels: Seq<Seq<char>>,
    label_attrs: Seq<(Seq<char>, Seq<AttrV>)>,
    conn: Seq<Seq<Seq<bool>>>,
    l: int,
) -> Seq<RelV>
    decreases l,
{
    if l <= 0 || l > label_attrs.len() || l > conn.len() {
        Seq::<RelV>::empty()
    } else {
        rels_all(elabels, label_attrs, conn, l - 1) + rels_for_s(
            label_attrs[l - 1].0,
            label_attrs[l - 1].1,
            elabels,
            conn[l - 1],
            elabels.len() as int,
        )
    }
}

/// Copies a list of strings, preserving every text.
fn copy_strings(v: &Vec<String>) -> (r: Vec<String>)
    ensures
        crate::text::strs_view(r@) == crate::text::strs_view(v@),
{
    let n = v.len();
    let mut r: Vec<String> = Vec::new();
    let mut i: usize = 0;
    while i < n
        invariant
            n == v@.len(),
            i <= n,
            crate::text::strs_view(r@) == crate::text::strs_view(v@.take(i as int)),
        decreases n - i,
    {
        let ghost prev = r@;
        r.push(String::from_str(v[i].as_str()));
        proof {
            crate::text::lemma_strs_view_push(prev, r@.last());
            assert(crate::text::strs_view(v@.take(i + 1)) =~= crate::text::strs_view(
                v@.take(i as int),
            ).push(v@[i as int]@));
        }
        i = i + 1;
    }
    proof {
        assert(v@.take(n as int) =~= v@);
    }
    r
}

/// Copies a list of attributes, preserving every field.
pub fn copy_attributes(v: &Vec<Attribute>) -> (r: Vec<Attribute>)
    ensures
        attrs_view(r@) == attrs_view(v@),
{
    let n = v.len();
    let mut r: Vec<Attribute> = Vec::new();
    let mut i: usize = 0;
    while i < n
        invariant
            n == v@.len(),
            i <= n,
            attrs_view(r@) == attrs_view(v@.take(i as int)),
        decreases n - i,
    {
        let a = &v[i];
        let examples: Option<Vec<String>> = match &a.examples {
            Option::Some(ex) => Option::Some(copy_strings(ex)),
            Option::None => Option::None,
        };
        let ghost prev = r@;
        r.push(
            Attribute {
                name: String::from_str(a.name.as_str()),
                attr_type: a.attr_type,
                count: a.count,
                unique: a.unique,
                required: a.required,
                examples,
            },
        );
        proof {
            assert(attr_view(r@.last()) == attr_view(v@[i as int]));
            crate::schema::lemma_attrs_view_push(prev, r@.last());
            assert(attrs_view(v@.take(i + 1)) =~= attrs_view(v@.take(i as int)).push(
                attr_view(v@[i as int]),
            ));
        }
        i = i + 1;
    }
    proof {
        assert(v@.take(n as int) =~= v@);
    }
    r
}

/// Materializes one relation for every connected
/// `(source, target)` pair of every relationship label, label-major,
/// then source-major, in entity order.  `connected[l][s][t]` records
/// whether the probe for label `l` from entity `s` to entity `t`
/// found an edge.
#[verifier::loop_isolation(false)]
pub fn assemble_relations(
    entities: &Vec<Entity>,
    label_attrs: &Vec<(String, Vec<Attribute>)>,
    connected: &Vec<Vec<Vec<bool>>>,
) -> (r: Vec<Relation>)
    requires
        connected@.len() == label_attrs@.len(),
        forall|l: int|
            0 <= l < connected@.len() ==> #[trigger] connected@[l]@.len() == entities@.len(),
        forall|l: int, s: int|
            0 <= l < connected@.len() && 0 <= s < entities@.len() ==> #[trigger] connected@[l]@[s]@.len()
                == entities@.len(),
    ensures
        rels_view(r@) == rels_all(
            entities@.map_values(|e: Entity| e.label@),
            label_attrs@.map_values(|p: (String, Vec<Attribute>)| (p.0@, attrs_view(p.1@))),
            connected@.map_values(|m: Vec<Vec<bool>>| m@.map_values(|row: Vec<bool>| row@)),
            label_attrs@.len() as int,
        ),
{
    let ghost elabels = entities@.map_values(|e: Entity| e.label@);
    let ghost las = label_attrs@.map_values(
        |p: (String, Vec<Attribute>)| (p.0@, attrs_view(p.1@)),
    );
    let ghost conn = connected@.map_values(|m: Vec<Vec<bool>>| m@.map_values(|row: Vec<bool>| row@));
    let ln = label_attrs.len();
    let en = entities.len();
    let mut r: Vec<Relation> = Vec::new();
    let mut l: usize = 0;
    while l < ln
        invariant
            l <= ln,
            rels_view(r@) == rels_all(elabels, las, conn, l as int),
        decreases ln - l,
    {
        let mut s: usize = 0;
        while s < en
            invariant
                l < ln,
                s <= en,
                rels_view(r@) == rels_all(elabels, las, conn, l as int) + rels_for_s(
                    las[l as int].0,
                    las[l as int].1,
                    elabels,
                    conn[l as int],
                    s as int,
                ),
            decreases en - s,
        {
            let mut t: usize = 0;
            while t < en
                invariant
                    l < ln,
                    s < en,
                    t <= en,
                    rels_view(r@) == rels_all(elabels, las, conn, l as int) + rels_for_s(
                        las[l as int].0,
                        las[l as int].1,
                        elabels,
                        conn[l as int],
                        s as int,
                    ) + rels_for_t(
                        las[l as int].0,
                        las[l as int].1,
                        elabels,
                        conn[l as int][s as int],
                        s as int,
                        t as int,
                    ),
                decreases en - t,
            {
                let ghost lab = las[l as int].0;
                let ghost ats = las[l as int].1;
                let ghost row = conn[l as int][s as int];
                proof {
                    assert(conn[l as int] == connected@[l as int]@.map_values(
                        |row_: Vec<bool>| row_@,
                    ));
                    assert(row == connected@[l as int]@[s as int]@);
                    assert(elabels[s as int] == entities@[s as int].label@);
                    assert(elabels[t as int] == entities@[t as int].label@);
                    assert(lab == label_attrs@[l as int].0@);
                    assert(ats == attrs_view(label_attrs@[l as int].1@));
                    assert(rels_for_t(lab, ats, elabels, row, s as int, t + 1) == rels_for_t(
                        lab,
                        ats,
                        elabels,
                        row,
                        s as int,
                        t as int,
                    ) + (if row[t as int] {
                        seq![(lab, elabels[s as int], elabels[t as int], ats)]
                    } else {
                        Seq::<RelV>::empty()
                    }));
                }
                let ghost prev = r@;
                if connected[l][s][t] {
                    let attrs = copy_attributes(&label_attrs[l].1);
                    let rel = Relation {
                        label: String::from_str(label_attrs[l].0.as_str()),
                        source: String::from_str(entities[s].label.as_str()),
                        target: String::from_str(entities[t].label.as_str()),
                        attributes: attrs,
                    };
                    proof {
                        assert(rel_view(rel) == (lab, elabels[s as int], elabels[t as int], ats));
                    }
                    r.push(rel);
                    proof {
                        lemma_rels_view_push(prev, r@.last());
                    }
                }
                proof {
                    assert(rels_view(r@) =~= rels_all(elabels, las, conn, l as int) + rels_for_s(
                        lab,
                        ats,
                        elabels,
                        conn[l as int],
                        s as int,
                    ) + rels_for_t(lab, ats, elabels, row, s as int, t + 1));
                }
                t = t + 1;
            }
            proof {
                assert(rels_all(elabels, las, conn, l as int) + rels_for_s(
                    las[l as int].0,
                    las[l as int].1,
                    elabels,
                    conn[l as int],
                    s + 1,
                ) =~= rels_all(elabels, las, conn, l as int) + rels_for_s(
                    las[l as int].0,
                    las[l as int].1,
                    elabels,
                    conn[l as int],
                    s as int,
                ) + rels_for_t(
                    las[l as int].0,
                    las[l as int].1,
                    elabels,
                    conn[l as int][s as int],
                    s as int,
                    en as int,
                ));
            }
            s = s + 1;
        }
        proof {
            assert(rels_all(elabels, las, conn, l + 1) =~= rels_all(elabels, las, conn, l as int)
                + rels_for_s(
                las[l as int].0,
                las[l as int].1,
                elabels,
                conn[l as int],
                en as int,
            ));
        }
        l = l + 1;
    }
    r
}

/// Builds a whole schema from the discovery observations: one entity
/// per entity label with its sampled attributes, then the relations
/// of every connected pair.
pub fn build_schema(
    entities: Vec<Entity>,
    label_attrs: &Vec<(String, Vec<Attribute>)>,
    connected: &Vec<Vec<Vec<bool>>>,
) -> (r: Schema)
    requires
        connected@.len() == label_attrs@.len(),
        forall|l: int|
            0 <= l < connected@.len() ==> #[trigger] connected@[l]@.len() == entities@.len(),
        forall|l: int, s: int|
            0 <= l < connected@.len() && 0 <= s < entities@.len() ==> #[trigger] connected@[l]@[s]@.len()
                == entities@.len(),
    ensures
        r.entities@ == entities@,
        rels_view(r.relations@) == rels_all(
            entities@.map_values(|e: Entity| e.label@),
            label_attrs@.map_values(|p: (String, Vec<Attribute>)| (p.0@, attrs_view(p.1@))),
            connected@.map_values(|m: Vec<Vec<bool>>| m@.map_values(|row: Vec<bool>| row@)),
            label_attrs@.len() as int,
        ),
{
    let relations = assemble_relations(&entities, label_attrs, connected);
    Schema { entities, relations }
}

} // verus!
