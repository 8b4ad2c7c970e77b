//! The structural description of a graph: entities, relations and
//! their observed attributes, together with its JSON serialization —
//! the text that grounds the system prompt and fills the cache.

use vstd::prelude::*;
use crate::json::{append_json_string, json_string};

verus! {

/// Inferred type of an observed attribute.  The variant names avoid
/// the classical wire names where those collide with prelude names;
/// `wire_name` gives the wire name of each variant.
#[derive(Clone, Copy, PartialEq, Eq, Structural, Debug)]
pub enum AttributeType {
    Text,
    Number,
    Integer,
    Float,
    Boolean,
    DateTime,
    List,
    Mapping,
    Vector,
    Point,
}

/// The wire name of an attribute type.
pub open spec fn wire_name_spec(t: AttributeType) -> Seq<char> {
    match t {
        AttributeType::Text => "String"@,
        AttributeType::Number => "Number"@,
        AttributeType::Integer => "Integer"@,
        AttributeType::Float => "Float"@,
        AttributeType::Boolean => "Boolean"@,
        AttributeType::DateTime => "DateTime"@,
        AttributeType::List => "List"@,
        AttributeType::Mapping => "Map"@,
        AttributeType::Vector => "Vector"@,
        AttributeType::Point => "Point"@,
    }
}

/// The attribute type a wire name denotes; an unrecognized name
/// defaults to the string type, so discovery never fails on one
/// unknown runtime type.
pub open spec fn parse_type_spec(s: Seq<char>) -> AttributeType {
    if s == "Number"@ {
        AttributeType::Number
    } else if s == "Integer"@ {
        AttributeType::Integer
    } else if s == "Float"@ {
        AttributeType::Float
    } else if s == "Boolean"@ {
        AttributeType::Boolean
    } else if s == "DateTime"@ {
        AttributeType::DateTime
    } else if s == "List"@ {
        AttributeType::List
    } else if s == "Map"@ {
        AttributeType::Mapping
    } else if s == "Vector"@ {
        AttributeType::Vector
    } else if s == "Point"@ {
        AttributeType::Point
    } else {
        AttributeType::Text
    }
}

impl AttributeType {
    /// Wire name of this type.
    pub fn wire_name(self) -> (r: String)
        ensures
            r@ == wire_name_spec(self),
    {
        match self {
            AttributeType::Text => String::from_str("String"),
            AttributeType::Number => String::from_str("Number"),
            AttributeType::Integer => String::from_str("Integer"),
            AttributeType::Float => String::from_str("Float"),
            AttributeType::Boolean => String::from_str("Boolean"),
            AttributeType::DateTime => String::from_str("DateTime"),
            AttributeType::List => String::from_str("List"),
            AttributeType::Mapping => String::from_str("Map"),
            AttributeType::Vector => String::from_str("Vector"),
            AttributeType::Point => String::from_str("Point"),
        }
    }

    /// Parses a wire name, defaulting to the string type.
    pub fn parse_or_default(s: &str) -> (r: AttributeType)
        ensures
            r == parse_type_spec(s@),
    {
        if crate::text::str_eq(s, "Number") {
            AttributeType::Number
        } else if crate::text::str_eq(s, "Integer") {
            AttributeType::Integer
        } else if crate::text::str_eq(s, "Float") {
            AttributeType::Float
        } else if crate::text::str_eq(s, "Boolean") {
            AttributeType::Boolean
        } else if crate::text::str_eq(s, "DateTime") {
            AttributeType::DateTime
        } else if crate::text::str_eq(s, "List") {
            AttributeType::List
        } else if crate::text::str_eq(s, "Map") {
            AttributeType::Mapping
        } else if crate::text::str_eq(s, "Vector") {
            AttributeType::Vector
        } else if crate::text::str_eq(s, "Point") {
            AttributeType::Point
        } else {
            AttributeType::Text
        }
    }
}

/// One observed attribute of an entity or relation.
#[derive(Debug)]
pub struct Attribute {
    pub name: String,
    pub attr_type: AttributeType,
    pub count: i64,
    pub unique: bool,
    pub required: bool,
    pub examples: Option<Vec<String>>,
}

/// Mathematical image of an attribute.
pub open spec fn attr_view(a: Attribute) -> (
    Seq<char>,
    AttributeType,
    int,
    bool,
    bool,
    Option<Seq<Seq<char>>>,
) {
    (
        a.name@,
        a.attr_type,
        a.count as int,
        a.unique,
        a.required,
        match a.examples {
            Option::Some(v) => Option::Some(crate::text::strs_view(v@)),
            Option::None => Option::None,
        },
    )
}

/// Image of a list of attributes.
pub open spec fn attrs_view(v: Seq<Attribute>) -> Seq<
    (Seq<char>, AttributeType, int, bool, bool, Option<Seq<Seq<char>>>),
> {
    v.map_values(|a: Attribute| attr_view(a))
}

/// Appending one attribute appends its image.
pub proof fn lemma_attrs_view_push(v: Seq<Attribute>, a: Attribute)
    ensures
        attrs_view(v.push(a)) == attrs_view(v).push(attr_view(a)),
{
    assert(attrs_view(v.push(a)) =~= attrs_view(v).push(attr_view(a)));
}

impl Attribute {
    /// A fresh attribute without example values.
    pub fn new(name: String, attr_type: AttributeType, count: i64, unique: bool, required: bool) -> (
        r: Attribute
    )
        ensures
            attr_view(r) == (name@, attr_type, count as int, unique, required, Option::<
                Seq<Seq<char>>,
            >::None),
            r.name@ == name@,
            r.attr_type == attr_type,
            r.count == count,
            r.unique == unique,
            r.required == required,
    {
        Attribute { name, attr_type, count, unique, required, examples: Option::None }
    }

    /// A fresh attribute carrying example values.
    pub fn with_examples(
        name: String,
        attr_type: AttributeType,
        count: i64,
        unique: bool,
        required: bool,
        examples: Option<Vec<String>>,
    ) -> (r: Attribute)
        ensures
            r.name@ == name@,
            r.attr_type == attr_type,
            r.count == count,
            r.unique == unique,
            r.required == required,
            attr_view(r).5 == match examples {
                Option::Some(v) => Option::Some(crate::text::strs_view(v@)),
                Option::None => Option::<Seq<Seq<char>>>::None,
            },
    {
        Attribute { name, attr_type, count, unique, required, examples }
    }
}

/// One entity (node label) of the schema.
#[derive(Debug)]
pub struct Entity {
    pub label: String,
    pub attributes: Vec<Attribute>,
    pub description: Option<String>,
}

impl Entity {
    pub fn new(label: String, attributes: Vec<Attribute>, description: Option<String>) -> (r:
        Entity)
        ensures
            r.label@ == label@,
            attrs_view(r.attributes@) == attrs_view(attributes@),
            r.description == description,
    {
        Entity { label, attributes, description }
    }
}

/// One relation of the schema: a relationship label observed to
/// connect a source entity label to a target entity label.
#[derive(Debug)]
pub struct Relation {
    pub label: String,
    pub source: String,
    pub target: String,
    pub attributes: Vec<Attribute>,
}

impl Relation {
    pub fn new(label: String, source: String, target: String, attributes: Vec<Attribute>) -> (r:
        Relation)
        ensures
            r.label@ == label@,
            r.source@ == source@,
            r.target@ == target@,
            attrs_view(r.attributes@) == attrs_view(attributes@),
    {
        Relation { label, source, target, attributes }
    }
}

/// A whole schema: entities first, then relations.
#[derive(Debug)]
pub struct Schema {
    pub entities: Vec<Entity>,
    pub relations: Vec<Relation>,
}

/// JSON text of one attribute: name and type always; `unique`,
/// `required` and `examples` only when they carry information; the
/// sample count is never serialized.
pub open spec fn attr_json(a: Attribute) -> Seq<char> {
    "{\"name\":"@ + json_string(a.name@) + ",\"type\":\""@ + wire_name_spec(a.attr_type)
        + seq!['"'] + (if a.unique {
        ",\"unique\":true"@
    } else {
        Seq::<char>::empty()
    }) + (if a.required {
        ",\"required\":true"@
    } else {
        Seq::<char>::empty()
    }) + (match a.examples {
        Option::Some(v) => ",\"examples\":["@ + strings_json_prefix(
            v@.map_values(|s: String| s@),
            v@.len() as int,
        ) + seq![']'],
        Option::None => Seq::<char>::empty(),
    }) + seq!['}']
}

/// The first `i` strings as JSON literals, joined by commas.
pub open spec fn strings_json_prefix(ls: Seq<Seq<char>>, i: int) -> Seq<char>
    decreases i,
{
    if i <= 0 || i > ls.len() {
        Seq::<char>::empty()
    } else if i == 1 {
        json_string(ls[0])
    } else {
        strings_json_prefix(ls, i - 1) + seq![','] + json_string(ls[i - 1])
    }
}

/// The first `i` attributes as JSON, joined by commas.
pub open spec fn attrs_json_prefix(v: Seq<Attribute>, i: int) -> Seq<char>
    decreases i,
{
    if i <= 0 || i > v.len() {
        Seq::<char>::empty()
    } else if i == 1 {
        attr_json(v[0])
    } else {
        attrs_json_prefix(v, i - 1) + seq![','] + attr_json(v[i - 1])
    }
}

/// JSON text of one entity: the label always, the attribute list only
/// when non-empty, the description only when present.
pub open spec fn entity_json(e: Entity) -> Seq<char> {
    "{\"label\":"@ + json_string(e.label@) + (if e.attributes@.len() > 0 {
        ",\"attributes\":["@ + attrs_json_prefix(e.attributes@, e.attributes@.len() as int)
            + seq![']']
    } else {
        Seq::<char>::empty()
    }) + (match e.description {
        Option::Some(d) => ",\"description\":"@ + json_string(d@),
        Option::None => Seq::<char>::empty(),
    }) + seq!['}']
}

/// JSON text of one relation: label, source and target always, the
/// attribute list only when non-empty.
pub open spec fn relation_json(r: Relation) -> Seq<char> {
    "{\"label\":"@ + json_string(r.label@) + ",\"source\":"@ + json_string(r.source@)
        + ",\"target\":"@ + json_string(r.target@) + (if r.attributes@.len() > 0 {
        ",\"attributes\":["@ + attrs_json_prefix(r.attributes@, r.attributes@.len() as int)
            + seq![']']
    } else {
        Seq::<char>::empty()
    }) + seq!['}']
}

/// The first `i` entities as JSON, joined by commas.
pub open spec fn entities_json_prefix(v: Seq<Entity>, i: int) -> Seq<char>
    decreases i,
{
    if i <= 0 || i > v.len() {
        Seq::<char>::empty()
    } else if i == 1 {
        entity_json(v[0])
    } else {
        entities_json_prefix(v, i - 1) + seq![','] + entity_json(v[i - 1])
    }
}

/// The first `i` relations as JSON, joined by commas.
pub open spec fn relations_json_prefix(v: Seq<Relation>, i: int) -> Seq<char>
    decreases i,
{
    if i <= 0 || i > v.len() {
        Seq::<char>::empty()
    } else if i == 1 {
        relation_json(v[0])
    } else {
        relations_json_prefix(v, i - 1) + seq![','] + relation_json(v[i - 1])
    }
}

/// JSON text of a whole schema.
pub open spec fn schema_json(s: Schema) -> Seq<char> {
    "{\"entities\":["@ + entities_json_prefix(s.entities@, s.entities@.len() as int)
        + "],\"relations\":["@ + relations_json_prefix(s.relations@, s.relations@.len() as int)
        + "]}"@
}

#[verifier::loop_isolation(false)]
#[verifier::rlimit(100)]
fn append_attr_json(out: &mut String, a: &Attribute)
    ensures
        final(out)@ == old(out)@ + attr_json(*a),
{
    out.append("{\"name\":");
    append_json_string(out, a.name.as_str());
    out.append(",\"type\":\"");
    let tn = a.attr_type.wire_name();
    out.append(tn.as_str());
    crate::text::push_char(out, '"');
    if a.unique {
        out.append(",\"unique\":true");
    }
    if a.required {
        out.append(",\"required\":true");
    }
    match &a.examples {
        Option::Some(v) => {
            out.append(",\"examples\":[");
            let ghost lview = v@.map_values(|s: String| s@);
            let ghost mid = out@;
            let n = v.len();
            let mut i: usize = 0;
            while i < n
                invariant
                    i <= n,
                    n == v@.len(),
                    out@ == mid + strings_json_prefix(lview, i as int),
                decreases n - i,
            {
                if i > 0 {
                    crate::text::push_char(out, ',');
                }
                append_json_string(out, v[i].as_str());
                proof {
                    assert(out@ =~= mid + strings_json_prefix(lview, i + 1));
                }
                i = i + 1;
            }
            crate::text::push_char(out, ']');
            crate::text::push_char(out, '}');
        },
        Option::None => {
            crate::text::push_char(out, '}');
        },
    }
    proof {
        assert(out@ =~= old(out)@ + attr_json(*a));
    }
}

#[verifier::loop_isolation(false)]
fn append_attrs_json(out: &mut String, v: &Vec<Attribute>)
    ensures
        final(out)@ == old(out)@ + attrs_json_prefix(v@, v@.len() as int),
{
    let n = v.len();
    let mut i: usize = 0;
    while i < n
        invariant
            i <= n,
            n == v@.len(),
            out@ == old(out)@ + attrs_json_prefix(v@, i as int),
        decreases n - i,
    {
        if i > 0 {
            crate::text::push_char(out, ',');
        }
        append_attr_json(out, &v[i]);
        proof {
            assert(out@ =~= old(out)@ + attrs_json_prefix(v@, i + 1));
        }
        i = i + 1;
    }
}

#[verifier::loop_isolation(false)]
fn append_entity_json(out: &mut String, e: &Entity)
    ensures
        final(out)@ == old(out)@ + entity_json(*e),
{
    out.append("{\"label\":");
    append_json_string(out, e.label.as_str());
    if e.attributes.len() > 0 {
        out.append(",\"attributes\":[");
        append_attrs_json(out, &e.attributes);
        crate::text::push_char(out, ']');
    }
    match &e.description {
        Option::Some(d) => {
            out.append(",\"description\":");
            append_json_string(out, d.as_str());
        },
        Option::None => {},
    }
    crate::text::push_char(out, '}');
    proof {
        assert(out@ =~= old(out)@ + entity_json(*e));
    }
}

#[verifier::loop_isolation(false)]
fn append_relation_json(out: &mut String, r: &Relation)
    ensures
        final(out)@ == old(out)@ + relation_json(*r),
{
    out.append("{\"label\":");
    append_json_string(out, r.label.as_str());
    out.append(",\"source\":");
    append_json_string(out, r.source.as_str());
    out.append(",\"target\":");
    append_json_string(out, r.target.as_str());
    if r.attributes.len() > 0 {
        out.append(",\"attributes\":[");
        append_attrs_json(out, &r.attributes);
        crate::text::push_char(out, ']');
    }
    crate::text::push_char(out, '}');
    proof {
        assert(out@ =~= old(out)@ + relation_json(*r));
    }
}

impl Schema {
    /// A schema with no entities and no relations.
    pub fn empty() -> (r: Schema)
        ensures
            r.entities@.len() == 0,
            r.relations@.len() == 0,
    {
        Schema { entities: Vec::new(), relations: Vec::new() }
    }

    /// Appends one entity.
    pub fn add_entity(&mut self, entity: Entity)
        ensures
            final(self).entities@ == old(self).entities@.push(entity),
            final(self).relations@ == old(self).relations@,
    {
        self.entities.push(entity);
    }

    /// Appends one relation.
    pub fn add_relation(&mut self, relation: Relation)
        ensures
            final(self).relations@ == old(self).relations@.push(relation),
            final(self).entities@ == old(self).entities@,
    {
        self.relations.push(relation);
    }

    /// Serializes the schema as JSON: entities, then relations, each
    /// exactly as `schema_json` describes.
    #[verifier::loop_isolation(false)]
    pub fn to_json(&self) -> (r: String)
        ensures
            r@ == schema_json(*self),
    {
        let mut out = String::from_str("{\"entities\":[");
        let ghost start = out@;
        let en = self.entities.len();
        let mut i: usize = 0;
        while i < en
            invariant
                i <= en,
                en == self.entities@.len(),
                out@ == start + entities_json_prefix(self.entities@, i as int),
            decreases en - i,
        {
            if i > 0 {
                crate::text::push_char(&mut out, ',');
            }
            append_entity_json(&mut out, &self.entities[i]);
            proof {
                assert(out@ =~= start + entities_json_prefix(self.entities@, i + 1));
            }
            i = i + 1;
        }
        out.append("],\"relations\":[");
        let ghost mid = out@;
        let rn = self.relations.len();
        let mut j: usize = 0;
        while j < rn
            invariant
                j <= rn,
                rn == self.relations@.len(),
                out@ == mid + relations_json_prefix(self.relations@, j as int),
            decreases rn - j,
        {
            if j > 0 {
                crate::text::push_char(&mut out, ',');
            }
            append_relation_json(&mut out, &self.relations[j]);
            proof {
                assert(out@ =~= mid + relations_json_prefix(self.relations@, j + 1));
            }
            j = j + 1;
        }
        out.append("]}");
        proof {
            assert(out@ =~= schema_json(*self));
        }
        out
    }
}

} // verus!
