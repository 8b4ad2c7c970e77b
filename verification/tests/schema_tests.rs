use text_to_cypher::discovery::{
    attributes_from_records, build_schema, entity_attributes_query, labels_from_records,
    labels_query, relation_probe_query, relationship_attributes_query, relationship_types_query,
};
use text_to_cypher::formatter::GraphValue;
use text_to_cypher::schema::{Attribute, AttributeType, Entity, Relation, Schema};

#[test]
fn introspection_query_texts() {
    assert_eq!(labels_query(), "CALL db.labels()");
    assert_eq!(relationship_types_query(), "CALL db.relationshipTypes()");
    assert_eq!(
        entity_attributes_query("Person", 100),
        "MATCH (a:Person) CALL { WITH a RETURN [k IN keys(a) | [k, typeof(a[k])]] AS types } \
         WITH types LIMIT 100 UNWIND types AS kt RETURN kt, count(1) ORDER BY kt[0]"
    );
    assert_eq!(
        relationship_attributes_query("KNOWS", 50),
        "MATCH ()-[a:KNOWS]->() CALL { WITH a RETURN [k IN keys(a) | [k, typeof(a[k])]] AS types } \
         WITH types LIMIT 50 UNWIND types AS kt RETURN kt, count(1) ORDER BY kt[0]"
    );
    assert_eq!(
        relation_probe_query("Person", "KNOWS", "City"),
        "MATCH (s:Person)-[a:KNOWS]->(t:City) return a limit 1"
    );
}

#[test]
fn labels_are_read_from_first_fields() {
    let records = vec![
        vec![GraphValue::Str("Person".to_string())],
        vec![GraphValue::Int(3)],
        vec![],
        vec![GraphValue::Str("City".to_string())],
    ];
    assert_eq!(labels_from_records(&records), vec!["Person", "City"]);
}

#[test]
fn attributes_are_aggregated_with_type_defaulting() {
    let records = vec![
        vec![
            GraphValue::Array(vec![
                GraphValue::Str("name".to_string()),
                GraphValue::Str("String".to_string()),
            ]),
            GraphValue::Int(7),
        ],
        vec![
            GraphValue::Array(vec![
                GraphValue::Str("age".to_string()),
                GraphValue::Str("Integer".to_string()),
            ]),
            GraphValue::Int(5),
        ],
        vec![
            GraphValue::Array(vec![
                GraphValue::Str("odd".to_string()),
                GraphValue::Str("Mystery".to_string()),
            ]),
            GraphValue::Int(1),
        ],
        vec![GraphValue::Int(9)],
    ];
    let attrs = attributes_from_records(&records);
    assert_eq!(attrs.len(), 3);
    assert_eq!(attrs[0].name, "name");
    assert!(matches!(attrs[0].attr_type, AttributeType::Text));
    assert_eq!(attrs[0].count, 7);
    assert!(!attrs[0].unique);
    assert!(!attrs[0].required);
    assert!(matches!(attrs[1].attr_type, AttributeType::Integer));
    assert!(
        matches!(attrs[2].attr_type, AttributeType::Text),
        "an unknown runtime type falls back to the string type"
    );
}

#[test]
fn wire_names_round_trip() {
    assert_eq!(AttributeType::Mapping.wire_name(), "Map");
    assert_eq!(AttributeType::Text.wire_name(), "String");
    assert!(matches!(AttributeType::parse_or_default("Map"), AttributeType::Mapping));
    assert!(matches!(AttributeType::parse_or_default("Vector"), AttributeType::Vector));
    assert!(matches!(AttributeType::parse_or_default("anything"), AttributeType::Text));
}

#[test]
fn relations_materialize_only_connected_pairs() {
    let entities = vec![
        Entity::new("Person".to_string(), vec![], None),
        Entity::new("City".to_string(), vec![], None),
    ];
    let label_attrs = vec![(
        "LIVES_IN".to_string(),
        vec![Attribute::new("since".to_string(), AttributeType::Integer, 2, false, false)],
    )];
    // only Person -> City is connected
    let connected = vec![vec![vec![false, true], vec![false, false]]];
    let schema = build_schema(entities, &label_attrs, &connected);
    assert_eq!(schema.relations.len(), 1);
    let rel = &schema.relations[0];
    assert_eq!(rel.label, "LIVES_IN");
    assert_eq!(rel.source, "Person");
    assert_eq!(rel.target, "City");
    assert_eq!(rel.attributes.len(), 1);
    assert_eq!(rel.attributes[0].name, "since");
}

#[test]
fn relation_order_is_label_then_source_then_target() {
    let entities = vec![
        Entity::new("A".to_string(), vec![], None),
        Entity::new("B".to_string(), vec![], None),
    ];
    let label_attrs = vec![
        ("R1".to_string(), vec![]),
        ("R2".to_string(), vec![]),
    ];
    let connected = vec![
        vec![vec![true, true], vec![false, false]],
        vec![vec![false, false], vec![true, false]],
    ];
    let schema = build_schema(entities, &label_attrs, &connected);
    let triples: Vec<(String, String, String)> = schema
        .relations
        .iter()
        .map(|r| (r.label.clone(), r.source.clone(), r.target.clone()))
        .collect();
    assert_eq!(
        triples,
        vec![
            ("R1".to_string(), "A".to_string(), "A".to_string()),
            ("R1".to_string(), "A".to_string(), "B".to_string()),
            ("R2".to_string(), "B".to_string(), "A".to_string()),
        ]
    );
}

#[test]
fn schema_serializes_with_skipped_fields() {
    let mut schema = Schema::empty();
    schema.add_entity(Entity::new(
        "Person".to_string(),
        vec![
            Attribute::new("name".to_string(), AttributeType::Text, 9, false, false),
            Attribute::new("id".to_string(), AttributeType::Integer, 9, true, true),
        ],
        None,
    ));
    schema.add_entity(Entity::new(
        "Ghost".to_string(),
        vec![],
        Some("no attributes observed".to_string()),
    ));
    schema.add_relation(Relation::new(
        "KNOWS".to_string(),
        "Person".to_string(),
        "Person".to_string(),
        vec![],
    ));
    assert_eq!(
        schema.to_json(),
        "{\"entities\":[\
         {\"label\":\"Person\",\"attributes\":[\
         {\"name\":\"name\",\"type\":\"String\"},\
         {\"name\":\"id\",\"type\":\"Integer\",\"unique\":true,\"required\":true}]},\
         {\"label\":\"Ghost\",\"description\":\"no attributes observed\"}],\
         \"relations\":[\
         {\"label\":\"KNOWS\",\"source\":\"Person\",\"target\":\"Person\"}]}"
    );
}

#[test]
fn attribute_with_examples_serializes_them() {
    let mut schema = Schema::empty();
    schema.add_entity(Entity::new(
        "Person".to_string(),
        vec![Attribute::with_examples(
            "name".to_string(),
            AttributeType::Text,
            2,
            false,
            false,
            Some(vec!["Alice".to_string(), "Bob".to_string()]),
        )],
        None,
    ));
    assert_eq!(
        schema.to_json(),
        "{\"entities\":[{\"label\":\"Person\",\"attributes\":[\
         {\"name\":\"name\",\"type\":\"String\",\"examples\":[\"Alice\",\"Bob\"]}]}],\"relations\":[]}"
    );
}
