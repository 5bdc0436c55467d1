use wiring_rs::error::Error;
use wiring_rs::json::Json;
use wiring_rs::labeling::LabelMap;
use wiring_rs::object::ObjectValue;
use wiring_rs::ofn::{EntityKind, Ofn, Op};
use wiring_rs::record::triples_from_json;
use wiring_rs::thick::ThickTriple;
use wiring_rs::typing::TypeMap;

fn text(value: &str) -> Json {
    Json::String(value.to_string())
}

fn member(key: &str, value: Json) -> (String, Json) {
    (key.to_string(), value)
}

#[test]
fn a_triple_is_read_from_an_object() {
    let data = Json::Object(vec![
        member("graph", text("g")),
        member("subject", text("ex:Dog")),
        member("predicate", text("subClassOf")),
        member("object", Json::Array(vec![text("ObjectComplementOf"), text("ex:Cat")])),
        member("subject", text("ex:Other")),
    ]);
    let triple = ThickTriple::from_json(&data).unwrap();
    assert_eq!(
        triple,
        ThickTriple {
            subject: "ex:Dog".to_string(),
            predicate: "subClassOf".to_string(),
            object: ObjectValue::Nested {
                head: "ObjectComplementOf".to_string(),
                arguments: vec![ObjectValue::Identifier("ex:Cat".to_string())],
            },
        }
    );
}

#[test]
fn a_triple_is_written_with_three_members() {
    let triple = ThickTriple {
        subject: "ex:Dog".to_string(),
        predicate: "label".to_string(),
        object: ObjectValue::Literal {
            lexical: "dog".to_string(),
            datatype: "xsd:string".to_string(),
            language: Some("en".to_string()),
        },
    };
    let data = triple.to_json();
    assert_eq!(
        data,
        Json::Object(vec![
            member(
                "object",
                Json::Array(vec![text("Literal"), text("dog"), text("xsd:string"), text("en")])
            ),
            member("predicate", text("label")),
            member("subject", text("ex:Dog")),
        ])
    );
    assert_eq!(ThickTriple::from_json(&data), Some(triple));
}

#[test]
fn data_that_is_no_triple_is_not_read() {
    assert_eq!(ThickTriple::from_json(&text("a")), None);
    assert_eq!(ThickTriple::from_json(&Json::Array(vec![])), None);
    assert_eq!(ThickTriple::from_json(&Json::Object(vec![])), None);
    let no_object = Json::Object(vec![member("subject", text("a")), member("predicate", text("b"))]);
    assert_eq!(ThickTriple::from_json(&no_object), None);
    let bad_subject = Json::Object(vec![
        member("subject", Json::Null),
        member("predicate", text("b")),
        member("object", text("c")),
    ]);
    assert_eq!(ThickTriple::from_json(&bad_subject), None);
    let bad_object = Json::Object(vec![
        member("subject", text("a")),
        member("predicate", text("b")),
        member("object", Json::Bool(true)),
    ]);
    assert_eq!(ThickTriple::from_json(&bad_object), None);
}

#[test]
fn a_list_of_triples_is_read_item_by_item() {
    let one = Json::Object(vec![
        member("subject", text("a")),
        member("predicate", text("type")),
        member("object", text("owl:Class")),
    ]);
    let two = Json::Object(vec![
        member("subject", text("b")),
        member("predicate", text("sameAs")),
        member("object", text("c")),
    ]);
    let triples = triples_from_json(&Json::Array(vec![one, two])).unwrap();
    assert_eq!(triples.len(), 2);
    assert_eq!(triples[0].subject, "a");
    assert_eq!(triples[1].predicate, "sameAs");
    assert_eq!(triples_from_json(&Json::Array(vec![])), Some(vec![]));
    assert_eq!(triples_from_json(&Json::Array(vec![text("a")])), None);
    assert_eq!(triples_from_json(&Json::Object(vec![])), None);
}

#[test]
fn expressions_are_read_from_data_and_written_to_data() {
    let data = Json::Array(vec![
        text("SubClassOf"),
        Json::Array(vec![text("Class"), text("a"), text("the a")]),
        text("b"),
    ]);
    let tree = Ofn::from_json(&data).unwrap();
    assert_eq!(
        tree,
        Ofn::Operator {
            op: Op::SubClassOf,
            children: vec![
                Ofn::Entity {
                    kind: Some(EntityKind::Class),
                    id: "a".to_string(),
                    label: Some("the a".to_string()),
                },
                Ofn::Entity { kind: None, id: "b".to_string(), label: None },
            ],
        }
    );
    assert_eq!(tree.to_json(), data);
    assert_eq!(Ofn::from_json(&Json::Null), Err(Error::Grammar));
    assert_eq!(Ofn::from_json(&Json::Array(vec![Json::Array(vec![])])), Err(Error::Grammar));
    assert_eq!(Ofn::from_json(&Json::Array(vec![text("SubClassOf"), text("a")])), Err(Error::Grammar));
}

#[test]
fn written_expressions_keep_unknown_words() {
    let data = Json::Array(vec![text("anything"), text("a"), Json::Array(vec![text("else")])]);
    let object = ObjectValue::from_json(&data).unwrap();
    assert_eq!(
        object,
        ObjectValue::Nested {
            head: "anything".to_string(),
            arguments: vec![
                ObjectValue::Identifier("a".to_string()),
                ObjectValue::Nested { head: "else".to_string(), arguments: vec![] },
            ],
        }
    );
    assert_eq!(object.to_json(), data);
    assert_eq!(Ofn::from_object(&object), None);
}

#[test]
fn copies_are_equal_to_what_was_copied() {
    let tree = Ofn::Operator {
        op: Op::ObjectUnionOf,
        children: vec![
            Ofn::Entity { kind: None, id: "a".to_string(), label: Some("A".to_string()) },
            Ofn::Literal { lexical: "1".to_string(), datatype: "d".to_string(), language: None },
        ],
    };
    assert_eq!(tree.clone(), tree);
    let object = tree.to_object();
    assert_eq!(object.clone(), object);
    let triple =
        ThickTriple { subject: "s".to_string(), predicate: "p".to_string(), object: object.clone() };
    assert_eq!(triple.clone(), triple);
    let mut labels = LabelMap::new();
    labels.insert("a".to_string(), "A".to_string());
    assert_eq!(labels.clone(), labels);
    let mut types = TypeMap::new();
    types.add("a".to_string(), EntityKind::Class);
    assert_eq!(types.clone(), types);
}
