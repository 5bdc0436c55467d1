use wiring_rs::api::{extract_labels, ofn_labeling};
use wiring_rs::error::Error;
use wiring_rs::labeling::{extract_labeling, inject_labels, LabelMap};
use wiring_rs::object::ObjectValue;
use wiring_rs::ofn::{EntityKind, Ofn, Op};
use wiring_rs::thick::ThickTriple;

fn entity(id: &str) -> Ofn {
    Ofn::Entity { kind: None, id: id.to_string(), label: None }
}

fn labelled(id: &str, label: &str) -> Ofn {
    Ofn::Entity { kind: None, id: id.to_string(), label: Some(label.to_string()) }
}

fn label_triple(subject: &str, predicate: &str, text: &str) -> ThickTriple {
    ThickTriple {
        subject: subject.to_string(),
        predicate: predicate.to_string(),
        object: ObjectValue::Literal {
            lexical: text.to_string(),
            datatype: "xsd:string".to_string(),
            language: None,
        },
    }
}

#[test]
fn labels_are_attached_and_absent_identifiers_left_alone() {
    let mut map = LabelMap::new();
    map.insert("ex:Dog".to_string(), "dog".to_string());
    let tree =
        Ofn::Operator { op: Op::SubClassOf, children: vec![entity("ex:Dog"), entity("ex:Animal")] };
    let result = inject_labels(&tree, &map);
    assert_eq!(
        result,
        Ofn::Operator {
            op: Op::SubClassOf,
            children: vec![labelled("ex:Dog", "dog"), entity("ex:Animal")],
        }
    );
}

#[test]
fn injecting_labels_twice_changes_nothing_more() {
    let mut map = LabelMap::new();
    map.insert("A".to_string(), "B".to_string());
    map.insert("B".to_string(), "C".to_string());
    let tree = Ofn::Operator {
        op: Op::SubClassOf,
        children: vec![
            entity("A"),
            Ofn::Operator { op: Op::ObjectUnionOf, children: vec![entity("B"), labelled("D", "old")] },
        ],
    };
    let once = inject_labels(&tree, &map);
    let twice = inject_labels(&once, &map);
    assert_eq!(twice, once);
    assert_eq!(
        once,
        Ofn::Operator {
            op: Op::SubClassOf,
            children: vec![
                labelled("A", "B"),
                Ofn::Operator {
                    op: Op::ObjectUnionOf,
                    children: vec![labelled("B", "C"), labelled("D", "old")],
                },
            ],
        }
    );
}

#[test]
fn a_new_label_replaces_an_old_one_and_kinds_stay() {
    let mut map = LabelMap::new();
    map.insert("A".to_string(), "new".to_string());
    let tree = Ofn::Entity {
        kind: Some(EntityKind::Class),
        id: "A".to_string(),
        label: Some("old".to_string()),
    };
    assert_eq!(
        inject_labels(&tree, &map),
        Ofn::Entity { kind: Some(EntityKind::Class), id: "A".to_string(), label: Some("new".to_string()) }
    );
}

#[test]
fn the_last_label_of_an_identifier_counts() {
    let triples = vec![
        label_triple("ex:Dog", "label", "hound"),
        label_triple("ex:Cat", "label", "cat"),
        label_triple("ex:Dog", "comment", "not a label"),
        label_triple("ex:Dog", "label", "dog"),
        ThickTriple {
            subject: "ex:Cat".to_string(),
            predicate: "label".to_string(),
            object: ObjectValue::Identifier("ex:NotALiteral".to_string()),
        },
    ];
    let map = extract_labeling(&triples);
    assert_eq!(map.get("ex:Dog"), Some("dog".to_string()));
    assert_eq!(map.get("ex:Cat"), Some("cat".to_string()));
    assert_eq!(map.get("ex:Bird"), None);
}

#[test]
fn label_map_insert_overrides() {
    let mut map = LabelMap::new();
    assert_eq!(map.get("a"), None);
    map.insert("a".to_string(), "one".to_string());
    map.insert("b".to_string(), "two".to_string());
    map.insert("a".to_string(), "three".to_string());
    assert_eq!(map.get("a"), Some("three".to_string()));
    assert_eq!(map.get("b"), Some("two".to_string()));
}

#[test]
fn labels_from_text_and_into_text() {
    let ontology = r#"[
        {"subject":"ex:Dog","predicate":"label","object":["Literal","hound","xsd:string"]},
        {"subject":"ex:Dog","predicate":"label","object":["Literal","dog","xsd:string","en"]},
        {"subject":"ex:Dog","predicate":"subClassOf","object":"ex:Animal"}
    ]"#;
    let map = extract_labels(ontology).unwrap();
    assert_eq!(map.get("ex:Dog"), Some("dog".to_string()));
    assert_eq!(map.get("ex:Animal"), None);
    let text = ofn_labeling(r#"["SubClassOf","ex:Dog","ex:Animal"]"#, &map).unwrap();
    assert_eq!(text, r#"["SubClassOf",["Entity","ex:Dog","dog"],"ex:Animal"]"#);
    let again = ofn_labeling(&text, &map).unwrap();
    assert_eq!(again, text);
}

#[test]
fn labelling_reports_bad_input() {
    let map = LabelMap::new();
    assert_eq!(ofn_labeling("[", &map), Err(Error::Syntax));
    assert_eq!(ofn_labeling(r#"["Nothing"]"#, &map), Err(Error::Grammar));
    assert_eq!(extract_labels("{"), Err(Error::Syntax).map(|_: ()| LabelMap::new()));
    assert_eq!(extract_labels(r#"{"subject":"a"}"#), Err(Error::MalformedObject));
    assert_eq!(extract_labels(r#"[{"subject":"a","predicate":"label"}]"#), Err(Error::MalformedObject));
    assert_eq!(extract_labels("[]").unwrap(), LabelMap::new());
}
