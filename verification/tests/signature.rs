use std::collections::HashSet;
use wiring_rs::api::get_signature;
use wiring_rs::error::Error;
use wiring_rs::ofn::{EntityKind, Ofn, Op};
use wiring_rs::signature::extract_signature;

fn entity(id: &str) -> Ofn {
    Ofn::Entity { kind: None, id: id.to_string(), label: None }
}

#[test]
fn repeated_entity_is_counted_once() {
    let tree = Ofn::Operator {
        op: Op::EquivalentClasses,
        children: vec![entity("A"), entity("B"), entity("A")],
    };
    let found = extract_signature(&tree);
    assert_eq!(found.len(), 2);
    let set: HashSet<String> = found.into_iter().collect();
    let expected: HashSet<String> = ["A".to_string(), "B".to_string()].into_iter().collect();
    assert_eq!(set, expected);
}

#[test]
fn literals_and_operator_names_are_left_out() {
    let tree = Ofn::Operator {
        op: Op::DataPropertyAssertion,
        children: vec![
            Ofn::Entity { kind: Some(EntityKind::DataProperty), id: "ex:age".to_string(), label: Some("age".to_string()) },
            entity("ex:rex"),
            Ofn::Literal { lexical: "3".to_string(), datatype: "xsd:integer".to_string(), language: None },
        ],
    };
    let mut found = extract_signature(&tree);
    found.sort();
    assert_eq!(found, vec!["ex:age".to_string(), "ex:rex".to_string()]);
    let literal =
        Ofn::Literal { lexical: "3".to_string(), datatype: "xsd:integer".to_string(), language: None };
    assert!(extract_signature(&literal).is_empty());
}

#[test]
fn signature_reaches_every_level() {
    let mut found = get_signature(
        r#"["SubClassOf","a",["ObjectSomeValuesFrom","p",["ObjectIntersectionOf","b","a",["ObjectComplementOf","c"]]]]"#,
    )
    .unwrap();
    found.sort();
    assert_eq!(found, vec!["a", "b", "c", "p"]);
}

#[test]
fn signature_of_bad_text_is_an_error() {
    assert_eq!(get_signature("not data"), Err(Error::Syntax));
    assert_eq!(get_signature(r#"["SubClassOf","a"]"#), Err(Error::Grammar));
}
