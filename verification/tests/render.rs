use wiring_rs::api::ofn_2_man;
use wiring_rs::error::Error;
use wiring_rs::ofn::{EntityKind, Ofn, Op};
use wiring_rs::render::{phrase_text, render};

fn entity(id: &str) -> Ofn {
    Ofn::Entity { kind: None, id: id.to_string(), label: None }
}

#[test]
fn an_axiom_is_laid_out_with_indentation() {
    let tree = Ofn::Operator {
        op: Op::SubClassOf,
        children: vec![
            entity("ex:Dog"),
            Ofn::Operator {
                op: Op::ObjectSomeValuesFrom,
                children: vec![entity("ex:hasPart"), entity("ex:Tail")],
            },
        ],
    };
    assert_eq!(render(&tree), "is a kind of\n  ex:Dog\n  some\n    ex:hasPart\n    ex:Tail\n");
}

#[test]
fn labels_are_shown_in_place_of_identifiers() {
    let tree = Ofn::Entity {
        kind: Some(EntityKind::Class),
        id: "ex:Dog".to_string(),
        label: Some("dog".to_string()),
    };
    assert_eq!(render(&tree), "dog\n");
    assert_eq!(render(&entity("ex:Dog")), "ex:Dog\n");
}

#[test]
fn literals_are_shown_with_tag_or_datatype() {
    let plain =
        Ofn::Literal { lexical: "3".to_string(), datatype: "xsd:integer".to_string(), language: None };
    assert_eq!(render(&plain), "\"3\"^^xsd:integer\n");
    let tagged = Ofn::Literal {
        lexical: "Hund".to_string(),
        datatype: "rdf:langString".to_string(),
        language: Some("de".to_string()),
    };
    assert_eq!(render(&tagged), "\"Hund\"@de\n");
}

#[test]
fn an_operator_without_arguments_is_one_line() {
    let tree = Ofn::Operator { op: Op::ObjectUnionOf, children: vec![] };
    assert_eq!(render(&tree), "any of\n");
}

#[test]
fn operators_have_words() {
    assert_eq!(phrase_text(Op::ObjectIntersectionOf), "all of");
    assert_eq!(phrase_text(Op::ObjectComplementOf), "not");
    assert_eq!(phrase_text(Op::EquivalentClasses), "are equivalent classes");
}

#[test]
fn rendering_from_text() {
    let text = r#"["EquivalentClasses","a",["ObjectIntersectionOf","b",["ObjectComplementOf",["Entity","c","sea"]]]]"#;
    assert_eq!(
        ofn_2_man(text),
        Ok("are equivalent classes\n  a\n  all of\n    b\n    not\n      sea\n".to_string())
    );
    assert_eq!(ofn_2_man("]"), Err(Error::Syntax));
    assert_eq!(ofn_2_man(r#"["ObjectComplementOf"]"#), Err(Error::Grammar));
}
