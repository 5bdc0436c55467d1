use wiring_rs::error::Error;
use wiring_rs::ofn::{EntityKind, Ofn, Op};
use wiring_rs::syntax::{parse, serialize};

fn entity(id: &str) -> Ofn {
    Ofn::Entity { kind: None, id: id.to_string(), label: None }
}

#[test]
fn parse_reads_a_subclass_axiom() {
    let tree = parse(r#"["SubClassOf","ex:Dog","ex:Animal"]"#).unwrap();
    assert_eq!(
        tree,
        Ofn::Operator { op: Op::SubClassOf, children: vec![entity("ex:Dog"), entity("ex:Animal")] }
    );
}

#[test]
fn serialize_writes_compact_text() {
    let tree =
        Ofn::Operator { op: Op::SubClassOf, children: vec![entity("ex:Dog"), entity("ex:Animal")] };
    assert_eq!(serialize(&tree), r#"["SubClassOf","ex:Dog","ex:Animal"]"#);
}

#[test]
fn parse_rejects_text_that_is_no_data() {
    assert_eq!(parse("[\"SubClassOf\","), Err(Error::Syntax));
    assert_eq!(parse(""), Err(Error::Syntax));
}

#[test]
fn parse_rejects_wrong_arity() {
    assert_eq!(parse(r#"["SubClassOf","a","b","c"]"#), Err(Error::Grammar));
    assert_eq!(parse(r#"["SubClassOf","a"]"#), Err(Error::Grammar));
}

#[test]
fn parse_rejects_unknown_operator() {
    assert_eq!(parse(r#"["NoSuchOperator","a"]"#), Err(Error::Grammar));
}

#[test]
fn parse_rejects_restriction_over_a_literal() {
    let text = r#"["ObjectSomeValuesFrom","ex:p",["Literal","1","xsd:integer"]]"#;
    assert_eq!(parse(text), Err(Error::Grammar));
}

#[test]
fn parse_rejects_numbers_and_objects() {
    assert_eq!(parse("1"), Err(Error::Grammar));
    assert_eq!(parse("{}"), Err(Error::Grammar));
    assert_eq!(parse("null"), Err(Error::Grammar));
    assert_eq!(parse("[]"), Err(Error::Grammar));
}

#[test]
fn round_trip_of_a_nested_axiom() {
    let tree = Ofn::Operator {
        op: Op::SubClassOf,
        children: vec![
            Ofn::Entity { kind: Some(EntityKind::Class), id: "ex:Dog".to_string(), label: None },
            Ofn::Operator {
                op: Op::ObjectSomeValuesFrom,
                children: vec![
                    entity("ex:hasPart"),
                    Ofn::Entity {
                        kind: None,
                        id: "ex:Tail".to_string(),
                        label: Some("tail \"long\"".to_string()),
                    },
                ],
            },
        ],
    };
    assert!(tree.check());
    let text = serialize(&tree);
    assert_eq!(parse(&text), Ok(tree));
}

fn complement_chain(levels: usize) -> Ofn {
    let mut tree = entity("ex:A");
    for _ in 0..levels {
        tree = Ofn::Operator { op: Op::ObjectComplementOf, children: vec![tree] };
    }
    tree
}

#[test]
fn depth_limit_is_one_hundred_levels() {
    assert!(complement_chain(99).check());
    assert!(!complement_chain(100).check());
    assert!(complement_chain(99).within(100));
    assert!(!complement_chain(99).within(99));
    assert!(!entity("ex:A").within(0));
}

#[test]
fn parse_rejects_text_nested_deeper_than_the_limit() {
    let mut text = String::new();
    for _ in 0..100 {
        text.push_str("[\"ObjectComplementOf\",");
    }
    text.push_str("\"ex:A\"");
    for _ in 0..100 {
        text.push(']');
    }
    assert_eq!(parse(&text), Err(Error::Grammar));
    let shallow = serialize(&complement_chain(99));
    assert_eq!(parse(&shallow), Ok(complement_chain(99)));
}

#[test]
fn typed_and_labelled_entities_are_written_as_lists() {
    let typed = Ofn::Entity { kind: Some(EntityKind::Class), id: "ex:Dog".to_string(), label: None };
    assert_eq!(serialize(&typed), r#"["Class","ex:Dog"]"#);
    let labelled =
        Ofn::Entity { kind: None, id: "ex:Dog".to_string(), label: Some("dog".to_string()) };
    assert_eq!(serialize(&labelled), r#"["Entity","ex:Dog","dog"]"#);
    let both = Ofn::Entity {
        kind: Some(EntityKind::NamedIndividual),
        id: "ex:rex".to_string(),
        label: Some("Rex".to_string()),
    };
    assert_eq!(serialize(&both), r#"["NamedIndividual","ex:rex","Rex"]"#);
    assert_eq!(parse(r#"["Class","ex:Dog"]"#), Ok(typed));
    assert_eq!(parse(r#"["Entity","ex:Dog","dog"]"#), Ok(labelled));
    assert_eq!(parse(r#"["NamedIndividual","ex:rex","Rex"]"#), Ok(both));
}

#[test]
fn a_bare_entity_is_not_written_as_a_list() {
    assert_eq!(serialize(&entity("ex:Dog")), r#""ex:Dog""#);
    assert_eq!(parse(r#""ex:Dog""#), Ok(entity("ex:Dog")));
    assert_eq!(parse(r#"["Entity","ex:Dog"]"#), Err(Error::Grammar));
    assert_eq!(parse(r#"["Class"]"#), Err(Error::Grammar));
    assert_eq!(parse(r#"["Class",["Class","a"]]"#), Err(Error::Grammar));
}

#[test]
fn literals_are_read_and_written() {
    let plain = Ofn::Literal {
        lexical: "1".to_string(),
        datatype: "xsd:integer".to_string(),
        language: None,
    };
    let tagged = Ofn::Literal {
        lexical: "Hund".to_string(),
        datatype: "rdf:langString".to_string(),
        language: Some("de".to_string()),
    };
    assert_eq!(serialize(&plain), r#"["Literal","1","xsd:integer"]"#);
    assert_eq!(serialize(&tagged), r#"["Literal","Hund","rdf:langString","de"]"#);
    assert_eq!(parse(r#"["Literal","1","xsd:integer"]"#), Ok(plain));
    assert_eq!(parse(r#"["Literal","Hund","rdf:langString","de"]"#), Ok(tagged));
    assert_eq!(parse(r#"["Literal","1"]"#), Err(Error::Grammar));
    assert_eq!(parse(r#"["Literal","1","a","b","c"]"#), Err(Error::Grammar));
    assert_eq!(parse(r#"["Literal","1",["Class","a"]]"#), Err(Error::Grammar));
}

#[test]
fn a_typed_entity_must_suit_its_position() {
    assert!(parse(r#"["SubClassOf",["Class","a"],"b"]"#).is_ok());
    assert_eq!(parse(r#"["SubClassOf",["NamedIndividual","a"],"b"]"#), Err(Error::Grammar));
    assert!(parse(r#"["ClassAssertion","c",["NamedIndividual","a"]]"#).is_ok());
    assert!(parse(r#"["AnnotationAssertion","p",["Class","a"],["Literal","x","xsd:string"]]"#)
        .is_ok());
}

#[test]
fn property_chains_stand_only_below_a_subproperty_axiom() {
    let chain = r#"["SubObjectPropertyOf",["ObjectPropertyChain","p","q"],"r"]"#;
    assert!(parse(chain).is_ok());
    let misplaced = r#"["ObjectSomeValuesFrom",["ObjectPropertyChain","p","q"],"c"]"#;
    assert_eq!(parse(misplaced), Err(Error::Grammar));
    assert!(parse(r#"["ObjectPropertyChain","p","q"]"#).is_ok());
}

#[test]
fn cardinalities_take_two_or_three_arguments() {
    let number = r#"["Literal","2","xsd:nonNegativeInteger"]"#;
    assert!(parse(&format!(r#"["ObjectMinCardinality",{},"p"]"#, number)).is_ok());
    assert!(parse(&format!(r#"["ObjectMinCardinality",{},"p","c"]"#, number)).is_ok());
    assert_eq!(
        parse(&format!(r#"["ObjectMinCardinality",{},"p","c","d"]"#, number)),
        Err(Error::Grammar)
    );
    assert_eq!(parse(r#"["ObjectMinCardinality","2","p"]"#), Err(Error::Grammar));
}

#[test]
fn round_trip_of_every_kind_of_node() {
    let texts = [
        r#"["EquivalentClasses","a",["ObjectIntersectionOf","b",["ObjectUnionOf","c","d"]]]"#,
        r#"["DisjointUnion","a","b","c"]"#,
        r#"["ObjectPropertyAssertion",["ObjectInverseOf","p"],"a","b"]"#,
        r#"["DataPropertyAssertion","p","a",["Literal","1","xsd:integer"]]"#,
        r#"["SubClassOf","a",["DataSomeValuesFrom","p",["DataOneOf",["Literal","1","xsd:integer"]]]]"#,
        r#"["Declaration",["Class","a"]]"#,
        r#"["AnnotationAssertion","rdfs:label","a",["Literal","x","xsd:string","en"]]"#,
    ];
    for text in texts {
        let tree = parse(text).unwrap();
        assert!(tree.check());
        assert_eq!(serialize(&tree), text);
        assert_eq!(parse(&serialize(&tree)), Ok(tree));
    }
}

#[test]
fn text_with_escapes_comes_back_unchanged() {
    let tree = Ofn::Operator {
        op: Op::SubClassOf,
        children: vec![entity("ex:\u{e9}\n\t\"quoted\"\\"), entity("ex:\u{1F415}")],
    };
    assert_eq!(parse(&serialize(&tree)), Ok(tree));
}
