use wiring_rs::api::{ldtab_2_ofn, object_2_ofn, ofn_2_thick, read_field, thick_2_ofn};
use wiring_rs::error::Error;
use wiring_rs::object::ObjectValue;

#[test]
fn end_to_end_from_triple_to_axiom_and_back() {
    let input = r#"{"subject":"ex:Dog","predicate":"subClassOf","object":"ex:Animal"}"#;
    let statement = thick_2_ofn(input).unwrap();
    assert_eq!(statement, r#"["SubClassOf","ex:Dog","ex:Animal"]"#);
    let back = ofn_2_thick(&statement).unwrap();
    assert_eq!(back, r#"{"object":"ex:Animal","predicate":"subClassOf","subject":"ex:Dog"}"#);
    assert_eq!(thick_2_ofn(&back).unwrap(), statement);
}

#[test]
fn unknown_predicate_in_text_is_rejected() {
    let input = r#"{"subject":"ex:A","predicate":"ex:notAnAxiomPredicate","object":"ex:B"}"#;
    assert_eq!(thick_2_ofn(input), Err(Error::UnknownPredicate));
}

#[test]
fn thick_text_errors() {
    assert_eq!(thick_2_ofn("{"), Err(Error::Syntax));
    assert_eq!(thick_2_ofn("[]"), Err(Error::MalformedObject));
    assert_eq!(thick_2_ofn(r#"{"subject":"a","predicate":"subClassOf"}"#), Err(Error::MalformedObject));
    assert_eq!(
        thick_2_ofn(r#"{"subject":["a"],"predicate":"subClassOf","object":"b"}"#),
        Err(Error::MalformedObject)
    );
    assert_eq!(
        thick_2_ofn(r#"{"subject":"a","predicate":"subClassOf","object":{"x":1}}"#),
        Err(Error::MalformedObject)
    );
    assert_eq!(
        thick_2_ofn(r#"{"subject":"a","predicate":"subClassOf","object":["ObjectComplementOf"]}"#),
        Err(Error::MalformedObject)
    );
}

#[test]
fn nested_object_in_text() {
    let input = r#"{"subject":"ex:Dog","predicate":"subClassOf","object":["ObjectSomeValuesFrom","ex:hasPart","ex:Tail"]}"#;
    let statement = thick_2_ofn(input).unwrap();
    assert_eq!(statement, r#"["SubClassOf","ex:Dog",["ObjectSomeValuesFrom","ex:hasPart","ex:Tail"]]"#);
    assert_eq!(
        ofn_2_thick(&statement).unwrap(),
        r#"{"object":["ObjectSomeValuesFrom","ex:hasPart","ex:Tail"],"predicate":"subClassOf","subject":"ex:Dog"}"#
    );
}

#[test]
fn axiom_text_errors() {
    assert_eq!(ofn_2_thick("("), Err(Error::Syntax));
    assert_eq!(ofn_2_thick(r#"["SubClassOf","a"]"#), Err(Error::Grammar));
    assert_eq!(ofn_2_thick(r#"["ObjectUnionOf","a","b"]"#), Err(Error::UnsupportedAxiom));
    assert_eq!(ofn_2_thick(r#""a""#), Err(Error::UnsupportedAxiom));
}

#[test]
fn three_fields_are_assembled() {
    let statement = ldtab_2_ofn(r#""ex:Dog""#, r#""subClassOf""#, r#"["ObjectComplementOf","ex:Cat"]"#);
    assert_eq!(statement, Ok(r#"["SubClassOf","ex:Dog",["ObjectComplementOf","ex:Cat"]]"#.to_string()));
    let nested_subject =
        ldtab_2_ofn(r#"["ObjectComplementOf","ex:Cat"]"#, r#""disjointWith""#, r#""ex:Cat""#);
    assert_eq!(
        nested_subject,
        Ok(r#"["DisjointClasses",["ObjectComplementOf","ex:Cat"],"ex:Cat"]"#.to_string())
    );
}

#[test]
fn three_fields_errors_come_in_order() {
    assert_eq!(ldtab_2_ofn("ex:Dog", r#""subClassOf""#, r#""a""#), Err(Error::Syntax));
    assert_eq!(ldtab_2_ofn(r#""a""#, "subClassOf", r#""a""#), Err(Error::Syntax));
    assert_eq!(ldtab_2_ofn(r#""a""#, r#""subClassOf""#, "a b"), Err(Error::Syntax));
    assert_eq!(ldtab_2_ofn("1", "?", r#""a""#), Err(Error::MalformedObject));
    assert_eq!(ldtab_2_ofn(r#""a""#, r#"["subClassOf"]"#, r#""b""#), Err(Error::UnknownPredicate));
    assert_eq!(ldtab_2_ofn(r#""a""#, r#""unknown""#, r#""b""#), Err(Error::UnknownPredicate));
    assert_eq!(ldtab_2_ofn(r#""a""#, r#""subClassOf""#, r#"["X","b"]"#), Err(Error::MalformedObject));
    assert_eq!(ldtab_2_ofn(r#""a""#, r#""subClassOf""#, "{}"), Err(Error::MalformedObject));
}

#[test]
fn an_object_alone_from_text() {
    assert_eq!(
        object_2_ofn(r#"["ObjectAllValuesFrom","ex:p",["ObjectOneOf","ex:a","ex:b"]]"#),
        Ok(r#"["ObjectAllValuesFrom","ex:p",["ObjectOneOf","ex:a","ex:b"]]"#.to_string())
    );
    assert_eq!(object_2_ofn(r#" "ex:C" "#), Ok(r#""ex:C""#.to_string()));
    assert_eq!(object_2_ofn("ex:C"), Err(Error::Syntax));
    assert_eq!(object_2_ofn("true"), Err(Error::MalformedObject));
    assert_eq!(object_2_ofn(r#"["ObjectAllValuesFrom","ex:p"]"#), Err(Error::MalformedObject));
}

#[test]
fn a_field_is_read_as_a_written_expression() {
    assert_eq!(read_field(r#""a""#), Ok(ObjectValue::Identifier("a".to_string())));
    assert_eq!(
        read_field(r#"["w",["Literal","x","d"],"b"]"#),
        Ok(ObjectValue::Nested {
            head: "w".to_string(),
            arguments: vec![
                ObjectValue::Literal {
                    lexical: "x".to_string(),
                    datatype: "d".to_string(),
                    language: None,
                },
                ObjectValue::Identifier("b".to_string()),
            ],
        })
    );
    assert_eq!(read_field(r#"[["w"]]"#), Err(Error::MalformedObject));
    assert_eq!(read_field(r#"[1.5e3]"#), Err(Error::MalformedObject));
}

#[test]
fn a_label_assertion_becomes_a_label_triple() {
    let statement = r#"["AnnotationAssertion","rdfs:label","ex:Dog",["Literal","dog","xsd:string"]]"#;
    let triple = ofn_2_thick(statement).unwrap();
    assert_eq!(
        triple,
        r#"{"object":["Literal","dog","xsd:string"],"predicate":"label","subject":"ex:Dog"}"#
    );
    assert_eq!(thick_2_ofn(&triple).unwrap(), statement);
    let class = r#"["ClassAssertion","ex:Dog","ex:rex"]"#;
    assert_eq!(
        ofn_2_thick(class).unwrap(),
        r#"{"object":"ex:Dog","predicate":"type","subject":"ex:rex"}"#
    );
}
