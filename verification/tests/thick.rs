use wiring_rs::error::Error;
use wiring_rs::object::ObjectValue;
use wiring_rs::ofn::{EntityKind, Ofn, Op};
use wiring_rs::thick::{assemble, ofn_to_thick, parse_object_only, thick_to_ofn, ThickTriple};

fn entity(id: &str) -> Ofn {
    Ofn::Entity { kind: None, id: id.to_string(), label: None }
}

fn identifier(id: &str) -> ObjectValue {
    ObjectValue::Identifier(id.to_string())
}

fn nested(head: &str, arguments: Vec<ObjectValue>) -> ObjectValue {
    ObjectValue::Nested { head: head.to_string(), arguments }
}

fn triple(subject: &str, predicate: &str, object: ObjectValue) -> ThickTriple {
    ThickTriple { subject: subject.to_string(), predicate: predicate.to_string(), object }
}

#[test]
fn subclass_triple_becomes_subclass_axiom_and_comes_back() {
    let input = triple("ex:Dog", "subClassOf", identifier("ex:Animal"));
    let tree = thick_to_ofn(&input).unwrap();
    assert_eq!(
        tree,
        Ofn::Operator { op: Op::SubClassOf, children: vec![entity("ex:Dog"), entity("ex:Animal")] }
    );
    assert_eq!(ofn_to_thick(&tree), Ok(input));
}

#[test]
fn unknown_predicate_is_rejected() {
    let input = triple("ex:A", "ex:notAnAxiomPredicate", identifier("ex:B"));
    assert_eq!(thick_to_ofn(&input), Err(Error::UnknownPredicate));
}

#[test]
fn unknown_predicate_is_reported_before_a_malformed_object() {
    let input = triple("ex:A", "ex:notAnAxiomPredicate", nested("NoSuchWord", vec![]));
    assert_eq!(thick_to_ofn(&input), Err(Error::UnknownPredicate));
}

#[test]
fn malformed_objects_are_rejected() {
    let unknown_word = triple("ex:A", "subClassOf", nested("NoSuchWord", vec![identifier("b")]));
    assert_eq!(thick_to_ofn(&unknown_word), Err(Error::MalformedObject));
    let wrong_arity =
        triple("ex:A", "subClassOf", nested("ObjectComplementOf", vec![identifier("b"), identifier("c")]));
    assert_eq!(thick_to_ofn(&wrong_arity), Err(Error::MalformedObject));
    let literal = ObjectValue::Literal {
        lexical: "1".to_string(),
        datatype: "xsd:integer".to_string(),
        language: None,
    };
    assert_eq!(thick_to_ofn(&triple("ex:A", "subClassOf", literal)), Err(Error::MalformedObject));
    let bare_as_list = triple("ex:A", "subClassOf", nested("Entity", vec![identifier("b")]));
    assert_eq!(thick_to_ofn(&bare_as_list), Err(Error::MalformedObject));
    let axiom_inside =
        triple("ex:A", "subClassOf", nested("SubClassOf", vec![identifier("b"), identifier("c")]));
    assert_eq!(thick_to_ofn(&axiom_inside), Err(Error::MalformedObject));
}

#[test]
fn nested_objects_are_translated_level_by_level() {
    let object = nested(
        "ObjectSomeValuesFrom",
        vec![
            identifier("ex:hasPart"),
            nested("ObjectIntersectionOf", vec![identifier("ex:Tail"), nested("Class", vec![identifier("ex:Long")])]),
        ],
    );
    let input = triple("ex:Dog", "subClassOf", object);
    let tree = thick_to_ofn(&input).unwrap();
    let expected = Ofn::Operator {
        op: Op::SubClassOf,
        children: vec![
            entity("ex:Dog"),
            Ofn::Operator {
                op: Op::ObjectSomeValuesFrom,
                children: vec![
                    entity("ex:hasPart"),
                    Ofn::Operator {
                        op: Op::ObjectIntersectionOf,
                        children: vec![
                            entity("ex:Tail"),
                            Ofn::Entity {
                                kind: Some(EntityKind::Class),
                                id: "ex:Long".to_string(),
                                label: None,
                            },
                        ],
                    },
                ],
            },
        ],
    };
    assert_eq!(tree, expected);
    assert_eq!(ofn_to_thick(&tree), Ok(input));
}

#[test]
fn every_predicate_comes_back() {
    let names = [
        "subClassOf",
        "equivalentClass",
        "disjointWith",
        "subPropertyOf",
        "equivalentProperty",
        "propertyDisjointWith",
        "inverseOf",
        "domain",
        "range",
        "sameAs",
        "differentFrom",
        "type",
    ];
    for name in names {
        let input = triple("ex:a", name, identifier("ex:b"));
        let tree = thick_to_ofn(&input).unwrap();
        assert_eq!(ofn_to_thick(&tree), Ok(input));
    }
    for name in ["label", "comment"] {
        let input = triple(
            "ex:a",
            name,
            ObjectValue::Literal {
                lexical: "a thing".to_string(),
                datatype: "xsd:string".to_string(),
                language: Some("en".to_string()),
            },
        );
        let tree = thick_to_ofn(&input).unwrap();
        assert_eq!(ofn_to_thick(&tree), Ok(input));
    }
}

#[test]
fn type_triple_puts_the_class_first() {
    let tree = thick_to_ofn(&triple("ex:rex", "type", identifier("ex:Dog"))).unwrap();
    assert_eq!(
        tree,
        Ofn::Operator { op: Op::ClassAssertion, children: vec![entity("ex:Dog"), entity("ex:rex")] }
    );
}

#[test]
fn label_triple_becomes_an_annotation_assertion() {
    let literal = ObjectValue::Literal {
        lexical: "dog".to_string(),
        datatype: "xsd:string".to_string(),
        language: None,
    };
    let tree = thick_to_ofn(&triple("ex:Dog", "label", literal)).unwrap();
    assert_eq!(
        tree,
        Ofn::Operator {
            op: Op::AnnotationAssertion,
            children: vec![
                entity("rdfs:label"),
                entity("ex:Dog"),
                Ofn::Literal {
                    lexical: "dog".to_string(),
                    datatype: "xsd:string".to_string(),
                    language: None,
                },
            ],
        }
    );
}

#[test]
fn expressions_without_a_triple_are_unsupported() {
    assert_eq!(ofn_to_thick(&entity("ex:A")), Err(Error::UnsupportedAxiom));
    let class = Ofn::Operator { op: Op::ObjectUnionOf, children: vec![entity("a"), entity("b")] };
    assert_eq!(ofn_to_thick(&class), Err(Error::UnsupportedAxiom));
    let three = Ofn::Operator {
        op: Op::EquivalentClasses,
        children: vec![entity("a"), entity("b"), entity("c")],
    };
    assert_eq!(ofn_to_thick(&three), Err(Error::UnsupportedAxiom));
    let complex_subject = Ofn::Operator {
        op: Op::SubClassOf,
        children: vec![
            Ofn::Operator { op: Op::ObjectComplementOf, children: vec![entity("a")] },
            entity("b"),
        ],
    };
    assert_eq!(ofn_to_thick(&complex_subject), Err(Error::UnsupportedAxiom));
    let typed_subject = Ofn::Operator {
        op: Op::SubClassOf,
        children: vec![
            Ofn::Entity { kind: Some(EntityKind::Class), id: "a".to_string(), label: None },
            entity("b"),
        ],
    };
    assert_eq!(ofn_to_thick(&typed_subject), Err(Error::UnsupportedAxiom));
    let data = Ofn::Operator { op: Op::SubDataPropertyOf, children: vec![entity("p"), entity("q")] };
    assert_eq!(ofn_to_thick(&data), Err(Error::UnsupportedAxiom));
    let typed_property = Ofn::Operator {
        op: Op::AnnotationAssertion,
        children: vec![
            Ofn::Entity {
                kind: Some(EntityKind::AnnotationProperty),
                id: "rdfs:label".to_string(),
                label: None,
            },
            entity("a"),
            entity("b"),
        ],
    };
    assert_eq!(ofn_to_thick(&typed_property), Err(Error::UnsupportedAxiom));
    let other_annotation = Ofn::Operator {
        op: Op::AnnotationAssertion,
        children: vec![entity("ex:note"), entity("a"), entity("b")],
    };
    assert_eq!(ofn_to_thick(&other_annotation), Err(Error::UnsupportedAxiom));
}

#[test]
fn an_ill_formed_expression_has_no_triple() {
    let ill = Ofn::Operator { op: Op::SubClassOf, children: vec![entity("a")] };
    assert_eq!(ofn_to_thick(&ill), Err(Error::Grammar));
}

#[test]
fn assemble_takes_a_nested_subject() {
    let subject = nested("ObjectComplementOf", vec![identifier("ex:A")]);
    let tree = assemble(&subject, "subClassOf", &identifier("ex:B")).unwrap();
    assert_eq!(
        tree,
        Ofn::Operator {
            op: Op::SubClassOf,
            children: vec![
                Ofn::Operator { op: Op::ObjectComplementOf, children: vec![entity("ex:A")] },
                entity("ex:B"),
            ],
        }
    );
    assert_eq!(
        assemble(&nested("NoSuchWord", vec![]), "subClassOf", &identifier("ex:B")),
        Err(Error::MalformedObject)
    );
    assert_eq!(
        assemble(&identifier("ex:A"), "notKnown", &identifier("ex:B")),
        Err(Error::UnknownPredicate)
    );
}

#[test]
fn an_object_alone_is_translated() {
    let object = nested("ObjectSomeValuesFrom", vec![identifier("ex:p"), identifier("ex:C")]);
    assert_eq!(
        parse_object_only(&object),
        Ok(Ofn::Operator {
            op: Op::ObjectSomeValuesFrom,
            children: vec![entity("ex:p"), entity("ex:C")],
        })
    );
    assert_eq!(parse_object_only(&identifier("ex:C")), Ok(entity("ex:C")));
    assert_eq!(
        parse_object_only(&nested("ObjectSomeValuesFrom", vec![identifier("ex:p")])),
        Err(Error::MalformedObject)
    );
    assert_eq!(parse_object_only(&nested("Literal", vec![])), Err(Error::MalformedObject));
}
