use wiring_rs::api::{extract_types, ofn_typing};
use wiring_rs::error::Error;
use wiring_rs::object::ObjectValue;
use wiring_rs::ofn::{EntityKind, Ofn, Op, Sort};
use wiring_rs::thick::ThickTriple;
use wiring_rs::typing::{
    extract_typing, inject_types, inject_types_at, kind_from_text, kind_text, KindSet, TypeMap,
};

fn entity(id: &str) -> Ofn {
    Ofn::Entity { kind: None, id: id.to_string(), label: None }
}

fn typed(kind: EntityKind, id: &str) -> Ofn {
    Ofn::Entity { kind: Some(kind), id: id.to_string(), label: None }
}

fn declaration(subject: &str, object: &str) -> ThickTriple {
    ThickTriple {
        subject: subject.to_string(),
        predicate: "type".to_string(),
        object: ObjectValue::Identifier(object.to_string()),
    }
}

#[test]
fn an_identifier_without_entry_stays_untyped() {
    let mut map = TypeMap::new();
    map.add("A".to_string(), EntityKind::Class);
    let tree = Ofn::Operator { op: Op::SubClassOf, children: vec![entity("A"), entity("B")] };
    assert_eq!(
        inject_types(&tree, &map),
        Ofn::Operator { op: Op::SubClassOf, children: vec![typed(EntityKind::Class, "A"), entity("B")] }
    );
}

#[test]
fn the_position_decides_for_a_punned_identifier() {
    let mut map = TypeMap::new();
    map.add("B".to_string(), EntityKind::NamedIndividual);
    map.add("B".to_string(), EntityKind::Class);
    let statement = Ofn::Operator { op: Op::SubClassOf, children: vec![entity("A"), entity("B")] };
    assert_eq!(
        inject_types(&statement, &map),
        Ofn::Operator { op: Op::SubClassOf, children: vec![entity("A"), typed(EntityKind::Class, "B")] }
    );
    let assertion = Ofn::Operator { op: Op::ClassAssertion, children: vec![entity("B"), entity("B")] };
    assert_eq!(
        inject_types(&assertion, &map),
        Ofn::Operator {
            op: Op::ClassAssertion,
            children: vec![typed(EntityKind::Class, "B"), typed(EntityKind::NamedIndividual, "B")],
        }
    );
}

#[test]
fn the_position_wins_over_the_map() {
    let mut map = TypeMap::new();
    map.add("B".to_string(), EntityKind::NamedIndividual);
    let statement = Ofn::Operator { op: Op::SubClassOf, children: vec![entity("A"), entity("B")] };
    assert_eq!(
        inject_types(&statement, &map),
        Ofn::Operator { op: Op::SubClassOf, children: vec![entity("A"), typed(EntityKind::Class, "B")] }
    );
}

#[test]
fn without_a_position_only_a_single_kind_is_taken() {
    let mut map = TypeMap::new();
    map.add("one".to_string(), EntityKind::DataProperty);
    map.add("two".to_string(), EntityKind::Class);
    map.add("two".to_string(), EntityKind::NamedIndividual);
    map.insert("none".to_string(), KindSet::empty());
    assert_eq!(inject_types(&entity("one"), &map), typed(EntityKind::DataProperty, "one"));
    assert_eq!(inject_types(&entity("two"), &map), entity("two"));
    assert_eq!(inject_types(&entity("none"), &map), entity("none"));
    assert_eq!(
        inject_types_at(&entity("none"), &map, Sort::Individual),
        typed(EntityKind::NamedIndividual, "none")
    );
    let annotation = Ofn::Operator {
        op: Op::AnnotationAssertion,
        children: vec![entity("p"), entity("one"), entity("two")],
    };
    assert_eq!(
        inject_types(&annotation, &map),
        Ofn::Operator {
            op: Op::AnnotationAssertion,
            children: vec![entity("p"), typed(EntityKind::DataProperty, "one"), entity("two")],
        }
    );
}

#[test]
fn a_settled_kind_and_a_label_are_kept() {
    let mut map = TypeMap::new();
    map.add("A".to_string(), EntityKind::Class);
    let settled = typed(EntityKind::NamedIndividual, "A");
    assert_eq!(inject_types(&settled, &map), typed(EntityKind::NamedIndividual, "A"));
    let labelled = Ofn::Entity { kind: None, id: "A".to_string(), label: Some("a".to_string()) };
    assert_eq!(
        inject_types(&labelled, &map),
        Ofn::Entity { kind: Some(EntityKind::Class), id: "A".to_string(), label: Some("a".to_string()) }
    );
    let literal =
        Ofn::Literal { lexical: "A".to_string(), datatype: "A".to_string(), language: None };
    assert_eq!(
        inject_types(&literal, &map),
        Ofn::Literal { lexical: "A".to_string(), datatype: "A".to_string(), language: None }
    );
}

#[test]
fn typing_keeps_an_expression_well_formed() {
    let mut map = TypeMap::new();
    for id in ["a", "b", "p", "i"] {
        map.add(id.to_string(), EntityKind::AnnotationProperty);
    }
    let tree = Ofn::Operator {
        op: Op::SubClassOf,
        children: vec![
            entity("a"),
            Ofn::Operator {
                op: Op::ObjectIntersectionOf,
                children: vec![
                    Ofn::Operator { op: Op::ObjectHasValue, children: vec![entity("p"), entity("i")] },
                    entity("b"),
                ],
            },
        ],
    };
    assert!(tree.check());
    let result = inject_types(&tree, &map);
    assert!(result.check());
    assert_eq!(
        result,
        Ofn::Operator {
            op: Op::SubClassOf,
            children: vec![
                typed(EntityKind::Class, "a"),
                Ofn::Operator {
                    op: Op::ObjectIntersectionOf,
                    children: vec![
                        Ofn::Operator {
                            op: Op::ObjectHasValue,
                            children: vec![
                                typed(EntityKind::ObjectProperty, "p"),
                                typed(EntityKind::NamedIndividual, "i"),
                            ],
                        },
                        typed(EntityKind::Class, "b"),
                    ],
                },
            ],
        }
    );
}

#[test]
fn declarations_are_gathered() {
    let triples = vec![
        declaration("ex:Dog", "owl:Class"),
        declaration("ex:rex", "owl:NamedIndividual"),
        declaration("ex:Dog", "owl:NamedIndividual"),
        declaration("ex:rex", "ex:Dog"),
        ThickTriple {
            subject: "ex:Cat".to_string(),
            predicate: "subClassOf".to_string(),
            object: ObjectValue::Identifier("owl:Class".to_string()),
        },
    ];
    let map = extract_typing(&triples);
    let dog = map.get("ex:Dog").unwrap();
    assert_eq!(dog, KindSet::empty().with(EntityKind::Class).with(EntityKind::NamedIndividual));
    assert!(dog.has(EntityKind::Class) && dog.has(EntityKind::NamedIndividual));
    assert!(!dog.has(EntityKind::Datatype));
    assert_eq!(dog.single(), None);
    let rex = map.get("ex:rex").unwrap();
    assert_eq!(rex.single(), Some(EntityKind::NamedIndividual));
    assert_eq!(map.get("ex:Cat"), None);
    assert_eq!(map.get("owl:Class"), None);
}

#[test]
fn kinds_have_names() {
    let kinds = [
        (EntityKind::Class, "owl:Class"),
        (EntityKind::Datatype, "rdfs:Datatype"),
        (EntityKind::ObjectProperty, "owl:ObjectProperty"),
        (EntityKind::DataProperty, "owl:DatatypeProperty"),
        (EntityKind::AnnotationProperty, "owl:AnnotationProperty"),
        (EntityKind::NamedIndividual, "owl:NamedIndividual"),
    ];
    for (kind, name) in kinds {
        assert_eq!(kind_text(kind), name);
        assert_eq!(kind_from_text(name), Some(kind));
        assert_eq!(KindSet::empty().with(kind).single(), Some(kind));
    }
    assert_eq!(kind_from_text("Class"), None);
    assert_eq!(KindSet::empty().single(), None);
}

#[test]
fn types_from_text_and_into_text() {
    let ontology = r#"[
        {"subject":"ex:Dog","predicate":"type","object":"owl:Class"},
        {"subject":"ex:hasPart","predicate":"type","object":"owl:ObjectProperty"},
        {"subject":"ex:Dog","predicate":"subClassOf","object":"ex:Animal","graph":"g"}
    ]"#;
    let map = extract_types(ontology).unwrap();
    assert_eq!(map.get("ex:Dog"), Some(KindSet::empty().with(EntityKind::Class)));
    assert_eq!(map.get("ex:Animal"), None);
    let text = ofn_typing(r#"["SubClassOf","ex:Dog","ex:Animal"]"#, &map).unwrap();
    assert_eq!(text, r#"["SubClassOf",["Class","ex:Dog"],"ex:Animal"]"#);
}

#[test]
fn typing_reports_bad_input() {
    let map = TypeMap::new();
    assert_eq!(ofn_typing("", &map), Err(Error::Syntax));
    assert_eq!(ofn_typing("[1]", &map), Err(Error::Grammar));
    assert_eq!(extract_types("nothing"), Err(Error::Syntax).map(|_: ()| TypeMap::new()));
    assert_eq!(extract_types(r#""a""#), Err(Error::MalformedObject));
    assert_eq!(extract_types(r#"[{"subject":1,"predicate":"type","object":"a"}]"#), Err(Error::MalformedObject));
}
