//! The words that stand at the head of a written expression.
use vstd::prelude::*;
use crate::ofn::{EntityKind, Op};
use crate::text::str_eq;

verus! {

/// What the word at the head of a written expression announces.
#[derive(Clone, Copy, Debug, PartialEq, Eq, Structural)]
pub enum Head {
    /// A literal.
    Literal,
    /// An entity, of the given kind or of none that is settled.
    Entity(Option<EntityKind>),
    /// An operator with its arguments.
    Operator(Op),
}

/// The word that announces `head`.
pub open spec fn head_name(head: Head) -> Seq<char> {
    match head {
        Head::Literal => "Literal"@,
        Head::Entity(None) => "Entity"@,
        Head::Entity(Some(EntityKind::Class)) => "Class"@,
        Head::Entity(Some(EntityKind::Datatype)) => "Datatype"@,
        Head::Entity(Some(EntityKind::ObjectProperty)) => "ObjectProperty"@,
        Head::Entity(Some(EntityKind::DataProperty)) => "DataProperty"@,
        Head::Entity(Some(EntityKind::AnnotationProperty)) => "AnnotationProperty"@,
        Head::Entity(Some(EntityKind::NamedIndividual)) => "NamedIndividual"@,
        Head::Operator(Op::ObjectIntersectionOf) => "ObjectIntersectionOf"@,
        Head::Operator(Op::ObjectUnionOf) => "ObjectUnionOf"@,
        Head::Operator(Op::ObjectComplementOf) => "ObjectComplementOf"@,
        Head::Operator(Op::ObjectOneOf) => "ObjectOneOf"@,
        Head::Operator(Op::ObjectSomeValuesFrom) => "ObjectSomeValuesFrom"@,
        Head::Operator(Op::ObjectAllValuesFrom) => "ObjectAllValuesFrom"@,
        Head::Operator(Op::ObjectHasValue) => "ObjectHasValue"@,
        Head::Operator(Op::ObjectHasSelf) => "ObjectHasSelf"@,
        Head::Operator(Op::ObjectMinCardinality) => "ObjectMinCardinality"@,
        Head::Operator(Op::ObjectMaxCardinality) => "ObjectMaxCardinality"@,
        Head::Operator(Op::ObjectExactCardinality) => "ObjectExactCardinality"@,
        Head::Operator(Op::DataSomeValuesFrom) => "DataSomeValuesFrom"@,
        Head::Operator(Op::DataAllValuesFrom) => "DataAllValuesFrom"@,
        Head::Operator(Op::DataHasValue) => "DataHasValue"@,
        Head::Operator(Op::DataMinCardinality) => "DataMinCardinality"@,
        Head::Operator(Op::DataMaxCardinality) => "DataMaxCardinality"@,
        Head::Operator(Op::DataExactCardinality) => "DataExactCardinality"@,
        Head::Operator(Op::ObjectInverseOf) => "ObjectInverseOf"@,
        Head::Operator(Op::ObjectPropertyChain) => "ObjectPropertyChain"@,
        Head::Operator(Op::DataIntersectionOf) => "DataIntersectionOf"@,
        Head::Operator(Op::DataUnionOf) => "DataUnionOf"@,
        Head::Operator(Op::DataComplementOf) => "DataComplementOf"@,
        Head::Operator(Op::DataOneOf) => "DataOneOf"@,
        Head::Operator(Op::Declaration) => "Declaration"@,
        Head::Operator(Op::SubClassOf) => "SubClassOf"@,
        Head::Operator(Op::EquivalentClasses) => "EquivalentClasses"@,
        Head::Operator(Op::DisjointClasses) => "DisjointClasses"@,
        Head::Operator(Op::DisjointUnion) => "DisjointUnion"@,
        Head::Operator(Op::SubObjectPropertyOf) => "SubObjectPropertyOf"@,
        Head::Operator(Op::EquivalentObjectProperties) => "EquivalentObjectProperties"@,
        Head::Operator(Op::DisjointObjectProperties) => "DisjointObjectProperties"@,
        Head::Operator(Op::InverseObjectProperties) => "InverseObjectProperties"@,
        Head::Operator(Op::ObjectPropertyDomain) => "ObjectPropertyDomain"@,
        Head::Operator(Op::ObjectPropertyRange) => "ObjectPropertyRange"@,
        Head::Operator(Op::FunctionalObjectProperty) => "FunctionalObjectProperty"@,
        Head::Operator(Op::InverseFunctionalObjectProperty) => "InverseFunctionalObjectProperty"@,
        Head::Operator(Op::ReflexiveObjectProperty) => "ReflexiveObjectProperty"@,
        Head::Operator(Op::IrreflexiveObjectProperty) => "IrreflexiveObjectProperty"@,
        Head::Operator(Op::SymmetricObjectProperty) => "SymmetricObjectProperty"@,
        Head::Operator(Op::AsymmetricObjectProperty) => "AsymmetricObjectProperty"@,
        Head::Operator(Op::TransitiveObjectProperty) => "TransitiveObjectProperty"@,
        Head::Operator(Op::SubDataPropertyOf) => "SubDataPropertyOf"@,
        Head::Operator(Op::EquivalentDataProperties) => "EquivalentDataProperties"@,
        Head::Operator(Op::DisjointDataProperties) => "DisjointDataProperties"@,
        Head::Operator(Op::DataPropertyDomain) => "DataPropertyDomain"@,
        Head::Operator(Op::DataPropertyRange) => "DataPropertyRange"@,
        Head::Operator(Op::FunctionalDataProperty) => "FunctionalDataProperty"@,
        Head::Operator(Op::SameIndividual) => "SameIndividual"@,
        Head::Operator(Op::DifferentIndividuals) => "DifferentIndividuals"@,
        Head::Operator(Op::ClassAssertion) => "ClassAssertion"@,
        Head::Operator(Op::ObjectPropertyAssertion) => "ObjectPropertyAssertion"@,
        Head::Operator(Op::NegativeObjectPropertyAssertion) => "NegativeObjectPropertyAssertion"@,
        Head::Operator(Op::DataPropertyAssertion) => "DataPropertyAssertion"@,
        Head::Operator(Op::NegativeDataPropertyAssertion) => "NegativeDataPropertyAssertion"@,
        Head::Operator(Op::AnnotationAssertion) => "AnnotationAssertion"@,
        Head::Operator(Op::SubAnnotationPropertyOf) => "SubAnnotationPropertyOf"@,
        Head::Operator(Op::AnnotationPropertyDomain) => "AnnotationPropertyDomain"@,
        Head::Operator(Op::AnnotationPropertyRange) => "AnnotationPropertyRange"@,
    }
}

/// The word that announces `head`.
pub fn head_text(head: Head) -> (r: &'static str)
    ensures
        r@ == head_name(head),
{
    match head {
        Head::Literal => "Literal",
        Head::Entity(None) => "Entity",
        Head::Entity(Some(EntityKind::Class)) => "Class",
        Head::Entity(Some(EntityKind::Datatype)) => "Datatype",
        Head::Entity(Some(EntityKind::ObjectProperty)) => "ObjectProperty",
        Head::Entity(Some(EntityKind::DataProperty)) => "DataProperty",
        Head::Entity(Some(EntityKind::AnnotationProperty)) => "AnnotationProperty",
        Head::Entity(Some(EntityKind::NamedIndividual)) => "NamedIndividual",
        Head::Operator(Op::ObjectIntersectionOf) => "ObjectIntersectionOf",
        Head::Operator(Op::ObjectUnionOf) => "ObjectUnionOf",
        Head::Operator(Op::ObjectComplementOf) => "ObjectComplementOf",
        Head::Operator(Op::ObjectOneOf) => "ObjectOneOf",
        Head::Operator(Op::ObjectSomeValuesFrom) => "ObjectSomeValuesFrom",
        Head::Operator(Op::ObjectAllValuesFrom) => "ObjectAllValuesFrom",
        Head::Operator(Op::ObjectHasValue) => "ObjectHasValue",
        Head::Operator(Op::ObjectHasSelf) => "ObjectHasSelf",
        Head::Operator(Op::ObjectMinCardinality) => "ObjectMinCardinality",
        Head::Operator(Op::ObjectMaxCardinality) => "ObjectMaxCardinality",
        Head::Operator(Op::ObjectExactCardinality) => "ObjectExactCardinality",
        Head::Operator(Op::DataSomeValuesFrom) => "DataSomeValuesFrom",
        Head::Operator(Op::DataAllValuesFrom) => "DataAllValuesFrom",
        Head::Operator(Op::DataHasValue) => "DataHasValue",
        Head::Operator(Op::DataMinCardinality) => "DataMinCardinality",
        Head::Operator(Op::DataMaxCardinality) => "DataMaxCardinality",
        Head::Operator(Op::DataExactCardinality) => "DataExactCardinality",
        Head::Operator(Op::ObjectInverseOf) => "ObjectInverseOf",
        Head::Operator(Op::ObjectPropertyChain) => "ObjectPropertyChain",
        Head::Operator(Op::DataIntersectionOf) => "DataIntersectionOf",
        Head::Operator(Op::DataUnionOf) => "DataUnionOf",
        Head::Operator(Op::DataComplementOf) => "DataComplementOf",
        Head::Operator(Op::DataOneOf) => "DataOneOf",
        Head::Operator(Op::Declaration) => "Declaration",
        Head::Operator(Op::SubClassOf) => "SubClassOf",
        Head::Operator(Op::EquivalentClasses) => "EquivalentClasses",
        Head::Operator(Op::DisjointClasses) => "DisjointClasses",
        Head::Operator(Op::DisjointUnion) => "DisjointUnion",
        Head::Operator(Op::SubObjectPropertyOf) => "SubObjectPropertyOf",
        Head::Operator(Op::EquivalentObjectProperties) => "EquivalentObjectProperties",
        Head::Operator(Op::DisjointObjectProperties) => "DisjointObjectProperties",
        Head::Operator(Op::InverseObjectProperties) => "InverseObjectProperties",
        Head::Operator(Op::ObjectPropertyDomain) => "ObjectPropertyDomain",
        Head::Operator(Op::ObjectPropertyRange) => "ObjectPropertyRange",
        Head::Operator(Op::FunctionalObjectProperty) => "FunctionalObjectProperty",
        Head::Operator(Op::InverseFunctionalObjectProperty) => "InverseFunctionalObjectProperty",
        Head::Operator(Op::ReflexiveObjectProperty) => "ReflexiveObjectProperty",
        Head::Operator(Op::IrreflexiveObjectProperty) => "IrreflexiveObjectProperty",
        Head::Operator(Op::SymmetricObjectProperty) => "SymmetricObjectProperty",
        Head::Operator(Op::AsymmetricObjectProperty) => "AsymmetricObjectProperty",
        Head::Operator(Op::TransitiveObjectProperty) => "TransitiveObjectProperty",
        Head::Operator(Op::SubDataPropertyOf) => "SubDataPropertyOf",
        Head::Operator(Op::EquivalentDataProperties) => "EquivalentDataProperties",
        Head::Operator(Op::DisjointDataProperties) => "DisjointDataProperties",
        Head::Operator(Op::DataPropertyDomain) => "DataPropertyDomain",
        Head::Operator(Op::DataPropertyRange) => "DataPropertyRange",
        Head::Operator(Op::FunctionalDataProperty) => "FunctionalDataProperty",
        Head::Operator(Op::SameIndividual) => "SameIndividual",
        Head::Operator(Op::DifferentIndividuals) => "DifferentIndividuals",
        Head::Operator(Op::ClassAssertion) => "ClassAssertion",
        Head::Operator(Op::ObjectPropertyAssertion) => "ObjectPropertyAssertion",
        Head::Operator(Op::NegativeObjectPropertyAssertion) => "NegativeObjectPropertyAssertion",
        Head::Operator(Op::DataPropertyAssertion) => "DataPropertyAssertion",
        Head::Operator(Op::NegativeDataPropertyAssertion) => "NegativeDataPropertyAssertion",
        Head::Operator(Op::AnnotationAssertion) => "AnnotationAssertion",
        Head::Operator(Op::SubAnnotationPropertyOf) => "SubAnnotationPropertyOf",
        Head::Operator(Op::AnnotationPropertyDomain) => "AnnotationPropertyDomain",
        Head::Operator(Op::AnnotationPropertyRange) => "AnnotationPropertyRange",
    }
}

/// What `name` announces, if it is one of the words.
pub open spec fn head_of(name: Seq<char>) -> Option<Head> {
    if name == "Literal"@ {
        Some(Head::Literal)
    } else if name == "Entity"@ {
        Some(Head::Entity(None))
    } else if name == "Class"@ {
        Some(Head::Entity(Some(EntityKind::Class)))
    } else if name == "Datatype"@ {
        Some(Head::Entity(Some(EntityKind::Datatype)))
    } else if name == "ObjectProperty"@ {
        Some(Head::Entity(Some(EntityKind::ObjectProperty)))
    } else if name == "DataProperty"@ {
        Some(Head::Entity(Some(EntityKind::DataProperty)))
    } else if name == "AnnotationProperty"@ {
        Some(Head::Entity(Some(EntityKind::AnnotationProperty)))
    } else if name == "NamedIndividual"@ {
        Some(Head::Entity(Some(EntityKind::NamedIndividual)))
    } else if name == "ObjectIntersectionOf"@ {
        Some(Head::Operator(Op::ObjectIntersectionOf))
    } else if name == "ObjectUnionOf"@ {
        Some(Head::Operator(Op::ObjectUnionOf))
    } else if name == "ObjectComplementOf"@ {
        Some(Head::Operator(Op::ObjectComplementOf))
    } else if name == "ObjectOneOf"@ {
        Some(Head::Operator(Op::ObjectOneOf))
    } else if name == "ObjectSomeValuesFrom"@ {
        Some(Head::Operator(Op::ObjectSomeValuesFrom))
    } else if name == "ObjectAllValuesFrom"@ {
        Some(Head::Operator(Op::ObjectAllValuesFrom))
    } else if name == "ObjectHasValue"@ {
        Some(Head::Operator(Op::ObjectHasValue))
    } else if name == "ObjectHasSelf"@ {
        Some(Head::Operator(Op::ObjectHasSelf))
    } else if name == "ObjectMinCardinality"@ {
        Some(Head::Operator(Op::ObjectMinCardinality))
    } else if name == "ObjectMaxCardinality"@ {
        Some(Head::Operator(Op::ObjectMaxCardinality))
    } else if name == "ObjectExactCardinality"@ {
        Some(Head::Operator(Op::ObjectExactCardinality))
    } else if name == "DataSomeValuesFrom"@ {
        Some(Head::Operator(Op::DataSomeValuesFrom))
    } else if name == "DataAllValuesFrom"@ {
        Some(Head::Operator(Op::DataAllValuesFrom))
    } else if name == "DataHasValue"@ {
        Some(Head::Operator(Op::DataHasValue))
    } else if name == "DataMinCardinality"@ {
        Some(Head::Operator(Op::DataMinCardinality))
    } else if name == "DataMaxCardinality"@ {
        Some(Head::Operator(Op::DataMaxCardinality))
    } else if name == "DataExactCardinality"@ {
        Some(Head::Operator(Op::DataExactCardinality))
    } else if name == "ObjectInverseOf"@ {
        Some(Head::Operator(Op::ObjectInverseOf))
    } else if name == "ObjectPropertyChain"@ {
        Some(Head::Operator(Op::ObjectPropertyChain))
    } else if name == "DataIntersectionOf"@ {
        Some(Head::Operator(Op::DataIntersectionOf))
    } else if name == "DataUnionOf"@ {
        Some(Head::Operator(Op::DataUnionOf))
    } else if name == "DataComplementOf"@ {
        Some(Head::Operator(Op::DataComplementOf))
    } else if name == "DataOneOf"@ {
        Some(Head::Operator(Op::DataOneOf))
    } else if name == "Declaration"@ {
        Some(Head::Operator(Op::Declaration))
    } else if name == "SubClassOf"@ {
        Some(Head::Operator(Op::SubClassOf))
    } else if name == "EquivalentClasses"@ {
        Some(Head::Operator(Op::EquivalentClasses))
    } else if name == "DisjointClasses"@ {
        Some(Head::Operator(Op::DisjointClasses))
    } else if name == "DisjointUnion"@ {
        Some(Head::Operator(Op::DisjointUnion))
    } else if name == "SubObjectPropertyOf"@ {
        Some(Head::Operator(Op::SubObjectPropertyOf))
    } else if name == "EquivalentObjectProperties"@ {
        Some(Head::Operator(Op::EquivalentObjectProperties))
    } else if name == "DisjointObjectProperties"@ {
        Some(Head::Operator(Op::DisjointObjectProperties))
    } else if name == "InverseObjectProperties"@ {
        Some(Head::Operator(Op::InverseObjectProperties))
    } else if name == "ObjectPropertyDomain"@ {
        Some(Head::Operator(Op::ObjectPropertyDomain))
    } else if name == "ObjectPropertyRange"@ {
        Some(Head::Operator(Op::ObjectPropertyRange))
    } else if name == "FunctionalObjectProperty"@ {
        Some(Head::Operator(Op::FunctionalObjectProperty))
    } else if name == "InverseFunctionalObjectProperty"@ {
        Some(Head::Operator(Op::InverseFunctionalObjectProperty))
    } else if name == "ReflexiveObjectProperty"@ {
        Some(Head::Operator(Op::ReflexiveObjectProperty))
    } else if name == "IrreflexiveObjectProperty"@ {
        Some(Head::Operator(Op::IrreflexiveObjectProperty))
    } else if name == "SymmetricObjectProperty"@ {
        Some(Head::Operator(Op::SymmetricObjectProperty))
    } else if name == "AsymmetricObjectProperty"@ {
        Some(Head::Operator(Op::AsymmetricObjectProperty))
    } else if name == "TransitiveObjectProperty"@ {
        Some(Head::Operator(Op::TransitiveObjectProperty))
    } else if name == "SubDataPropertyOf"@ {
        Some(Head::Operator(Op::SubDataPropertyOf))
    } else if name == "EquivalentDataProperties"@ {
        Some(Head::Operator(Op::EquivalentDataProperties))
    } else if name == "DisjointDataProperties"@ {
        Some(Head::Operator(Op::DisjointDataProperties))
    } else if name == "DataPropertyDomain"@ {
        Some(Head::Operator(Op::DataPropertyDomain))
    } else if name == "DataPropertyRange"@ {
        Some(Head::Operator(Op::DataPropertyRange))
    } else if name == "FunctionalDataProperty"@ {
        Some(Head::Operator(Op::FunctionalDataProperty))
    } else if name == "SameIndividual"@ {
        Some(Head::Operator(Op::SameIndividual))
    } else if name == "DifferentIndividuals"@ {
        Some(Head::Operator(Op::DifferentIndividuals))
    } else if name == "ClassAssertion"@ {
        Some(Head::Operator(Op::ClassAssertion))
    } else if name == "ObjectPropertyAssertion"@ {
        Some(Head::Operator(Op::ObjectPropertyAssertion))
    } else if name == "NegativeObjectPropertyAssertion"@ {
        Some(Head::Operator(Op::NegativeObjectPropertyAssertion))
    } else if name == "DataPropertyAssertion"@ {
        Some(Head::Operator(Op::DataPropertyAssertion))
    } else if name == "NegativeDataPropertyAssertion"@ {
        Some(Head::Operator(Op::NegativeDataPropertyAssertion))
    } else if name == "AnnotationAssertion"@ {
        Some(Head::Operator(Op::AnnotationAssertion))
    } else if name == "SubAnnotationPropertyOf"@ {
        Some(Head::Operator(Op::SubAnnotationPropertyOf))
    } else if name == "AnnotationPropertyDomain"@ {
        Some(Head::Operator(Op::AnnotationPropertyDomain))
    } else if name == "AnnotationPropertyRange"@ {
        Some(Head::Operator(Op::AnnotationPropertyRange))
    } else {
        None
    }
}

/// What `name` announces, if it is one of the words.
pub fn classify(name: &str) -> (r: Option<Head>)
    ensures
        r == head_of(name@),
{
    if str_eq(name, "Literal") {
        Some(Head::Literal)
    } else if str_eq(name, "Entity") {
        Some(Head::Entity(None))
    } else if str_eq(name, "Class") {
        Some(Head::Entity(Some(EntityKind::Class)))
    } else if str_eq(name, "Datatype") {
        Some(Head::Entity(Some(EntityKind::Datatype)))
    } else if str_eq(name, "ObjectProperty") {
        Some(Head::Entity(Some(EntityKind::ObjectProperty)))
    } else if str_eq(name, "DataProperty") {
        Some(Head::Entity(Some(EntityKind::DataProperty)))
    } else if str_eq(name, "AnnotationProperty") {
        Some(Head::Entity(Some(EntityKind::AnnotationProperty)))
    } else if str_eq(name, "NamedIndividual") {
        Some(Head::Entity(Some(EntityKind::NamedIndividual)))
    } else if str_eq(name, "ObjectIntersectionOf") {
        Some(Head::Operator(Op::ObjectIntersectionOf))
    } else if str_eq(name, "ObjectUnionOf") {
        Some(Head::Operator(Op::ObjectUnionOf))
    } else if str_eq(name, "ObjectComplementOf") {
        Some(Head::Operator(Op::ObjectComplementOf))
    } else if str_eq(name, "ObjectOneOf") {
        Some(Head::Operator(Op::ObjectOneOf))
    } else if str_eq(name, "ObjectSomeValuesFrom") {
        Some(Head::Operator(Op::ObjectSomeValuesFrom))
    } else if str_eq(name, "ObjectAllValuesFrom") {
        Some(Head::Operator(Op::ObjectAllValuesFrom))
    } else if str_eq(name, "ObjectHasValue") {
        Some(Head::Operator(Op::ObjectHasValue))
    } else if str_eq(name, "ObjectHasSelf") {
        Some(Head::Operator(Op::ObjectHasSelf))
    } else if str_eq(name, "ObjectMinCardinality") {
        Some(Head::Operator(Op::ObjectMinCardinality))
    } else if str_eq(name, "ObjectMaxCardinality") {
        Some(Head::Operator(Op::ObjectMaxCardinality))
    } else if str_eq(name, "ObjectExactCardinality") {
        Some(Head::Operator(Op::ObjectExactCardinality))
    } else if str_eq(name, "DataSomeValuesFrom") {
        Some(Head::Operator(Op::DataSomeValuesFrom))
    } else if str_eq(name, "DataAllValuesFrom") {
        Some(Head::Operator(Op::DataAllValuesFrom))
    } else if str_eq(name, "DataHasValue") {
        Some(Head::Operator(Op::DataHasValue))
    } else if str_eq(name, "DataMinCardinality") {
        Some(Head::Operator(Op::DataMinCardinality))
    } else if str_eq(name, "DataMaxCardinality") {
        Some(Head::Operator(Op::DataMaxCardinality))
    } else if str_eq(name, "DataExactCardinality") {
        Some(Head::Operator(Op::DataExactCardinality))
    } else if str_eq(name, "ObjectInverseOf") {
        Some(Head::Operator(Op::ObjectInverseOf))
    } else if str_eq(name, "ObjectPropertyChain") {
        Some(Head::Operator(Op::ObjectPropertyChain))
    } else if str_eq(name, "DataIntersectionOf") {
        Some(Head::Operator(Op::DataIntersectionOf))
    } else if str_eq(name, "DataUnionOf") {
        Some(Head::Operator(Op::DataUnionOf))
    } else if str_eq(name, "DataComplementOf") {
        Some(Head::Operator(Op::DataComplementOf))
    } else if str_eq(name, "DataOneOf") {
        Some(Head::Operator(Op::DataOneOf))
    } else if str_eq(name, "Declaration") {
        Some(Head::Operator(Op::Declaration))
    } else if str_eq(name, "SubClassOf") {
        Some(Head::Operator(Op::SubClassOf))
    } else if str_eq(name, "EquivalentClasses") {
        Some(Head::Operator(Op::EquivalentClasses))
    } else if str_eq(name, "DisjointClasses") {
        Some(Head::Operator(Op::DisjointClasses))
    } else if str_eq(name, "DisjointUnion") {
        Some(Head::Operator(Op::DisjointUnion))
    } else if str_eq(name, "SubObjectPropertyOf") {
        Some(Head::Operator(Op::SubObjectPropertyOf))
    } else if str_eq(name, "EquivalentObjectProperties") {
        Some(Head::Operator(Op::EquivalentObjectProperties))
    } else if str_eq(name, "DisjointObjectProperties") {
        Some(Head::Operator(Op::DisjointObjectProperties))
    } else if str_eq(name, "InverseObjectProperties") {
        Some(Head::Operator(Op::InverseObjectProperties))
    } else if str_eq(name, "ObjectPropertyDomain") {
        Some(Head::Operator(Op::ObjectPropertyDomain))
    } else if str_eq(name, "ObjectPropertyRange") {
        Some(Head::Operator(Op::ObjectPropertyRange))
    } else if str_eq(name, "FunctionalObjectProperty") {
        Some(Head::Operator(Op::FunctionalObjectProperty))
    } else if str_eq(name, "InverseFunctionalObjectProperty") {
        Some(Head::Operator(Op::InverseFunctionalObjectProperty))
    } else if str_eq(name, "ReflexiveObjectProperty") {
        Some(Head::Operator(Op::ReflexiveObjectProperty))
    } else if str_eq(name, "IrreflexiveObjectProperty") {
        Some(Head::Operator(Op::IrreflexiveObjectProperty))
    } else if str_eq(name, "SymmetricObjectProperty") {
        Some(Head::Operator(Op::SymmetricObjectProperty))
    } else if str_eq(name, "AsymmetricObjectProperty") {
        Some(Head::Operator(Op::AsymmetricObjectProperty))
    } else if str_eq(name, "TransitiveObjectProperty") {
        Some(Head::Operator(Op::TransitiveObjectProperty))
    } else if str_eq(name, "SubDataPropertyOf") {
        Some(Head::Operator(Op::SubDataPropertyOf))
    } else if str_eq(name, "EquivalentDataProperties") {
        Some(Head::Operator(Op::EquivalentDataProperties))
    } else if str_eq(name, "DisjointDataProperties") {
        Some(Head::Operator(Op::DisjointDataProperties))
    } else if str_eq(name, "DataPropertyDomain") {
        Some(Head::Operator(Op::DataPropertyDomain))
    } else if str_eq(name, "DataPropertyRange") {
        Some(Head::Operator(Op::DataPropertyRange))
    } else if str_eq(name, "FunctionalDataProperty") {
        Some(Head::Operator(Op::FunctionalDataProperty))
    } else if str_eq(name, "SameIndividual") {
        Some(Head::Operator(Op::SameIndividual))
    } else if str_eq(name, "DifferentIndividuals") {
        Some(Head::Operator(Op::DifferentIndividuals))
    } else if str_eq(name, "ClassAssertion") {
        Some(Head::Operator(Op::ClassAssertion))
    } else if str_eq(name, "ObjectPropertyAssertion") {
        Some(Head::Operator(Op::ObjectPropertyAssertion))
    } else if str_eq(name, "NegativeObjectPropertyAssertion") {
        Some(Head::Operator(Op::NegativeObjectPropertyAssertion))
    } else if str_eq(name, "DataPropertyAssertion") {
        Some(Head::Operator(Op::DataPropertyAssertion))
    } else if str_eq(name, "NegativeDataPropertyAssertion") {
        Some(Head::Operator(Op::NegativeDataPropertyAssertion))
    } else if str_eq(name, "AnnotationAssertion") {
        Some(Head::Operator(Op::AnnotationAssertion))
    } else if str_eq(name, "SubAnnotationPropertyOf") {
        Some(Head::Operator(Op::SubAnnotationPropertyOf))
    } else if str_eq(name, "AnnotationPropertyDomain") {
        Some(Head::Operator(Op::AnnotationPropertyDomain))
    } else if str_eq(name, "AnnotationPropertyRange") {
        Some(Head::Operator(Op::AnnotationPropertyRange))
    } else {
        None
    }
}

/// The character of `word` at `index`, or a blank where the word is shorter.
spec fn mark(word: Seq<char>, index: int) -> char {
    if 0 <= index < word.len() {
        word[index]
    } else {
        ' '
    }
}

/// What tells the words apart: the length of a word and three of its
/// characters.
spec fn marks(word: Seq<char>) -> (nat, char, char, char) {
    (word.len(), mark(word, 5), mark(word, 7), mark(word, 14))
}

/// The marks of every word.
proof fn reveal_words()
    ensures
        marks("Literal"@) == (7nat, 'a', ' ', ' '),
        marks("Entity"@) == (6nat, 'y', ' ', ' '),
        marks("Class"@) == (5nat, ' ', ' ', ' '),
        marks("Datatype"@) == (8nat, 'y', 'e', ' '),
        marks("ObjectProperty"@) == (14nat, 't', 'r', ' '),
        marks("DataProperty"@) == (12nat, 'r', 'p', ' '),
        marks("AnnotationProperty"@) == (18nat, 'a', 'i', 'e'),
        marks("NamedIndividual"@) == (15nat, 'I', 'd', 'l'),
        marks("ObjectIntersectionOf"@) == (20nat, 't', 'n', 't'),
        marks("ObjectUnionOf"@) == (13nat, 't', 'n', ' '),
        marks("ObjectComplementOf"@) == (18nat, 't', 'o', 'n'),
        marks("ObjectOneOf"@) == (11nat, 't', 'n', ' '),
        marks("ObjectSomeValuesFrom"@) == (20nat, 't', 'o', 'e'),
        marks("ObjectAllValuesFrom"@) == (19nat, 't', 'l', 's'),
        marks("ObjectHasValue"@) == (14nat, 't', 'a', ' '),
        marks("ObjectHasSelf"@) == (13nat, 't', 'a', ' '),
        marks("ObjectMinCardinality"@) == (20nat, 't', 'i', 'n'),
        marks("ObjectMaxCardinality"@) == (20nat, 't', 'a', 'n'),
        marks("ObjectExactCardinality"@) == (22nat, 't', 'x', 'd'),
        marks("DataSomeValuesFrom"@) == (18nat, 'o', 'e', 'F'),
        marks("DataAllValuesFrom"@) == (17nat, 'l', 'V', 'r'),
        marks("DataHasValue"@) == (12nat, 'a', 'V', ' '),
        marks("DataMinCardinality"@) == (18nat, 'i', 'C', 'l'),
        marks("DataMaxCardinality"@) == (18nat, 'a', 'C', 'l'),
        marks("DataExactCardinality"@) == (20nat, 'x', 'c', 'n'),
        marks("ObjectInverseOf"@) == (15nat, 't', 'n', 'f'),
        marks("ObjectPropertyChain"@) == (19nat, 't', 'r', 'C'),
        marks("DataIntersectionOf"@) == (18nat, 'n', 'e', 'o'),
        marks("DataUnionOf"@) == (11nat, 'n', 'o', ' '),
        marks("DataComplementOf"@) == (16nat, 'o', 'p', 'O'),
        marks("DataOneOf"@) == (9nat, 'n', 'O', ' '),
        marks("Declaration"@) == (11nat, 'r', 't', ' '),
        marks("SubClassOf"@) == (10nat, 'a', 's', ' '),
        marks("EquivalentClasses"@) == (17nat, 'a', 'e', 's'),
        marks("DisjointClasses"@) == (15nat, 'i', 't', 's'),
        marks("DisjointUnion"@) == (13nat, 'i', 't', ' '),
        marks("SubObjectPropertyOf"@) == (19nat, 'j', 'c', 'r'),
        marks("EquivalentObjectProperties"@) == (26nat, 'a', 'e', 'c'),
        marks("DisjointObjectProperties"@) == (24nat, 'i', 't', 'P'),
        marks("InverseObjectProperties"@) == (23nat, 's', 'O', 'r'),
        marks("ObjectPropertyDomain"@) == (20nat, 't', 'r', 'D'),
        marks("ObjectPropertyRange"@) == (19nat, 't', 'r', 'R'),
        marks("FunctionalObjectProperty"@) == (24nat, 'i', 'n', 'c'),
        marks("InverseFunctionalObjectProperty"@) == (31nat, 's', 'F', 'n'),
        marks("ReflexiveObjectProperty"@) == (23nat, 'x', 'v', 't'),
        marks("IrreflexiveObjectProperty"@) == (25nat, 'l', 'x', 'e'),
        marks("SymmetricObjectProperty"@) == (23nat, 't', 'i', 't'),
        marks("AsymmetricObjectProperty"@) == (24nat, 'e', 'r', 'c'),
        marks("TransitiveObjectProperty"@) == (24nat, 'i', 'i', 'c'),
        marks("SubDataPropertyOf"@) == (17nat, 't', 'P', 'y'),
        marks("EquivalentDataProperties"@) == (24nat, 'a', 'e', 'P'),
        marks("DisjointDataProperties"@) == (22nat, 'i', 't', 'o'),
        marks("DataPropertyDomain"@) == (18nat, 'r', 'p', 'm'),
        marks("DataPropertyRange"@) == (17nat, 'r', 'p', 'n'),
        marks("FunctionalDataProperty"@) == (22nat, 'i', 'n', 'P'),
        marks("SameIndividual"@) == (14nat, 'n', 'i', ' '),
        marks("DifferentIndividuals"@) == (20nat, 'r', 'n', 'i'),
        marks("ClassAssertion"@) == (14nat, 'A', 's', ' '),
        marks("ObjectPropertyAssertion"@) == (23nat, 't', 'r', 'A'),
        marks("NegativeObjectPropertyAssertion"@) == (31nat, 'i', 'e', 'P'),
        marks("DataPropertyAssertion"@) == (21nat, 'r', 'p', 's'),
        marks("NegativeDataPropertyAssertion"@) == (29nat, 'i', 'e', 'o'),
        marks("AnnotationAssertion"@) == (19nat, 'a', 'i', 'r'),
        marks("SubAnnotationPropertyOf"@) == (23nat, 'n', 't', 'r'),
        marks("AnnotationPropertyDomain"@) == (24nat, 'a', 'i', 'e'),
        marks("AnnotationPropertyRange"@) == (23nat, 'a', 'i', 'e'),
{
    reveal_strlit("Literal");
    reveal_strlit("Entity");
    reveal_strlit("Class");
    reveal_strlit("Datatype");
    reveal_strlit("ObjectProperty");
    reveal_strlit("DataProperty");
    reveal_strlit("AnnotationProperty");
    reveal_strlit("NamedIndividual");
    reveal_strlit("ObjectIntersectionOf");
    reveal_strlit("ObjectUnionOf");
    reveal_strlit("ObjectComplementOf");
    reveal_strlit("ObjectOneOf");
    reveal_strlit("ObjectSomeValuesFrom");
    reveal_strlit("ObjectAllValuesFrom");
    reveal_strlit("ObjectHasValue");
    reveal_strlit("ObjectHasSelf");
    reveal_strlit("ObjectMinCardinality");
    reveal_strlit("ObjectMaxCardinality");
    reveal_strlit("ObjectExactCardinality");
    reveal_strlit("DataSomeValuesFrom");
    reveal_strlit("DataAllValuesFrom");
    reveal_strlit("DataHasValue");
    reveal_strlit("DataMinCardinality");
    reveal_strlit("DataMaxCardinality");
    reveal_strlit("DataExactCardinality");
    reveal_strlit("ObjectInverseOf");
    reveal_strlit("ObjectPropertyChain");
    reveal_strlit("DataIntersectionOf");
    reveal_strlit("DataUnionOf");
    reveal_strlit("DataComplementOf");
    reveal_strlit("DataOneOf");
    reveal_strlit("Declaration");
    reveal_strlit("SubClassOf");
    reveal_strlit("EquivalentClasses");
    reveal_strlit("DisjointClasses");
    reveal_strlit("DisjointUnion");
    reveal_strlit("SubObjectPropertyOf");
    reveal_strlit("EquivalentObjectProperties");
    reveal_strlit("DisjointObjectProperties");
    reveal_strlit("InverseObjectProperties");
    reveal_strlit("ObjectPropertyDomain");
    reveal_strlit("ObjectPropertyRange");
    reveal_strlit("FunctionalObjectProperty");
    reveal_strlit("InverseFunctionalObjectProperty");
    reveal_strlit("ReflexiveObjectProperty");
    reveal_strlit("IrreflexiveObjectProperty");
    reveal_strlit("SymmetricObjectProperty");
    reveal_strlit("AsymmetricObjectProperty");
    reveal_strlit("TransitiveObjectProperty");
    reveal_strlit("SubDataPropertyOf");
    reveal_strlit("EquivalentDataProperties");
    reveal_strlit("DisjointDataProperties");
    reveal_strlit("DataPropertyDomain");
    reveal_strlit("DataPropertyRange");
    reveal_strlit("FunctionalDataProperty");
    reveal_strlit("SameIndividual");
    reveal_strlit("DifferentIndividuals");
    reveal_strlit("ClassAssertion");
    reveal_strlit("ObjectPropertyAssertion");
    reveal_strlit("NegativeObjectPropertyAssertion");
    reveal_strlit("DataPropertyAssertion");
    reveal_strlit("NegativeDataPropertyAssertion");
    reveal_strlit("AnnotationAssertion");
    reveal_strlit("SubAnnotationPropertyOf");
    reveal_strlit("AnnotationPropertyDomain");
    reveal_strlit("AnnotationPropertyRange");
}

/// No two heads share a word: the word of a head announces that head.
pub proof fn lemma_head_of_name(head: Head)
    ensures
        head_of(head_name(head)) == Some(head),
{
    reveal_words();
}

/// A word that announces a head is the word of that head.
pub proof fn lemma_name_of_head(name: Seq<char>)
    ensures
        head_of(name) matches Some(head) ==> head_name(head) == name,
{
}

} // verus!
