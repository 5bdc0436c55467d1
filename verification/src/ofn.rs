//! The expression tree of the functional syntax, and the grammar that says
//! which trees are well formed.
use vstd::prelude::*;
use crate::text::{clone_opt, opt_text};

verus! {

/// The deepest nesting that a well-formed expression may have.
pub const MAX_HEIGHT: usize = 100;

/// What kind of thing an identifier denotes.
#[derive(Clone, Copy, Debug, PartialEq, Eq, Hash, Structural)]
pub enum EntityKind {
    Class,
    Datatype,
    ObjectProperty,
    DataProperty,
    AnnotationProperty,
    NamedIndividual,
}

/// What a position in an expression asks of the expression that fills it.
#[derive(Clone, Copy, Debug, PartialEq, Eq, Structural)]
pub enum Sort {
    /// A class expression.
    Class,
    /// An object property expression.
    ObjectProperty,
    /// An object property expression or a property chain.
    SubObjectProperty,
    /// A property chain. No position asks for one alone; it is what a chain is.
    PropertyChain,
    /// A data property.
    DataProperty,
    /// A data range.
    DataRange,
    /// An individual.
    Individual,
    /// An annotation property.
    AnnotationProperty,
    /// A literal.
    Literal,
    /// An entity of whatever kind.
    AnyEntity,
    /// An entity of whatever kind, or a literal.
    AnyValue,
    /// An axiom.
    Axiom,
    /// Anything: the position of a root.
    Any,
}

impl Sort {
    /// The kind that an entity written in a position of this sort must have,
    /// where the position settles it.
    pub open spec fn spec_kind(self) -> Option<EntityKind> {
        match self {
            Sort::Class => Some(EntityKind::Class),
            Sort::ObjectProperty => Some(EntityKind::ObjectProperty),
            Sort::SubObjectProperty => Some(EntityKind::ObjectProperty),
            Sort::DataProperty => Some(EntityKind::DataProperty),
            Sort::DataRange => Some(EntityKind::Datatype),
            Sort::Individual => Some(EntityKind::NamedIndividual),
            Sort::AnnotationProperty => Some(EntityKind::AnnotationProperty),
            _ => None,
        }
    }

    /// The kind that an entity written in a position of this sort must have,
    /// where the position settles it.
    #[verifier::when_used_as_spec(spec_kind)]
    pub fn kind(self) -> (r: Option<EntityKind>)
        ensures
            r == self.spec_kind(),
    {
        match self {
            Sort::Class => Some(EntityKind::Class),
            Sort::ObjectProperty => Some(EntityKind::ObjectProperty),
            Sort::SubObjectProperty => Some(EntityKind::ObjectProperty),
            Sort::DataProperty => Some(EntityKind::DataProperty),
            Sort::DataRange => Some(EntityKind::Datatype),
            Sort::Individual => Some(EntityKind::NamedIndividual),
            Sort::AnnotationProperty => Some(EntityKind::AnnotationProperty),
            _ => None,
        }
    }

    /// Whether a position of this sort takes entities at all.
    pub open spec fn spec_takes_entities(self) -> bool {
        self != Sort::Literal && self != Sort::Axiom && self != Sort::PropertyChain
    }

    /// Whether a position of this sort takes entities at all.
    #[verifier::when_used_as_spec(spec_takes_entities)]
    pub fn takes_entities(self) -> (r: bool)
        ensures
            r == self.spec_takes_entities(),
    {
        !(self == Sort::Literal || self == Sort::Axiom || self == Sort::PropertyChain)
    }

    /// Whether a position of this sort takes an entity of the given kind, or
    /// one whose kind is not settled.
    pub open spec fn spec_takes_entity(self, kind: Option<EntityKind>) -> bool {
        self.takes_entities() && (kind is None || self.kind() is None || self.kind() == kind)
    }

    /// Whether a position of this sort takes an entity of the given kind, or
    /// one whose kind is not settled.
    #[verifier::when_used_as_spec(spec_takes_entity)]
    pub fn takes_entity(self, kind: Option<EntityKind>) -> (r: bool)
        ensures
            r == self.spec_takes_entity(kind),
    {
        if !self.takes_entities() {
            return false;
        }
        match (kind, self.kind()) {
            (Some(have), Some(want)) => have == want,
            _ => true,
        }
    }

    /// Whether a position of this sort takes a literal.
    pub open spec fn spec_takes_literal(self) -> bool {
        self == Sort::Literal || self == Sort::AnyValue || self == Sort::Any
    }

    /// Whether a position of this sort takes a literal.
    #[verifier::when_used_as_spec(spec_takes_literal)]
    pub fn takes_literal(self) -> (r: bool)
        ensures
            r == self.spec_takes_literal(),
    {
        self == Sort::Literal || self == Sort::AnyValue || self == Sort::Any
    }

    /// Whether a position of this sort takes an operator whose result is of
    /// sort `result`.
    pub open spec fn spec_takes_result(self, result: Sort) -> bool {
        self == result || self == Sort::Any || (self == Sort::SubObjectProperty && (result
            == Sort::ObjectProperty || result == Sort::PropertyChain))
    }

    /// Whether a position of this sort takes an operator whose result is of
    /// sort `result`.
    #[verifier::when_used_as_spec(spec_takes_result)]
    pub fn takes_result(self, result: Sort) -> (r: bool)
        ensures
            r == self.spec_takes_result(result),
    {
        self == result || self == Sort::Any || (self == Sort::SubObjectProperty && (result
            == Sort::ObjectProperty || result == Sort::PropertyChain))
    }
}

/// The operators of the functional syntax that this library knows.
#[derive(Clone, Copy, Debug, PartialEq, Eq, Structural)]
pub enum Op {
    ObjectIntersectionOf,
    ObjectUnionOf,
    ObjectComplementOf,
    ObjectOneOf,
    ObjectSomeValuesFrom,
    ObjectAllValuesFrom,
    ObjectHasValue,
    ObjectHasSelf,
    ObjectMinCardinality,
    ObjectMaxCardinality,
    ObjectExactCardinality,
    DataSomeValuesFrom,
    DataAllValuesFrom,
    DataHasValue,
    DataMinCardinality,
    DataMaxCardinality,
    DataExactCardinality,
    ObjectInverseOf,
    ObjectPropertyChain,
    DataIntersectionOf,
    DataUnionOf,
    DataComplementOf,
    DataOneOf,
    Declaration,
    SubClassOf,
    EquivalentClasses,
    DisjointClasses,
    DisjointUnion,
    SubObjectPropertyOf,
    EquivalentObjectProperties,
    DisjointObjectProperties,
    InverseObjectProperties,
    ObjectPropertyDomain,
    ObjectPropertyRange,
    FunctionalObjectProperty,
    InverseFunctionalObjectProperty,
    ReflexiveObjectProperty,
    IrreflexiveObjectProperty,
    SymmetricObjectProperty,
    AsymmetricObjectProperty,
    TransitiveObjectProperty,
    SubDataPropertyOf,
    EquivalentDataProperties,
    DisjointDataProperties,
    DataPropertyDomain,
    DataPropertyRange,
    FunctionalDataProperty,
    SameIndividual,
    DifferentIndividuals,
    ClassAssertion,
    ObjectPropertyAssertion,
    NegativeObjectPropertyAssertion,
    DataPropertyAssertion,
    NegativeDataPropertyAssertion,
    AnnotationAssertion,
    SubAnnotationPropertyOf,
    AnnotationPropertyDomain,
    AnnotationPropertyRange,
}

/// What an operator builds and what it asks of its arguments: the sort of the
/// first, of the second and of every later argument, and how many there may be.
#[derive(Clone, Copy, Debug, PartialEq, Eq, Structural)]
pub struct Signature {
    pub result: Sort,
    pub first: Sort,
    pub second: Sort,
    pub rest: Sort,
    pub min: usize,
    pub max: Option<usize>,
}

impl Signature {
    /// The signature with these parts.
    pub open spec fn spec_of(
        result: Sort,
        first: Sort,
        second: Sort,
        rest: Sort,
        min: usize,
        max: Option<usize>,
    ) -> Signature {
        Signature { result, first, second, rest, min, max }
    }

    /// The signature with these parts.
    #[verifier::when_used_as_spec(spec_of)]
    pub fn of(
        result: Sort,
        first: Sort,
        second: Sort,
        rest: Sort,
        min: usize,
        max: Option<usize>,
    ) -> (r: Signature)
        ensures
            r == Signature::spec_of(result, first, second, rest, min, max),
    {
        Signature { result, first, second, rest, min, max }
    }

    /// The signature of an operator that asks the same of every argument.
    pub open spec fn spec_uniform(result: Sort, argument: Sort, min: usize, max: Option<usize>)
        -> Signature {
        Signature { result, first: argument, second: argument, rest: argument, min, max }
    }

    /// The signature of an operator that asks the same of every argument.
    #[verifier::when_used_as_spec(spec_uniform)]
    pub fn uniform(result: Sort, argument: Sort, min: usize, max: Option<usize>) -> (r: Signature)
        ensures
            r == Signature::spec_uniform(result, argument, min, max),
    {
        Signature { result, first: argument, second: argument, rest: argument, min, max }
    }

    /// The sort asked of the argument at `index`.
    pub open spec fn spec_argument(self, index: int) -> Sort {
        if index == 0 {
            self.first
        } else if index == 1 {
            self.second
        } else {
            self.rest
        }
    }

    /// The sort asked of the argument at `index`.
    pub fn argument(self, index: usize) -> (r: Sort)
        ensures
            r == self.spec_argument(index as int),
    {
        if index == 0 {
            self.first
        } else if index == 1 {
            self.second
        } else {
            self.rest
        }
    }

    /// Whether the operator takes `count` arguments.
    pub open spec fn spec_admits(self, count: nat) -> bool {
        self.min <= count && (self.max matches Some(most) ==> count <= most)
    }

    /// Whether the operator takes `count` arguments.
    pub fn admits(self, count: usize) -> (r: bool)
        ensures
            r == self.spec_admits(count as nat),
    {
        if count < self.min {
            return false;
        }
        match self.max {
            Some(most) => count <= most,
            None => true,
        }
    }
}

impl Op {
    /// The operator's signature.
    pub open spec fn spec_signature(self) -> Signature {
        match self {
            Op::ObjectIntersectionOf => Signature::uniform(Sort::Class, Sort::Class, 2, None),
            Op::ObjectUnionOf => Signature::uniform(Sort::Class, Sort::Class, 2, None),
            Op::ObjectComplementOf => Signature::uniform(Sort::Class, Sort::Class, 1, Some(1)),
            Op::ObjectOneOf => Signature::uniform(Sort::Class, Sort::Individual, 1, None),
            Op::ObjectSomeValuesFrom => Signature::of(
                Sort::Class,
                Sort::ObjectProperty,
                Sort::Class,
                Sort::Class,
                2,
                Some(2),
            ),
            Op::ObjectAllValuesFrom => Signature::of(
                Sort::Class,
                Sort::ObjectProperty,
                Sort::Class,
                Sort::Class,
                2,
                Some(2),
            ),
            Op::ObjectHasValue => Signature::of(
                Sort::Class,
                Sort::ObjectProperty,
                Sort::Individual,
                Sort::Individual,
                2,
                Some(2),
            ),
            Op::ObjectHasSelf => Signature::uniform(Sort::Class, Sort::ObjectProperty, 1, Some(1)),
            Op::ObjectMinCardinality => Signature::of(
                Sort::Class,
                Sort::Literal,
                Sort::ObjectProperty,
                Sort::Class,
                2,
                Some(3),
            ),
            Op::ObjectMaxCardinality => Signature::of(
                Sort::Class,
                Sort::Literal,
                Sort::ObjectProperty,
                Sort::Class,
                2,
                Some(3),
            ),
            Op::ObjectExactCardinality => Signature::of(
                Sort::Class,
                Sort::Literal,
                Sort::ObjectProperty,
                Sort::Class,
                2,
                Some(3),
            ),
            Op::DataSomeValuesFrom => Signature::of(
                Sort::Class,
                Sort::DataProperty,
                Sort::DataRange,
                Sort::DataRange,
                2,
                Some(2),
            ),
            Op::DataAllValuesFrom => Signature::of(
                Sort::Class,
                Sort::DataProperty,
                Sort::DataRange,
                Sort::DataRange,
                2,
                Some(2),
            ),
            Op::DataHasValue => Signature::of(
                Sort::Class,
                Sort::DataProperty,
                Sort::Literal,
                Sort::Literal,
                2,
                Some(2),
            ),
            Op::DataMinCardinality => Signature::of(
                Sort::Class,
                Sort::Literal,
                Sort::DataProperty,
                Sort::DataRange,
                2,
                Some(3),
            ),
            Op::DataMaxCardinality => Signature::of(
                Sort::Class,
                Sort::Literal,
                Sort::DataProperty,
                Sort::DataRange,
                2,
                Some(3),
            ),
            Op::DataExactCardinality => Signature::of(
                Sort::Class,
                Sort::Literal,
                Sort::DataProperty,
                Sort::DataRange,
                2,
                Some(3),
            ),
            Op::ObjectInverseOf => Signature::uniform(
                Sort::ObjectProperty,
                Sort::ObjectProperty,
                1,
                Some(1),
            ),
            Op::ObjectPropertyChain => Signature::uniform(
                Sort::PropertyChain,
                Sort::ObjectProperty,
                2,
                None,
            ),
            Op::DataIntersectionOf => Signature::uniform(Sort::DataRange, Sort::DataRange, 2, None),
            Op::DataUnionOf => Signature::uniform(Sort::DataRange, Sort::DataRange, 2, None),
            Op::DataComplementOf => Signature::uniform(
                Sort::DataRange,
                Sort::DataRange,
                1,
                Some(1),
            ),
            Op::DataOneOf => Signature::uniform(Sort::DataRange, Sort::Literal, 1, None),
            Op::Declaration => Signature::uniform(Sort::Axiom, Sort::AnyEntity, 1, Some(1)),
            Op::SubClassOf => Signature::uniform(Sort::Axiom, Sort::Class, 2, Some(2)),
            Op::EquivalentClasses => Signature::uniform(Sort::Axiom, Sort::Class, 2, None),
            Op::DisjointClasses => Signature::uniform(Sort::Axiom, Sort::Class, 2, None),
            Op::DisjointUnion => Signature::uniform(Sort::Axiom, Sort::Class, 3, None),
            Op::SubObjectPropertyOf => Signature::of(
                Sort::Axiom,
                Sort::SubObjectProperty,
                Sort::ObjectProperty,
                Sort::ObjectProperty,
                2,
                Some(2),
            ),
            Op::EquivalentObjectProperties => Signature::uniform(
                Sort::Axiom,
                Sort::ObjectProperty,
                2,
                None,
            ),
            Op::DisjointObjectProperties => Signature::uniform(
                Sort::Axiom,
                Sort::ObjectProperty,
                2,
                None,
            ),
            Op::InverseObjectProperties => Signature::uniform(
                Sort::Axiom,
                Sort::ObjectProperty,
                2,
                Some(2),
            ),
            Op::ObjectPropertyDomain => Signature::of(
                Sort::Axiom,
                Sort::ObjectProperty,
                Sort::Class,
                Sort::Class,
                2,
                Some(2),
            ),
            Op::ObjectPropertyRange => Signature::of(
                Sort::Axiom,
                Sort::ObjectProperty,
                Sort::Class,
                Sort::Class,
                2,
                Some(2),
            ),
            Op::FunctionalObjectProperty => Signature::uniform(
                Sort::Axiom,
                Sort::ObjectProperty,
                1,
                Some(1),
            ),
            Op::InverseFunctionalObjectProperty => Signature::uniform(
                Sort::Axiom,
                Sort::ObjectProperty,
                1,
                Some(1),
            ),
            Op::ReflexiveObjectProperty => Signature::uniform(
                Sort::Axiom,
                Sort::ObjectProperty,
                1,
                Some(1),
            ),
            Op::IrreflexiveObjectProperty => Signature::uniform(
                Sort::Axiom,
                Sort::ObjectProperty,
                1,
                Some(1),
            ),
            Op::SymmetricObjectProperty => Signature::uniform(
                Sort::Axiom,
                Sort::ObjectProperty,
                1,
                Some(1),
            ),
            Op::AsymmetricObjectProperty => Signature::uniform(
                Sort::Axiom,
                Sort::ObjectProperty,
                1,
                Some(1),
            ),
            Op::TransitiveObjectProperty => Signature::uniform(
                Sort::Axiom,
                Sort::ObjectProperty,
                1,
                Some(1),
            ),
            Op::SubDataPropertyOf => Signature::uniform(
                Sort::Axiom,
                Sort::DataProperty,
                2,
                Some(2),
            ),
            Op::EquivalentDataProperties => Signature::uniform(
                Sort::Axiom,
                Sort::DataProperty,
                2,
                None,
            ),
            Op::DisjointDataProperties => Signature::uniform(
                Sort::Axiom,
                Sort::DataProperty,
                2,
                None,
            ),
            Op::DataPropertyDomain => Signature::of(
                Sort::Axiom,
                Sort::DataProperty,
                Sort::Class,
                Sort::Class,
                2,
                Some(2),
            ),
            Op::DataPropertyRange => Signature::of(
                Sort::Axiom,
                Sort::DataProperty,
                Sort::DataRange,
                Sort::DataRange,
                2,
                Some(2),
            ),
            Op::FunctionalDataProperty => Signature::uniform(
                Sort::Axiom,
                Sort::DataProperty,
                1,
                Some(1),
            ),
            Op::SameIndividual => Signature::uniform(Sort::Axiom, Sort::Individual, 2, None),
            Op::DifferentIndividuals => Signature::uniform(Sort::Axiom, Sort::Individual, 2, None),
            Op::ClassAssertion => Signature::of(
                Sort::Axiom,
                Sort::Class,
                Sort::Individual,
                Sort::Individual,
                2,
                Some(2),
            ),
            Op::ObjectPropertyAssertion => Signature::of(
                Sort::Axiom,
                Sort::ObjectProperty,
                Sort::Individual,
                Sort::Individual,
                3,
                Some(3),
            ),
            Op::NegativeObjectPropertyAssertion => Signature::of(
                Sort::Axiom,
                Sort::ObjectProperty,
                Sort::Individual,
                Sort::Individual,
                3,
                Some(3),
            ),
            Op::DataPropertyAssertion => Signature::of(
                Sort::Axiom,
                Sort::DataProperty,
                Sort::Individual,
                Sort::Literal,
                3,
                Some(3),
            ),
            Op::NegativeDataPropertyAssertion => Signature::of(
                Sort::Axiom,
                Sort::DataProperty,
                Sort::Individual,
                Sort::Literal,
                3,
                Some(3),
            ),
            Op::AnnotationAssertion => Signature::of(
                Sort::Axiom,
                Sort::AnnotationProperty,
                Sort::AnyEntity,
                Sort::AnyValue,
                3,
                Some(3),
            ),
            Op::SubAnnotationPropertyOf => Signature::uniform(
                Sort::Axiom,
                Sort::AnnotationProperty,
                2,
                Some(2),
            ),
            Op::AnnotationPropertyDomain => Signature::of(
                Sort::Axiom,
                Sort::AnnotationProperty,
                Sort::AnyEntity,
                Sort::AnyEntity,
                2,
                Some(2),
            ),
            Op::AnnotationPropertyRange => Signature::of(
                Sort::Axiom,
                Sort::AnnotationProperty,
                Sort::AnyEntity,
                Sort::AnyEntity,
                2,
                Some(2),
            ),
        }
    }

    /// The operator's signature.
    #[verifier::when_used_as_spec(spec_signature)]
    pub fn signature(self) -> (r: Signature)
        ensures
            r == self.spec_signature(),
    {
        match self {
            Op::ObjectIntersectionOf => Signature::uniform(Sort::Class, Sort::Class, 2, None),
            Op::ObjectUnionOf => Signature::uniform(Sort::Class, Sort::Class, 2, None),
            Op::ObjectComplementOf => Signature::uniform(Sort::Class, Sort::Class, 1, Some(1)),
            Op::ObjectOneOf => Signature::uniform(Sort::Class, Sort::Individual, 1, None),
            Op::ObjectSomeValuesFrom => Signature::of(
                Sort::Class,
                Sort::ObjectProperty,
                Sort::Class,
                Sort::Class,
                2,
                Some(2),
            ),
            Op::ObjectAllValuesFrom => Signature::of(
                Sort::Class,
                Sort::ObjectProperty,
                Sort::Class,
                Sort::Class,
                2,
                Some(2),
            ),
            Op::ObjectHasValue => Signature::of(
                Sort::Class,
                Sort::ObjectProperty,
                Sort::Individual,
                Sort::Individual,
                2,
                Some(2),
            ),
            Op::ObjectHasSelf => Signature::uniform(Sort::Class, Sort::ObjectProperty, 1, Some(1)),
            Op::ObjectMinCardinality => Signature::of(
                Sort::Class,
                Sort::Literal,
                Sort::ObjectProperty,
                Sort::Class,
                2,
                Some(3),
            ),
            Op::ObjectMaxCardinality => Signature::of(
                Sort::Class,
                Sort::Literal,
                Sort::ObjectProperty,
                Sort::Class,
                2,
                Some(3),
            ),
            Op::ObjectExactCardinality => Signature::of(
                Sort::Class,
                Sort::Literal,
                Sort::ObjectProperty,
                Sort::Class,
                2,
                Some(3),
            ),
            Op::DataSomeValuesFrom => Signature::of(
                Sort::Class,
                Sort::DataProperty,
                Sort::DataRange,
                Sort::DataRange,
                2,
                Some(2),
            ),
            Op::DataAllValuesFrom => Signature::of(
                Sort::Class,
                Sort::DataProperty,
                Sort::DataRange,
                Sort::DataRange,
                2,
                Some(2),
            ),
            Op::DataHasValue => Signature::of(
                Sort::Class,
                Sort::DataProperty,
                Sort::Literal,
                Sort::Literal,
                2,
                Some(2),
            ),
            Op::DataMinCardinality => Signature::of(
                Sort::Class,
                Sort::Literal,
                Sort::DataProperty,
                Sort::DataRange,
                2,
                Some(3),
            ),
            Op::DataMaxCardinality => Signature::of(
                Sort::Class,
                Sort::Literal,
                Sort::DataProperty,
                Sort::DataRange,
                2,
                Some(3),
            ),
            Op::DataExactCardinality => Signature::of(
                Sort::Class,
                Sort::Literal,
                Sort::DataProperty,
                Sort::DataRange,
                2,
                Some(3),
            ),
            Op::ObjectInverseOf => Signature::uniform(
                Sort::ObjectProperty,
                Sort::ObjectProperty,
                1,
                Some(1),
            ),
            Op::ObjectPropertyChain => Signature::uniform(
                Sort::PropertyChain,
                Sort::ObjectProperty,
                2,
                None,
            ),
            Op::DataIntersectionOf => Signature::uniform(Sort::DataRange, Sort::DataRange, 2, None),
            Op::DataUnionOf => Signature::uniform(Sort::DataRange, Sort::DataRange, 2, None),
            Op::DataComplementOf => Signature::uniform(
                Sort::DataRange,
                Sort::DataRange,
                1,
                Some(1),
            ),
            Op::DataOneOf => Signature::uniform(Sort::DataRange, Sort::Literal, 1, None),
            Op::Declaration => Signature::uniform(Sort::Axiom, Sort::AnyEntity, 1, Some(1)),
            Op::SubClassOf => Signature::uniform(Sort::Axiom, Sort::Class, 2, Some(2)),
            Op::EquivalentClasses => Signature::uniform(Sort::Axiom, Sort::Class, 2, None),
            Op::DisjointClasses => Signature::uniform(Sort::Axiom, Sort::Class, 2, None),
            Op::DisjointUnion => Signature::uniform(Sort::Axiom, Sort::Class, 3, None),
            Op::SubObjectPropertyOf => Signature::of(
                Sort::Axiom,
                Sort::SubObjectProperty,
                Sort::ObjectProperty,
                Sort::ObjectProperty,
                2,
                Some(2),
            ),
            Op::EquivalentObjectProperties => Signature::uniform(
                Sort::Axiom,
                Sort::ObjectProperty,
                2,
                None,
            ),
            Op::DisjointObjectProperties => Signature::uniform(
                Sort::Axiom,
                Sort::ObjectProperty,
                2,
                None,
            ),
            Op::InverseObjectProperties => Signature::uniform(
                Sort::Axiom,
                Sort::ObjectProperty,
                2,
                Some(2),
            ),
            Op::ObjectPropertyDomain => Signature::of(
                Sort::Axiom,
                Sort::ObjectProperty,
                Sort::Class,
                Sort::Class,
                2,
                Some(2),
            ),
            Op::ObjectPropertyRange => Signature::of(
                Sort::Axiom,
                Sort::ObjectProperty,
                Sort::Class,
                Sort::Class,
                2,
                Some(2),
            ),
            Op::FunctionalObjectProperty => Signature::uniform(
                Sort::Axiom,
                Sort::ObjectProperty,
                1,
                Some(1),
            ),
            Op::InverseFunctionalObjectProperty => Signature::uniform(
                Sort::Axiom,
                Sort::ObjectProperty,
                1,
                Some(1),
            ),
            Op::ReflexiveObjectProperty => Signature::uniform(
                Sort::Axiom,
                Sort::ObjectProperty,
                1,
                Some(1),
            ),
            Op::IrreflexiveObjectProperty => Signature::uniform(
                Sort::Axiom,
                Sort::ObjectProperty,
                1,
                Some(1),
            ),
            Op::SymmetricObjectProperty => Signature::uniform(
                Sort::Axiom,
                Sort::ObjectProperty,
                1,
                Some(1),
            ),
            Op::AsymmetricObjectProperty => Signature::uniform(
                Sort::Axiom,
                Sort::ObjectProperty,
                1,
                Some(1),
            ),
            Op::TransitiveObjectProperty => Signature::uniform(
                Sort::Axiom,
                Sort::ObjectProperty,
                1,
                Some(1),
            ),
            Op::SubDataPropertyOf => Signature::uniform(
                Sort::Axiom,
                Sort::DataProperty,
                2,
                Some(2),
            ),
            Op::EquivalentDataProperties => Signature::uniform(
                Sort::Axiom,
                Sort::DataProperty,
                2,
                None,
            ),
            Op::DisjointDataProperties => Signature::uniform(
                Sort::Axiom,
                Sort::DataProperty,
                2,
                None,
            ),
            Op::DataPropertyDomain => Signature::of(
                Sort::Axiom,
                Sort::DataProperty,
                Sort::Class,
                Sort::Class,
                2,
                Some(2),
            ),
            Op::DataPropertyRange => Signature::of(
                Sort::Axiom,
                Sort::DataProperty,
                Sort::DataRange,
                Sort::DataRange,
                2,
                Some(2),
            ),
            Op::FunctionalDataProperty => Signature::uniform(
                Sort::Axiom,
                Sort::DataProperty,
                1,
                Some(1),
            ),
            Op::SameIndividual => Signature::uniform(Sort::Axiom, Sort::Individual, 2, None),
            Op::DifferentIndividuals => Signature::uniform(Sort::Axiom, Sort::Individual, 2, None),
            Op::ClassAssertion => Signature::of(
                Sort::Axiom,
                Sort::Class,
                Sort::Individual,
                Sort::Individual,
                2,
                Some(2),
            ),
            Op::ObjectPropertyAssertion => Signature::of(
                Sort::Axiom,
                Sort::ObjectProperty,
                Sort::Individual,
                Sort::Individual,
                3,
                Some(3),
            ),
            Op::NegativeObjectPropertyAssertion => Signature::of(
                Sort::Axiom,
                Sort::ObjectProperty,
                Sort::Individual,
                Sort::Individual,
                3,
                Some(3),
            ),
            Op::DataPropertyAssertion => Signature::of(
                Sort::Axiom,
                Sort::DataProperty,
                Sort::Individual,
                Sort::Literal,
                3,
                Some(3),
            ),
            Op::NegativeDataPropertyAssertion => Signature::of(
                Sort::Axiom,
                Sort::DataProperty,
                Sort::Individual,
                Sort::Literal,
                3,
                Some(3),
            ),
            Op::AnnotationAssertion => Signature::of(
                Sort::Axiom,
                Sort::AnnotationProperty,
                Sort::AnyEntity,
                Sort::AnyValue,
                3,
                Some(3),
            ),
            Op::SubAnnotationPropertyOf => Signature::uniform(
                Sort::Axiom,
                Sort::AnnotationProperty,
                2,
                Some(2),
            ),
            Op::AnnotationPropertyDomain => Signature::of(
                Sort::Axiom,
                Sort::AnnotationProperty,
                Sort::AnyEntity,
                Sort::AnyEntity,
                2,
                Some(2),
            ),
            Op::AnnotationPropertyRange => Signature::of(
                Sort::Axiom,
                Sort::AnnotationProperty,
                Sort::AnyEntity,
                Sort::AnyEntity,
                2,
                Some(2),
            ),
        }
    }
}

/// An expression of the functional syntax.
#[derive(Debug, PartialEq, Eq)]
pub enum Ofn {
    /// An identifier, with the kind of thing it denotes where that is settled,
    /// and a label for readers where one was attached.
    Entity { kind: Option<EntityKind>, id: String, label: Option<String> },
    /// A literal: its lexical form, the identifier of its datatype, and a
    /// language tag where it has one.
    Literal { lexical: String, datatype: String, language: Option<String> },
    /// An operator applied to its arguments, in order.
    Operator { op: Op, children: Vec<Ofn> },
}

/// The mathematical value of an [`Ofn`].
pub enum OfnView {
    Entity { kind: Option<EntityKind>, id: Seq<char>, label: Option<Seq<char>> },
    Literal { lexical: Seq<char>, datatype: Seq<char>, language: Option<Seq<char>> },
    Operator { op: Op, children: Seq<OfnView> },
}

/// The value of an expression, node for node.
pub open spec fn ofn_view(tree: Ofn) -> OfnView
    decreases tree,
{
    match tree {
        Ofn::Entity { kind, id, label } => OfnView::Entity {
            kind,
            id: id@,
            label: opt_text(label),
        },
        Ofn::Literal { lexical, datatype, language } => OfnView::Literal {
            lexical: lexical@,
            datatype: datatype@,
            language: opt_text(language),
        },
        Ofn::Operator { op, children } => OfnView::Operator {
            op,
            children: Seq::new(
                children.len() as nat,
                |i: int|
                    if 0 <= i < children.len() {
                        ofn_view(children[i])
                    } else {
                        OfnView::Operator { op, children: Seq::empty() }
                    },
            ),
        },
    }
}

impl View for Ofn {
    type V = OfnView;

    open spec fn view(&self) -> OfnView {
        ofn_view(*self)
    }
}

/// The values of a list of expressions, item for item.
pub open spec fn ofn_items(items: Vec<Ofn>) -> Seq<OfnView> {
    Seq::new(items.len() as nat, |i: int| ofn_view(items[i]))
}

/// The value of an operator with arguments holds the values of the arguments.
pub proof fn lemma_ofn_operator(op: Op, children: Vec<Ofn>)
    ensures
        (Ofn::Operator { op, children })@ == (OfnView::Operator {
            op,
            children: ofn_items(children),
        }),
{
    assert((Ofn::Operator { op, children })@->children =~= ofn_items(children));
}

impl OfnView {
    /// Whether the expression may stand in a position of the given sort:
    /// every operator in it has as many arguments as its signature admits,
    /// and each argument may stand in its position.
    pub open spec fn fits(self, sort: Sort) -> bool
        decreases self,
    {
        match self {
            OfnView::Entity { kind, .. } => sort.takes_entity(kind),
            OfnView::Literal { .. } => sort.takes_literal(),
            OfnView::Operator { op, children } => {
                &&& sort.takes_result(op.signature().result)
                &&& op.signature().spec_admits(children.len())
                &&& forall|i: int|
                    0 <= i < children.len() ==> (#[trigger] children[i]).fits(
                        op.signature().spec_argument(i),
                    )
            },
        }
    }

    /// Whether the expression nests no deeper than `limit` levels.
    pub open spec fn within(self, limit: nat) -> bool
        decreases self,
    {
        match self {
            OfnView::Operator { children, .. } => {
                &&& limit >= 1
                &&& forall|i: int|
                    0 <= i < children.len() ==> (#[trigger] children[i]).within(
                        (limit - 1) as nat,
                    )
            },
            _ => limit >= 1,
        }
    }

    /// Whether the expression is well formed: it may stand as a root and is
    /// no deeper than [`MAX_HEIGHT`].
    pub open spec fn well_formed(self) -> bool {
        self.fits(Sort::Any) && self.within(MAX_HEIGHT as nat)
    }
}

impl Clone for Ofn {
    #[verifier::loop_isolation(false)]
    fn clone(&self) -> (r: Ofn)
        ensures
            r@ == self@,
        decreases self,
    {
        match self {
            Ofn::Entity { kind, id, label } => Ofn::Entity {
                kind: *kind,
                id: id.clone(),
                label: clone_opt(label),
            },
            Ofn::Literal { lexical, datatype, language } => Ofn::Literal {
                lexical: lexical.clone(),
                datatype: datatype.clone(),
                language: clone_opt(language),
            },
            Ofn::Operator { op, children } => {
                proof {
                    lemma_ofn_operator(*op, *children);
                }
                let mut copies: Vec<Ofn> = Vec::new();
                let mut i: usize = 0;
                while i < children.len()
                    invariant
                        i <= children.len(),
                        copies.len() == i,
                        forall|k: int| 0 <= k < i ==> (#[trigger] copies[k])@ == children[k]@,
                    decreases children.len() - i,
                {
                    let copy = children[i].clone();
                    copies.push(copy);
                    i += 1;
                }
                let r = Ofn::Operator { op: *op, children: copies };
                proof {
                    lemma_ofn_operator(r->op, r->children);
                    assert(r@->children =~= self@->children);
                }
                r
            },
        }
    }
}

impl Ofn {
    /// Whether the expression may stand in a position of the given sort.
    #[verifier::loop_isolation(false)]
    pub fn fits(&self, sort: Sort) -> (r: bool)
        ensures
            r == self@.fits(sort),
        decreases self,
    {
        match self {
            Ofn::Entity { kind, .. } => sort.takes_entity(*kind),
            Ofn::Literal { .. } => sort.takes_literal(),
            Ofn::Operator { op, children } => {
                let signature = op.signature();
                if !sort.takes_result(signature.result) || !signature.admits(children.len()) {
                    return false;
                }
                let mut i: usize = 0;
                while i < children.len()
                    invariant
                        i <= children.len(),
                        forall|k: int|
                            0 <= k < i ==> (#[trigger] children[k])@.fits(
                                signature.spec_argument(k),
                            ),
                    decreases children.len() - i,
                {
                    if !children[i].fits(signature.argument(i)) {
                        assert(self@->children[i as int] == children[i as int]@);
                        return false;
                    }
                    i += 1;
                }
                true
            },
        }
    }

    /// Whether the expression nests no deeper than `limit` levels.
    #[verifier::loop_isolation(false)]
    pub fn within(&self, limit: usize) -> (r: bool)
        ensures
            r == self@.within(limit as nat),
        decreases self,
    {
        if limit == 0 {
            return false;
        }
        match self {
            Ofn::Operator { children, .. } => {
                let mut i: usize = 0;
                while i < children.len()
                    invariant
                        i <= children.len(),
                        forall|k: int|
                            0 <= k < i ==> (#[trigger] children[k])@.within((limit - 1) as nat),
                    decreases children.len() - i,
                {
                    if !children[i].within(limit - 1) {
                        assert(self@->children[i as int] == children[i as int]@);
                        return false;
                    }
                    i += 1;
                }
                true
            },
            _ => true,
        }
    }

    /// Whether the expression is well formed.
    pub fn check(&self) -> (r: bool)
        ensures
            r == self@.well_formed(),
    {
        self.fits(Sort::Any) && self.within(MAX_HEIGHT)
    }
}

} // verus!
