//! The predicates of thick triples and the axioms that they stand for.
use vstd::prelude::*;
use crate::ofn::Op;
use crate::text::str_eq;

verus! {

/// A predicate that a thick triple may carry.
#[derive(Clone, Copy, Debug, PartialEq, Eq, Structural)]
pub enum Predicate {
    SubClassOf,
    EquivalentClass,
    DisjointWith,
    SubPropertyOf,
    EquivalentProperty,
    PropertyDisjointWith,
    InverseOf,
    Domain,
    Range,
    SameAs,
    DifferentFrom,
    Type,
    Label,
    Comment,
}

/// How the axiom of a predicate is laid out.
#[derive(Clone, Copy, Debug, PartialEq, Eq, Structural)]
pub enum Layout {
    /// The operator takes the subject, then the object.
    Forward,
    /// The operator takes the object, then the subject.
    Backward,
    /// The operator takes a fixed annotation property, then the subject, then
    /// the object.
    Annotation,
}

impl Predicate {
    /// The operator of the axiom that the predicate stands for.
    pub open spec fn spec_operator(self) -> Op {
        match self {
            Predicate::SubClassOf => Op::SubClassOf,
            Predicate::EquivalentClass => Op::EquivalentClasses,
            Predicate::DisjointWith => Op::DisjointClasses,
            Predicate::SubPropertyOf => Op::SubObjectPropertyOf,
            Predicate::EquivalentProperty => Op::EquivalentObjectProperties,
            Predicate::PropertyDisjointWith => Op::DisjointObjectProperties,
            Predicate::InverseOf => Op::InverseObjectProperties,
            Predicate::Domain => Op::ObjectPropertyDomain,
            Predicate::Range => Op::ObjectPropertyRange,
            Predicate::SameAs => Op::SameIndividual,
            Predicate::DifferentFrom => Op::DifferentIndividuals,
            Predicate::Type => Op::ClassAssertion,
            Predicate::Label => Op::AnnotationAssertion,
            Predicate::Comment => Op::AnnotationAssertion,
        }
    }

    /// The operator of the axiom that the predicate stands for.
    #[verifier::when_used_as_spec(spec_operator)]
    pub fn operator(self) -> (r: Op)
        ensures
            r == self.spec_operator(),
    {
        match self {
            Predicate::SubClassOf => Op::SubClassOf,
            Predicate::EquivalentClass => Op::EquivalentClasses,
            Predicate::DisjointWith => Op::DisjointClasses,
            Predicate::SubPropertyOf => Op::SubObjectPropertyOf,
            Predicate::EquivalentProperty => Op::EquivalentObjectProperties,
            Predicate::PropertyDisjointWith => Op::DisjointObjectProperties,
            Predicate::InverseOf => Op::InverseObjectProperties,
            Predicate::Domain => Op::ObjectPropertyDomain,
            Predicate::Range => Op::ObjectPropertyRange,
            Predicate::SameAs => Op::SameIndividual,
            Predicate::DifferentFrom => Op::DifferentIndividuals,
            Predicate::Type => Op::ClassAssertion,
            Predicate::Label => Op::AnnotationAssertion,
            Predicate::Comment => Op::AnnotationAssertion,
        }
    }

    /// How the axiom is laid out.
    pub open spec fn spec_layout(self) -> Layout {
        match self {
            Predicate::Type => Layout::Backward,
            Predicate::Label => Layout::Annotation,
            Predicate::Comment => Layout::Annotation,
            _ => Layout::Forward,
        }
    }

    /// How the axiom is laid out.
    #[verifier::when_used_as_spec(spec_layout)]
    pub fn layout(self) -> (r: Layout)
        ensures
            r == self.spec_layout(),
    {
        match self {
            Predicate::Type => Layout::Backward,
            Predicate::Label => Layout::Annotation,
            Predicate::Comment => Layout::Annotation,
            _ => Layout::Forward,
        }
    }

    /// The identifier of the annotation property that the axiom of an
    /// annotation predicate starts with.
    pub open spec fn property_name(self) -> Seq<char> {
        match self {
            Predicate::Comment => "rdfs:comment"@,
            _ => "rdfs:label"@,
        }
    }

    /// The identifier of the annotation property, as text.
    pub fn property_text(self) -> (r: &'static str)
        ensures
            r@ == self.property_name(),
    {
        match self {
            Predicate::Comment => "rdfs:comment",
            _ => "rdfs:label",
        }
    }

    /// The predicate whose axiom has the operator `op`, laid out forward or
    /// backward.
    pub open spec fn spec_for_operator(op: Op) -> Option<Predicate> {
        match op {
            Op::SubClassOf => Some(Predicate::SubClassOf),
            Op::EquivalentClasses => Some(Predicate::EquivalentClass),
            Op::DisjointClasses => Some(Predicate::DisjointWith),
            Op::SubObjectPropertyOf => Some(Predicate::SubPropertyOf),
            Op::EquivalentObjectProperties => Some(Predicate::EquivalentProperty),
            Op::DisjointObjectProperties => Some(Predicate::PropertyDisjointWith),
            Op::InverseObjectProperties => Some(Predicate::InverseOf),
            Op::ObjectPropertyDomain => Some(Predicate::Domain),
            Op::ObjectPropertyRange => Some(Predicate::Range),
            Op::SameIndividual => Some(Predicate::SameAs),
            Op::DifferentIndividuals => Some(Predicate::DifferentFrom),
            Op::ClassAssertion => Some(Predicate::Type),
            _ => None,
        }
    }

    /// The predicate whose axiom has the operator `op`, laid out forward or
    /// backward.
    #[verifier::when_used_as_spec(spec_for_operator)]
    pub fn for_operator(op: Op) -> (r: Option<Predicate>)
        ensures
            r == Predicate::spec_for_operator(op),
    {
        match op {
            Op::SubClassOf => Some(Predicate::SubClassOf),
            Op::EquivalentClasses => Some(Predicate::EquivalentClass),
            Op::DisjointClasses => Some(Predicate::DisjointWith),
            Op::SubObjectPropertyOf => Some(Predicate::SubPropertyOf),
            Op::EquivalentObjectProperties => Some(Predicate::EquivalentProperty),
            Op::DisjointObjectProperties => Some(Predicate::PropertyDisjointWith),
            Op::InverseObjectProperties => Some(Predicate::InverseOf),
            Op::ObjectPropertyDomain => Some(Predicate::Domain),
            Op::ObjectPropertyRange => Some(Predicate::Range),
            Op::SameIndividual => Some(Predicate::SameAs),
            Op::DifferentIndividuals => Some(Predicate::DifferentFrom),
            Op::ClassAssertion => Some(Predicate::Type),
            _ => None,
        }
    }

    /// The predicate whose axiom starts with the annotation property `id`.
    pub open spec fn spec_for_property(id: Seq<char>) -> Option<Predicate> {
        if id == "rdfs:label"@ {
            Some(Predicate::Label)
        } else if id == "rdfs:comment"@ {
            Some(Predicate::Comment)
        } else {
            None
        }
    }

    /// The predicate whose axiom starts with the annotation property `id`.
    pub fn for_property(id: &str) -> (r: Option<Predicate>)
        ensures
            r == Predicate::spec_for_property(id@),
    {
        if str_eq(id, "rdfs:label") {
            Some(Predicate::Label)
        } else if str_eq(id, "rdfs:comment") {
            Some(Predicate::Comment)
        } else {
            None
        }
    }
}

/// The name under which a triple carries `predicate`.
pub open spec fn predicate_name(predicate: Predicate) -> Seq<char> {
    match predicate {
        Predicate::SubClassOf => "subClassOf"@,
        Predicate::EquivalentClass => "equivalentClass"@,
        Predicate::DisjointWith => "disjointWith"@,
        Predicate::SubPropertyOf => "subPropertyOf"@,
        Predicate::EquivalentProperty => "equivalentProperty"@,
        Predicate::PropertyDisjointWith => "propertyDisjointWith"@,
        Predicate::InverseOf => "inverseOf"@,
        Predicate::Domain => "domain"@,
        Predicate::Range => "range"@,
        Predicate::SameAs => "sameAs"@,
        Predicate::DifferentFrom => "differentFrom"@,
        Predicate::Type => "type"@,
        Predicate::Label => "label"@,
        Predicate::Comment => "comment"@,
    }
}

/// The name under which a triple carries `predicate`.
pub fn predicate_text(predicate: Predicate) -> (r: &'static str)
    ensures
        r@ == predicate_name(predicate),
{
    match predicate {
        Predicate::SubClassOf => "subClassOf",
        Predicate::EquivalentClass => "equivalentClass",
        Predicate::DisjointWith => "disjointWith",
        Predicate::SubPropertyOf => "subPropertyOf",
        Predicate::EquivalentProperty => "equivalentProperty",
        Predicate::PropertyDisjointWith => "propertyDisjointWith",
        Predicate::InverseOf => "inverseOf",
        Predicate::Domain => "domain",
        Predicate::Range => "range",
        Predicate::SameAs => "sameAs",
        Predicate::DifferentFrom => "differentFrom",
        Predicate::Type => "type",
        Predicate::Label => "label",
        Predicate::Comment => "comment",
    }
}

/// The predicate that `name` names, if it names one.
pub open spec fn predicate_of(name: Seq<char>) -> Option<Predicate> {
    if name == "subClassOf"@ {
        Some(Predicate::SubClassOf)
    } else if name == "equivalentClass"@ {
        Some(Predicate::EquivalentClass)
    } else if name == "disjointWith"@ {
        Some(Predicate::DisjointWith)
    } else if name == "subPropertyOf"@ {
        Some(Predicate::SubPropertyOf)
    } else if name == "equivalentProperty"@ {
        Some(Predicate::EquivalentProperty)
    } else if name == "propertyDisjointWith"@ {
        Some(Predicate::PropertyDisjointWith)
    } else if name == "inverseOf"@ {
        Some(Predicate::InverseOf)
    } else if name == "domain"@ {
        Some(Predicate::Domain)
    } else if name == "range"@ {
        Some(Predicate::Range)
    } else if name == "sameAs"@ {
        Some(Predicate::SameAs)
    } else if name == "differentFrom"@ {
        Some(Predicate::DifferentFrom)
    } else if name == "type"@ {
        Some(Predicate::Type)
    } else if name == "label"@ {
        Some(Predicate::Label)
    } else if name == "comment"@ {
        Some(Predicate::Comment)
    } else {
        None
    }
}

/// The predicate that `name` names, if it names one.
pub fn lookup(name: &str) -> (r: Option<Predicate>)
    ensures
        r == predicate_of(name@),
{
    if str_eq(name, "subClassOf") {
        Some(Predicate::SubClassOf)
    } else if str_eq(name, "equivalentClass") {
        Some(Predicate::EquivalentClass)
    } else if str_eq(name, "disjointWith") {
        Some(Predicate::DisjointWith)
    } else if str_eq(name, "subPropertyOf") {
        Some(Predicate::SubPropertyOf)
    } else if str_eq(name, "equivalentProperty") {
        Some(Predicate::EquivalentProperty)
    } else if str_eq(name, "propertyDisjointWith") {
        Some(Predicate::PropertyDisjointWith)
    } else if str_eq(name, "inverseOf") {
        Some(Predicate::InverseOf)
    } else if str_eq(name, "domain") {
        Some(Predicate::Domain)
    } else if str_eq(name, "range") {
        Some(Predicate::Range)
    } else if str_eq(name, "sameAs") {
        Some(Predicate::SameAs)
    } else if str_eq(name, "differentFrom") {
        Some(Predicate::DifferentFrom)
    } else if str_eq(name, "type") {
        Some(Predicate::Type)
    } else if str_eq(name, "label") {
        Some(Predicate::Label)
    } else if str_eq(name, "comment") {
        Some(Predicate::Comment)
    } else {
        None
    }
}

/// The character of `name` at `index`, or a blank where the name is shorter.
spec fn mark(name: Seq<char>, index: int) -> char {
    if 0 <= index < name.len() {
        name[index]
    } else {
        ' '
    }
}

/// What tells the names apart: the length of a name and some of its
/// characters.
spec fn marks(name: Seq<char>) -> (nat, char) {
    (name.len(), mark(name, 0))
}

/// The marks of every name.
proof fn reveal_names()
    ensures
        marks("subClassOf"@) == (10nat, 's'),
        marks("equivalentClass"@) == (15nat, 'e'),
        marks("disjointWith"@) == (12nat, 'd'),
        marks("subPropertyOf"@) == (13nat, 's'),
        marks("equivalentProperty"@) == (18nat, 'e'),
        marks("propertyDisjointWith"@) == (20nat, 'p'),
        marks("inverseOf"@) == (9nat, 'i'),
        marks("domain"@) == (6nat, 'd'),
        marks("range"@) == (5nat, 'r'),
        marks("sameAs"@) == (6nat, 's'),
        marks("differentFrom"@) == (13nat, 'd'),
        marks("type"@) == (4nat, 't'),
        marks("label"@) == (5nat, 'l'),
        marks("comment"@) == (7nat, 'c'),
        "rdfs:label"@.len() == 10,
        "rdfs:comment"@.len() == 12,
{
    reveal_strlit("subClassOf");
    reveal_strlit("equivalentClass");
    reveal_strlit("disjointWith");
    reveal_strlit("subPropertyOf");
    reveal_strlit("equivalentProperty");
    reveal_strlit("propertyDisjointWith");
    reveal_strlit("inverseOf");
    reveal_strlit("domain");
    reveal_strlit("range");
    reveal_strlit("sameAs");
    reveal_strlit("differentFrom");
    reveal_strlit("type");
    reveal_strlit("label");
    reveal_strlit("comment");
    reveal_strlit("rdfs:label");
    reveal_strlit("rdfs:comment");
}

/// No two predicates share a name: the name of a predicate names it.
pub proof fn lemma_predicate_of_name(predicate: Predicate)
    ensures
        predicate_of(predicate_name(predicate)) == Some(predicate),
{
    reveal_names();
}

/// A name that names a predicate is the name of that predicate.
pub proof fn lemma_name_of_predicate(name: Seq<char>)
    ensures
        predicate_of(name) matches Some(predicate) ==> predicate_name(predicate) == name,
{
}

/// The annotation property of an annotation predicate leads back to it, and
/// the operator of any other predicate leads back to that one.
pub proof fn lemma_predicate_found(predicate: Predicate)
    ensures
        predicate.layout() == Layout::Annotation ==> Predicate::spec_for_property(
            predicate.property_name(),
        ) == Some(predicate),
        predicate.layout() != Layout::Annotation ==> Predicate::for_operator(
            predicate.operator(),
        ) == Some(predicate),
{
    reveal_names();
}

} // verus!
