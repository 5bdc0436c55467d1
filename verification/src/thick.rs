//! Thick triples, and their translation to axioms and back.
use vstd::prelude::*;
use vstd::string::StringExecFns;
use crate::error::Error;
use crate::object::{ObjectValue, ObjectView};
use crate::ofn::{lemma_ofn_operator, Ofn, OfnView, Op};
use crate::predicate::{
    lemma_name_of_predicate, lemma_predicate_found, lemma_predicate_of_name, lookup,
    predicate_name, predicate_of, predicate_text, Layout, Predicate,
};
use crate::syntax::{lemma_resolve_unresolve, lemma_unresolve_resolve, outcome, resolve, unresolve};

verus! {

/// A statement about a subject, whose object may be a whole expression.
#[derive(Debug, PartialEq, Eq)]
pub struct ThickTriple {
    pub subject: String,
    pub predicate: String,
    pub object: ObjectValue,
}

/// The mathematical value of a [`ThickTriple`].
pub struct ThickTripleView {
    pub subject: Seq<char>,
    pub predicate: Seq<char>,
    pub object: ObjectView,
}

impl View for ThickTriple {
    type V = ThickTripleView;

    open spec fn view(&self) -> ThickTripleView {
        ThickTripleView { subject: self.subject@, predicate: self.predicate@, object: self.object@ }
    }
}

impl Clone for ThickTriple {
    fn clone(&self) -> (r: ThickTriple)
        ensures
            r@ == self@,
    {
        ThickTriple {
            subject: self.subject.clone(),
            predicate: self.predicate.clone(),
            object: self.object.clone(),
        }
    }
}

/// The annotation property that the axiom of an annotation predicate starts
/// with: an entity like any that a plain identifier stands for.
pub open spec fn annotation_property(predicate: Predicate) -> OfnView {
    OfnView::Entity { kind: None, id: predicate.property_name(), label: None }
}

/// The axiom that a predicate makes of a subject and an object.
pub open spec fn axiom_of(predicate: Predicate, subject: OfnView, object: OfnView) -> OfnView {
    OfnView::Operator {
        op: predicate.operator(),
        children: match predicate.layout() {
            Layout::Forward => seq![subject, object],
            Layout::Backward => seq![object, subject],
            Layout::Annotation => seq![annotation_property(predicate), subject, object],
        },
    }
}

/// The predicate, subject and object of which an expression is the axiom, if
/// it is the axiom of any.
pub open spec fn axiom_parts(tree: OfnView) -> Option<(Predicate, OfnView, OfnView)> {
    match tree {
        OfnView::Operator { op, children } => {
            if children.len() == 2 {
                match Predicate::for_operator(op) {
                    Some(predicate) => match predicate.layout() {
                        Layout::Forward => Some((predicate, children[0], children[1])),
                        _ => Some((predicate, children[1], children[0])),
                    },
                    None => None,
                }
            } else if children.len() == 3 && op == Op::AnnotationAssertion {
                match children[0] {
                    OfnView::Entity { kind: None, id, label: None } => {
                        match Predicate::spec_for_property(id) {
                            Some(predicate) => Some((predicate, children[1], children[2])),
                            None => None,
                        }
                    },
                    _ => None,
                }
            } else {
                None
            }
        },
        _ => None,
    }
}

/// What assembling three fields gives. An unknown predicate is reported
/// first; then a subject or object that stands for no expression; then an
/// axiom that is not well formed.
pub open spec fn assemble_spec(subject: ObjectView, predicate: Seq<char>, object: ObjectView)
    -> Result<OfnView, Error> {
    match predicate_of(predicate) {
        None => Err(Error::UnknownPredicate),
        Some(known) => match (resolve(subject), resolve(object)) {
            (Some(first), Some(second)) => {
                if axiom_of(known, first, second).well_formed() {
                    Ok(axiom_of(known, first, second))
                } else {
                    Err(Error::MalformedObject)
                }
            },
            _ => Err(Error::MalformedObject),
        },
    }
}

/// The axiom that a thick triple stands for.
pub open spec fn thick_to_ofn_spec(triple: ThickTripleView) -> Result<OfnView, Error> {
    assemble_spec(ObjectView::Identifier(triple.subject), triple.predicate, triple.object)
}

/// The thick triple that stands for an axiom. An expression that is not well
/// formed has none; nor has one that is the axiom of no predicate, or whose
/// subject is more than a plain identifier.
pub open spec fn ofn_to_thick_spec(tree: OfnView) -> Result<ThickTripleView, Error> {
    if !tree.well_formed() {
        Err(Error::Grammar)
    } else {
        match axiom_parts(tree) {
            Some((predicate, OfnView::Entity { kind: None, id, label: None }, object)) => Ok(
                ThickTripleView {
                    subject: id,
                    predicate: predicate_name(predicate),
                    object: unresolve(object),
                },
            ),
            _ => Err(Error::UnsupportedAxiom),
        }
    }
}

/// The expression that an object stands for by itself.
pub open spec fn parse_object_spec(object: ObjectView) -> Result<OfnView, Error> {
    match resolve(object) {
        Some(tree) => if tree.well_formed() {
            Ok(tree)
        } else {
            Err(Error::MalformedObject)
        },
        None => Err(Error::MalformedObject),
    }
}

/// The mathematical value of the outcome of writing a triple.
pub open spec fn triple_outcome(result: Result<ThickTriple, Error>) -> Result<
    ThickTripleView,
    Error,
> {
    match result {
        Ok(triple) => Ok(triple@),
        Err(error) => Err(error),
    }
}

/// An axiom made by a predicate has that predicate, subject and object as
/// its parts.
pub proof fn lemma_parts_of_axiom(predicate: Predicate, subject: OfnView, object: OfnView)
    ensures
        axiom_parts(axiom_of(predicate, subject, object)) == Some((predicate, subject, object)),
{
    lemma_predicate_found(predicate);
}

/// An expression with parts is the axiom that its predicate makes of them.
pub proof fn lemma_axiom_of_parts(tree: OfnView)
    requires
        axiom_parts(tree) is Some,
    ensures
        ({
            let (predicate, subject, object) = axiom_parts(tree)->0;
            axiom_of(predicate, subject, object) == tree
        }),
{
    let (predicate, subject, object) = axiom_parts(tree)->0;
    assert(axiom_of(predicate, subject, object)->children =~= tree->children);
}

/// Translating a thick triple to an axiom and the axiom back gives the
/// triple, whenever the triple has an axiom.
pub proof fn lemma_thick_round_trip(triple: ThickTripleView)
    requires
        thick_to_ofn_spec(triple) is Ok,
    ensures
        ofn_to_thick_spec(thick_to_ofn_spec(triple)->Ok_0) == Ok::<ThickTripleView, Error>(triple),
{
    let predicate = predicate_of(triple.predicate)->0;
    let subject = resolve(ObjectView::Identifier(triple.subject))->0;
    let object = resolve(triple.object)->0;
    lemma_parts_of_axiom(predicate, subject, object);
    lemma_unresolve_resolve(triple.object);
    lemma_name_of_predicate(triple.predicate);
}

/// Translating an axiom to a thick triple and the triple back gives the
/// axiom, whenever the axiom has a triple.
pub proof fn lemma_ofn_round_trip(tree: OfnView)
    requires
        ofn_to_thick_spec(tree) is Ok,
    ensures
        thick_to_ofn_spec(ofn_to_thick_spec(tree)->Ok_0) == Ok::<OfnView, Error>(tree),
{
    let (predicate, subject, object) = axiom_parts(tree)->0;
    lemma_axiom_of_parts(tree);
    lemma_predicate_of_name(predicate);
    lemma_resolve_unresolve(object);
}

/// Builds an axiom from three fields read one by one: the predicate names
/// the axiom, and subject and object are resolved and put in their places.
pub fn assemble(subject: &ObjectValue, predicate: &str, object: &ObjectValue) -> (r: Result<
    Ofn,
    Error,
>)
    ensures
        outcome(r) == assemble_spec(subject@, predicate@, object@),
        r matches Ok(tree) ==> tree@.well_formed(),
{
    let known = match lookup(predicate) {
        Some(known) => known,
        None => {
            return Err(Error::UnknownPredicate);
        },
    };
    let first = match Ofn::from_object(subject) {
        Some(tree) => tree,
        None => {
            return Err(Error::MalformedObject);
        },
    };
    let second = match Ofn::from_object(object) {
        Some(tree) => tree,
        None => {
            return Err(Error::MalformedObject);
        },
    };
    let ghost expected = axiom_of(known, first@, second@);
    let mut children: Vec<Ofn> = Vec::new();
    match known.layout() {
        Layout::Forward => {
            children.push(first);
            children.push(second);
        },
        Layout::Backward => {
            children.push(second);
            children.push(first);
        },
        Layout::Annotation => {
            children.push(
                Ofn::Entity {
                    kind: None,
                    id: String::from_str(known.property_text()),
                    label: None,
                },
            );
            children.push(first);
            children.push(second);
        },
    }
    let tree = Ofn::Operator { op: known.operator(), children };
    proof {
        lemma_ofn_operator(tree->op, tree->children);
        assert(tree@->children =~= expected->children);
    }
    if tree.check() {
        Ok(tree)
    } else {
        Err(Error::MalformedObject)
    }
}

/// Translates a thick triple to the axiom that it stands for.
pub fn thick_to_ofn(triple: &ThickTriple) -> (r: Result<Ofn, Error>)
    ensures
        outcome(r) == thick_to_ofn_spec(triple@),
        r matches Ok(tree) ==> tree@.well_formed(),
{
    let subject = ObjectValue::Identifier(triple.subject.clone());
    assemble(&subject, triple.predicate.as_str(), &triple.object)
}

/// Translates an object by itself, where it is a whole expression.
pub fn parse_object_only(object: &ObjectValue) -> (r: Result<Ofn, Error>)
    ensures
        outcome(r) == parse_object_spec(object@),
        r matches Ok(tree) ==> tree@.well_formed(),
{
    match Ofn::from_object(object) {
        Some(tree) => if tree.check() {
            Ok(tree)
        } else {
            Err(Error::MalformedObject)
        },
        None => Err(Error::MalformedObject),
    }
}

/// Translates an axiom to the thick triple that stands for it.
pub fn ofn_to_thick(tree: &Ofn) -> (r: Result<ThickTriple, Error>)
    ensures
        triple_outcome(r) == ofn_to_thick_spec(tree@),
{
    if !tree.check() {
        return Err(Error::Grammar);
    }
    match tree {
        Ofn::Operator { op, children } => {
            proof {
                lemma_ofn_operator(*op, *children);
            }
            let found: Option<(Predicate, usize, usize)> = if children.len() == 2 {
                match Predicate::for_operator(*op) {
                    Some(predicate) => match predicate.layout() {
                        Layout::Forward => Some((predicate, 0, 1)),
                        _ => Some((predicate, 1, 0)),
                    },
                    None => None,
                }
            } else if children.len() == 3 && *op == Op::AnnotationAssertion {
                match &children[0] {
                    Ofn::Entity { kind: None, id, label: None } => {
                        match Predicate::for_property(id.as_str()) {
                            Some(predicate) => Some((predicate, 1, 2)),
                            None => None,
                        }
                    },
                    _ => None,
                }
            } else {
                None
            };
            match found {
                Some((predicate, subject, object)) => match &children[subject] {
                    Ofn::Entity { kind: None, id, label: None } => Ok(
                        ThickTriple {
                            subject: id.clone(),
                            predicate: String::from_str(predicate_text(predicate)),
                            object: children[object].to_object(),
                        },
                    ),
                    _ => Err(Error::UnsupportedAxiom),
                },
                None => Err(Error::UnsupportedAxiom),
            }
        },
        _ => Err(Error::UnsupportedAxiom),
    }
}

} // verus!
