//! The operations of the library on text: each takes its expression, triple
//! or ontology as text and gives text or a map back.
use vstd::prelude::*;
use crate::error::Error;
use crate::json::{decode, encode, json_decoded, json_encoded};
use crate::labeling::{extract_labeling, inject_labels, inject_labels_spec, labels_of, LabelMap};
use crate::object::{object_of_json, ObjectValue, ObjectView};
use crate::ofn::{OfnView, Sort};
use crate::record::{
    json_of_triple, triple_of_json, triples_from_json, triples_of_json,
};
use crate::render::{render, render_at};
use crate::signature::{distinct, extract_signature, members, signature};
use crate::syntax::{parse, parse_spec, serialize, serialize_spec};
use crate::thick::{
    assemble, assemble_spec, ofn_to_thick, ofn_to_thick_spec, parse_object_only,
    parse_object_spec, thick_to_ofn, thick_to_ofn_spec, ThickTriple,
};
use crate::typing::{extract_typing, inject_types, inject_types_spec, types_of, KindSet, TypeMap};

verus! {

/// The mathematical value of an outcome that is a text.
pub open spec fn text_outcome(result: Result<String, Error>) -> Result<Seq<char>, Error> {
    match result {
        Ok(text) => Ok(text@),
        Err(error) => Err(error),
    }
}

/// The text of the expression that an outcome holds.
pub open spec fn written(result: Result<OfnView, Error>) -> Result<Seq<char>, Error> {
    match result {
        Ok(tree) => Ok(serialize_spec(tree)),
        Err(error) => Err(error),
    }
}

/// The written expression that a field of text stands for: a syntax error
/// where the text is no structured data, a malformed object where the data
/// stands for no written expression.
pub open spec fn field_spec(text: Seq<char>) -> Result<ObjectView, Error> {
    match json_decoded(text) {
        None => Err(Error::Syntax),
        Some(value) => match object_of_json(value) {
            None => Err(Error::MalformedObject),
            Some(object) => Ok(object),
        },
    }
}

/// Reads a field of text as a written expression.
pub fn read_field(text: &str) -> (r: Result<ObjectValue, Error>)
    ensures
        match field_spec(text@) {
            Ok(object) => r matches Ok(read) && read@ == object,
            Err(error) => r matches Err(given) && given == error,
        },
{
    match decode(text) {
        None => Err(Error::Syntax),
        Some(value) => match ObjectValue::from_json(&value) {
            None => Err(Error::MalformedObject),
            Some(object) => Ok(object),
        },
    }
}

/// What [`get_signature`] gives for a text: the signature of the expression
/// that the text parses to.
pub open spec fn get_signature_spec(ofn: Seq<char>) -> Result<Set<Seq<char>>, Error> {
    match parse_spec(ofn) {
        Ok(tree) => Ok(signature(tree)),
        Err(error) => Err(error),
    }
}

/// The signature of the expression that a text holds: the identifier of
/// every entity in it, each once.
pub fn get_signature(ofn: &str) -> (r: Result<Vec<String>, Error>)
    ensures
        match get_signature_spec(ofn@) {
            Ok(ids) => r matches Ok(list) && members(list) == ids && distinct(list),
            Err(error) => r matches Err(given) && given == error,
        },
{
    match parse(ofn) {
        Ok(tree) => Ok(extract_signature(&tree)),
        Err(error) => Err(error),
    }
}

/// What [`object_2_ofn`] gives for a text.
pub open spec fn object_2_ofn_spec(obj: Seq<char>) -> Result<Seq<char>, Error> {
    match field_spec(obj) {
        Ok(object) => written(parse_object_spec(object)),
        Err(error) => Err(error),
    }
}

/// Translates an object that is a whole expression by itself, from text to
/// text.
pub fn object_2_ofn(obj: &str) -> (r: Result<String, Error>)
    ensures
        text_outcome(r) == object_2_ofn_spec(obj@),
{
    match read_field(obj) {
        Ok(object) => match parse_object_only(&object) {
            Ok(tree) => Ok(serialize(&tree)),
            Err(error) => Err(error),
        },
        Err(error) => Err(error),
    }
}

/// What [`ldtab_2_ofn`] gives for three fields. The fields are read in
/// order, and the first that cannot be read decides the error. A predicate
/// that is no plain identifier is an unknown predicate.
pub open spec fn ldtab_2_ofn_spec(s: Seq<char>, p: Seq<char>, o: Seq<char>) -> Result<
    Seq<char>,
    Error,
> {
    match field_spec(s) {
        Err(error) => Err(error),
        Ok(subject) => match field_spec(p) {
            Err(error) => Err(error),
            Ok(predicate) => match field_spec(o) {
                Err(error) => Err(error),
                Ok(object) => match predicate {
                    ObjectView::Identifier(name) => written(assemble_spec(subject, name, object)),
                    _ => Err(Error::UnknownPredicate),
                },
            },
        },
    }
}

/// Assembles an axiom from the subject, predicate and object of a row, each
/// given as text of its own, and gives the axiom as text.
pub fn ldtab_2_ofn(s: &str, p: &str, o: &str) -> (r: Result<String, Error>)
    ensures
        text_outcome(r) == ldtab_2_ofn_spec(s@, p@, o@),
{
    let subject = match read_field(s) {
        Ok(object) => object,
        Err(error) => {
            return Err(error);
        },
    };
    let predicate = match read_field(p) {
        Ok(object) => object,
        Err(error) => {
            return Err(error);
        },
    };
    let object = match read_field(o) {
        Ok(object) => object,
        Err(error) => {
            return Err(error);
        },
    };
    match &predicate {
        ObjectValue::Identifier(name) => match assemble(&subject, name.as_str(), &object) {
            Ok(tree) => Ok(serialize(&tree)),
            Err(error) => Err(error),
        },
        _ => Err(Error::UnknownPredicate),
    }
}

/// What [`thick_2_ofn`] gives for a text.
pub open spec fn thick_2_ofn_spec(t: Seq<char>) -> Result<Seq<char>, Error> {
    match json_decoded(t) {
        None => Err(Error::Syntax),
        Some(value) => match triple_of_json(value) {
            None => Err(Error::MalformedObject),
            Some(triple) => written(thick_to_ofn_spec(triple)),
        },
    }
}

/// Translates a thick triple to its axiom, from text to text.
pub fn thick_2_ofn(t: &str) -> (r: Result<String, Error>)
    ensures
        text_outcome(r) == thick_2_ofn_spec(t@),
{
    let value = match decode(t) {
        Some(value) => value,
        None => {
            return Err(Error::Syntax);
        },
    };
    match ThickTriple::from_json(&value) {
        None => Err(Error::MalformedObject),
        Some(triple) => match thick_to_ofn(&triple) {
            Ok(tree) => Ok(serialize(&tree)),
            Err(error) => Err(error),
        },
    }
}

/// What [`ofn_2_thick`] gives for a text.
pub open spec fn ofn_2_thick_spec(t: Seq<char>) -> Result<Seq<char>, Error> {
    match parse_spec(t) {
        Err(error) => Err(error),
        Ok(tree) => match ofn_to_thick_spec(tree) {
            Ok(triple) => Ok(json_encoded(json_of_triple(triple))),
            Err(error) => Err(error),
        },
    }
}

/// Translates an axiom to its thick triple, from text to text.
pub fn ofn_2_thick(t: &str) -> (r: Result<String, Error>)
    ensures
        text_outcome(r) == ofn_2_thick_spec(t@),
{
    match parse(t) {
        Err(error) => Err(error),
        Ok(tree) => match ofn_to_thick(&tree) {
            Ok(triple) => Ok(encode(&triple.to_json())),
            Err(error) => Err(error),
        },
    }
}

/// What [`extract_types`] gives for a text: the kinds that the triples of
/// the ontology declare.
pub open spec fn extract_types_spec(t: Seq<char>) -> Result<Map<Seq<char>, KindSet>, Error> {
    match json_decoded(t) {
        None => Err(Error::Syntax),
        Some(value) => match triples_of_json(value) {
            None => Err(Error::MalformedObject),
            Some(triples) => Ok(types_of(triples)),
        },
    }
}

/// Gathers the kinds that an ontology declares. The ontology is the text of
/// a list of thick triples.
pub fn extract_types(t: &str) -> (r: Result<TypeMap, Error>)
    ensures
        match extract_types_spec(t@) {
            Ok(types) => r matches Ok(map) && map@ == types,
            Err(error) => r matches Err(given) && given == error,
        },
{
    let value = match decode(t) {
        Some(value) => value,
        None => {
            return Err(Error::Syntax);
        },
    };
    match triples_from_json(&value) {
        None => Err(Error::MalformedObject),
        Some(triples) => Ok(extract_typing(&triples)),
    }
}

/// What [`ofn_typing`] gives for a text and a map.
pub open spec fn ofn_typing_spec(t: Seq<char>, m: Map<Seq<char>, KindSet>) -> Result<
    Seq<char>,
    Error,
> {
    match parse_spec(t) {
        Ok(tree) => Ok(serialize_spec(inject_types_spec(tree, m, Sort::Any))),
        Err(error) => Err(error),
    }
}

/// Settles the kinds of the entities of an expression, from text to text.
pub fn ofn_typing(t: &str, m: &TypeMap) -> (r: Result<String, Error>)
    ensures
        text_outcome(r) == ofn_typing_spec(t@, m@),
{
    match parse(t) {
        Ok(tree) => Ok(serialize(&inject_types(&tree, m))),
        Err(error) => Err(error),
    }
}

/// What [`extract_labels`] gives for a text: the labels that the triples of
/// the ontology give.
pub open spec fn extract_labels_spec(t: Seq<char>) -> Result<Map<Seq<char>, Seq<char>>, Error> {
    match json_decoded(t) {
        None => Err(Error::Syntax),
        Some(value) => match triples_of_json(value) {
            None => Err(Error::MalformedObject),
            Some(triples) => Ok(labels_of(triples)),
        },
    }
}

/// Gathers the labels that an ontology gives. The ontology is the text of a
/// list of thick triples.
pub fn extract_labels(t: &str) -> (r: Result<LabelMap, Error>)
    ensures
        match extract_labels_spec(t@) {
            Ok(labels) => r matches Ok(map) && map@ == labels,
            Err(error) => r matches Err(given) && given == error,
        },
{
    let value = match decode(t) {
        Some(value) => value,
        None => {
            return Err(Error::Syntax);
        },
    };
    match triples_from_json(&value) {
        None => Err(Error::MalformedObject),
        Some(triples) => Ok(extract_labeling(&triples)),
    }
}

/// What [`ofn_labeling`] gives for a text and a map.
pub open spec fn ofn_labeling_spec(t: Seq<char>, m: Map<Seq<char>, Seq<char>>) -> Result<
    Seq<char>,
    Error,
> {
    match parse_spec(t) {
        Ok(tree) => Ok(serialize_spec(inject_labels_spec(tree, m))),
        Err(error) => Err(error),
    }
}

/// Attaches labels to the entities of an expression, from text to text.
pub fn ofn_labeling(t: &str, m: &LabelMap) -> (r: Result<String, Error>)
    ensures
        text_outcome(r) == ofn_labeling_spec(t@, m@),
{
    match parse(t) {
        Ok(tree) => Ok(serialize(&inject_labels(&tree, m))),
        Err(error) => Err(error),
    }
}

/// What [`ofn_2_man`] gives for a text.
pub open spec fn ofn_2_man_spec(t: Seq<char>) -> Result<Seq<char>, Error> {
    match parse_spec(t) {
        Ok(tree) => Ok(render_at(tree, Seq::empty())),
        Err(error) => Err(error),
    }
}

/// Lays the expression that a text holds out for readers.
pub fn ofn_2_man(t: &str) -> (r: Result<String, Error>)
    ensures
        text_outcome(r) == ofn_2_man_spec(t@),
{
    match parse(t) {
        Ok(tree) => Ok(render(&tree)),
        Err(error) => Err(error),
    }
}

} // verus!
