//! The ways in which an operation of this library can fail.
use vstd::prelude::*;

verus! {

/// Why an input was rejected.
#[derive(Clone, Copy, Debug, PartialEq, Eq, Structural)]
pub enum Error {
    /// The text is not structured data at all.
    Syntax,
    /// The data does not have the shape of a functional-syntax expression.
    Grammar,
    /// The predicate of a triple has no axiom assigned to it.
    UnknownPredicate,
    /// The expression is no axiom that a thick triple can hold.
    UnsupportedAxiom,
    /// A subject or object does not stand for a well-formed expression.
    MalformedObject,
}

} // verus!
