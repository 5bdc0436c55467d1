//! Translation of OWL axioms between functional-syntax trees and thick triples,
//! with the analysis and rewriting passes that work on the same trees.
pub mod api;
pub mod assoc;
pub mod error;
pub mod json;
pub mod labeling;
pub mod names;
pub mod object;
pub mod ofn;
pub mod predicate;
pub mod record;
pub mod render;
pub mod signature;
pub mod syntax;
pub mod text;
pub mod thick;
pub mod typing;
