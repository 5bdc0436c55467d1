//! Expressions laid out for readers.
use vstd::prelude::*;
use vstd::string::StringExecFns;
use crate::ofn::{lemma_ofn_operator, Ofn, OfnView, Op};

verus! {

/// The words that readers are given for an operator.
pub open spec fn phrase(op: Op) -> Seq<char> {
    match op {
        Op::ObjectIntersectionOf => "all of"@,
        Op::ObjectUnionOf => "any of"@,
        Op::ObjectComplementOf => "not"@,
        Op::ObjectOneOf => "one of"@,
        Op::ObjectSomeValuesFrom => "some"@,
        Op::ObjectAllValuesFrom => "only"@,
        Op::ObjectHasValue => "value"@,
        Op::ObjectHasSelf => "self"@,
        Op::ObjectMinCardinality => "at least"@,
        Op::ObjectMaxCardinality => "at most"@,
        Op::ObjectExactCardinality => "exactly"@,
        Op::DataSomeValuesFrom => "some data"@,
        Op::DataAllValuesFrom => "only data"@,
        Op::DataHasValue => "data value"@,
        Op::DataMinCardinality => "at least data"@,
        Op::DataMaxCardinality => "at most data"@,
        Op::DataExactCardinality => "exactly data"@,
        Op::ObjectInverseOf => "inverse of"@,
        Op::ObjectPropertyChain => "chain of"@,
        Op::DataIntersectionOf => "all of data"@,
        Op::DataUnionOf => "any of data"@,
        Op::DataComplementOf => "not data"@,
        Op::DataOneOf => "one of data"@,
        Op::Declaration => "declared"@,
        Op::SubClassOf => "is a kind of"@,
        Op::EquivalentClasses => "are equivalent classes"@,
        Op::DisjointClasses => "are disjoint classes"@,
        Op::DisjointUnion => "is the disjoint union of"@,
        Op::SubObjectPropertyOf => "is a subproperty of"@,
        Op::EquivalentObjectProperties => "are equivalent properties"@,
        Op::DisjointObjectProperties => "are disjoint properties"@,
        Op::InverseObjectProperties => "are inverse properties"@,
        Op::ObjectPropertyDomain => "has domain"@,
        Op::ObjectPropertyRange => "has range"@,
        Op::FunctionalObjectProperty => "is functional"@,
        Op::InverseFunctionalObjectProperty => "is inverse functional"@,
        Op::ReflexiveObjectProperty => "is reflexive"@,
        Op::IrreflexiveObjectProperty => "is irreflexive"@,
        Op::SymmetricObjectProperty => "is symmetric"@,
        Op::AsymmetricObjectProperty => "is asymmetric"@,
        Op::TransitiveObjectProperty => "is transitive"@,
        Op::SubDataPropertyOf => "is a data subproperty of"@,
        Op::EquivalentDataProperties => "are equivalent data properties"@,
        Op::DisjointDataProperties => "are disjoint data properties"@,
        Op::DataPropertyDomain => "has data domain"@,
        Op::DataPropertyRange => "has data range"@,
        Op::FunctionalDataProperty => "is a functional data property"@,
        Op::SameIndividual => "are the same individual"@,
        Op::DifferentIndividuals => "are different individuals"@,
        Op::ClassAssertion => "has instance"@,
        Op::ObjectPropertyAssertion => "relates"@,
        Op::NegativeObjectPropertyAssertion => "does not relate"@,
        Op::DataPropertyAssertion => "gives the value"@,
        Op::NegativeDataPropertyAssertion => "does not give the value"@,
        Op::AnnotationAssertion => "annotates"@,
        Op::SubAnnotationPropertyOf => "is an annotation subproperty of"@,
        Op::AnnotationPropertyDomain => "has annotation domain"@,
        Op::AnnotationPropertyRange => "has annotation range"@,
    }
}

/// The words that readers are given for an operator.
pub fn phrase_text(op: Op) -> (r: &'static str)
    ensures
        r@ == phrase(op),
{
    match op {
        Op::ObjectIntersectionOf => "all of",
        Op::ObjectUnionOf => "any of",
        Op::ObjectComplementOf => "not",
        Op::ObjectOneOf => "one of",
        Op::ObjectSomeValuesFrom => "some",
        Op::ObjectAllValuesFrom => "only",
        Op::ObjectHasValue => "value",
        Op::ObjectHasSelf => "self",
        Op::ObjectMinCardinality => "at least",
        Op::ObjectMaxCardinality => "at most",
        Op::ObjectExactCardinality => "exactly",
        Op::DataSomeValuesFrom => "some data",
        Op::DataAllValuesFrom => "only data",
        Op::DataHasValue => "data value",
        Op::DataMinCardinality => "at least data",
        Op::DataMaxCardinality => "at most data",
        Op::DataExactCardinality => "exactly data",
        Op::ObjectInverseOf => "inverse of",
        Op::ObjectPropertyChain => "chain of",
        Op::DataIntersectionOf => "all of data",
        Op::DataUnionOf => "any of data",
        Op::DataComplementOf => "not data",
        Op::DataOneOf => "one of data",
        Op::Declaration => "declared",
        Op::SubClassOf => "is a kind of",
        Op::EquivalentClasses => "are equivalent classes",
        Op::DisjointClasses => "are disjoint classes",
        Op::DisjointUnion => "is the disjoint union of",
        Op::SubObjectPropertyOf => "is a subproperty of",
        Op::EquivalentObjectProperties => "are equivalent properties",
        Op::DisjointObjectProperties => "are disjoint properties",
        Op::InverseObjectProperties => "are inverse properties",
        Op::ObjectPropertyDomain => "has domain",
        Op::ObjectPropertyRange => "has range",
        Op::FunctionalObjectProperty => "is functional",
        Op::InverseFunctionalObjectProperty => "is inverse functional",
        Op::ReflexiveObjectProperty => "is reflexive",
        Op::IrreflexiveObjectProperty => "is irreflexive",
        Op::SymmetricObjectProperty => "is symmetric",
        Op::AsymmetricObjectProperty => "is asymmetric",
        Op::TransitiveObjectProperty => "is transitive",
        Op::SubDataPropertyOf => "is a data subproperty of",
        Op::EquivalentDataProperties => "are equivalent data properties",
        Op::DisjointDataProperties => "are disjoint data properties",
        Op::DataPropertyDomain => "has data domain",
        Op::DataPropertyRange => "has data range",
        Op::FunctionalDataProperty => "is a functional data property",
        Op::SameIndividual => "are the same individual",
        Op::DifferentIndividuals => "are different individuals",
        Op::ClassAssertion => "has instance",
        Op::ObjectPropertyAssertion => "relates",
        Op::NegativeObjectPropertyAssertion => "does not relate",
        Op::DataPropertyAssertion => "gives the value",
        Op::NegativeDataPropertyAssertion => "does not give the value",
        Op::AnnotationAssertion => "annotates",
        Op::SubAnnotationPropertyOf => "is an annotation subproperty of",
        Op::AnnotationPropertyDomain => "has annotation domain",
        Op::AnnotationPropertyRange => "has annotation range",
    }
}

/// How a literal is shown: its lexical form in quotes, followed by its
/// language tag where it has one, and by its datatype where it has none.
pub open spec fn literal_line(lexical: Seq<char>, datatype: Seq<char>, language: Option<Seq<char>>)
    -> Seq<char> {
    "\""@ + lexical + "\""@ + match language {
        Some(tag) => "@"@ + tag,
        None => "^^"@ + datatype,
    }
}

/// The lines for the first `count` of `children`, one after the other.
pub open spec fn render_first(children: Seq<OfnView>, count: int, indent: Seq<char>) -> Seq<char>
    decreases children, count,
{
    if 0 < count <= children.len() {
        render_first(children, count - 1, indent) + render_at(children[count - 1], indent)
    } else {
        Seq::empty()
    }
}

/// The lines for an expression, each starting with `indent`. An entity is
/// one line, its label where it has one and its identifier where it has
/// none. A literal is one line. An operator is a line with its words,
/// followed by the lines of its arguments, indented two spaces further.
pub open spec fn render_at(tree: OfnView, indent: Seq<char>) -> Seq<char>
    decreases tree, 0int,
{
    match tree {
        OfnView::Entity { id, label, .. } => indent + match label {
            Some(text) => text,
            None => id,
        } + "\n"@,
        OfnView::Literal { lexical, datatype, language } => indent + literal_line(
            lexical,
            datatype,
            language,
        ) + "\n"@,
        OfnView::Operator { op, children } => indent + phrase(op) + "\n"@ + render_first(
            children,
            children.len() as int,
            indent + "  "@,
        ),
    }
}

/// Adds the lines for an expression to `out`.
#[verifier::loop_isolation(false)]
fn render_into(tree: &Ofn, indent: &String, out: &mut String)
    ensures
        final(out)@ == old(out)@ + render_at(tree@, indent@),
    decreases tree,
{
    out.append(indent.as_str());
    match tree {
        Ofn::Entity { id, label, .. } => {
            match label {
                Some(text) => out.append(text.as_str()),
                None => out.append(id.as_str()),
            }
            out.append("\n");
            assert(out@ =~= old(out)@ + render_at(tree@, indent@));
        },
        Ofn::Literal { lexical, datatype, language } => {
            out.append("\"");
            out.append(lexical.as_str());
            out.append("\"");
            match language {
                Some(tag) => {
                    out.append("@");
                    out.append(tag.as_str());
                },
                None => {
                    out.append("^^");
                    out.append(datatype.as_str());
                },
            }
            out.append("\n");
            assert(out@ =~= old(out)@ + render_at(tree@, indent@));
        },
        Ofn::Operator { op, children } => {
            proof {
                lemma_ofn_operator(*op, *children);
            }
            out.append(phrase_text(*op));
            out.append("\n");
            let mut deeper = indent.clone();
            deeper.append("  ");
            let ghost views = tree@->children;
            let ghost start = out@;
            assert(start =~= old(out)@ + (indent@ + phrase(*op) + "\n"@));
            let mut i: usize = 0;
            assert(out@ =~= start + render_first(views, 0, deeper@));
            while i < children.len()
                invariant
                    i <= children.len(),
                    out@ == start + render_first(views, i as int, deeper@),
                decreases children.len() - i,
            {
                render_into(&children[i], &deeper, out);
                proof {
                    assert(views[i as int] == children[i as int]@);
                    assert(out@ =~= start + render_first(views, i + 1, deeper@));
                }
                i += 1;
            }
            assert(out@ =~= old(out)@ + render_at(tree@, indent@));
        },
    }
}

/// Lays an expression out for readers, one node to a line, the arguments of
/// an operator indented below it.
pub fn render(tree: &Ofn) -> (r: String)
    ensures
        r@ == render_at(tree@, Seq::empty()),
{
    let indent = String::new();
    let mut out = String::new();
    render_into(tree, &indent, &mut out);
    assert(out@ =~= render_at(tree@, Seq::empty()));
    out
}

} // verus!
