//! The signature of an expression: the identifiers of the entities in it.
use vstd::prelude::*;
use crate::ofn::{lemma_ofn_operator, Ofn, OfnView};
use crate::text::str_eq;

verus! {

/// The identifiers of the entities in the first `count` of `children`.
pub open spec fn signature_of_first(children: Seq<OfnView>, count: int) -> Set<Seq<char>>
    decreases children, 0nat,
{
    Set::new(
        |id: Seq<char>|
            exists|k: int|
                0 <= k < count && k < children.len() && signature(
                    (#[trigger] children[k]),
                ).contains(id),
    )
}

/// The identifiers of the entities in an expression. The words of operators
/// and the parts of literals are no entities.
pub open spec fn signature(tree: OfnView) -> Set<Seq<char>>
    decreases tree, 1nat,
{
    match tree {
        OfnView::Entity { id, .. } => set![id],
        OfnView::Literal { .. } => Set::empty(),
        OfnView::Operator { children, .. } => signature_of_first(children, children.len() as int),
    }
}

/// Two lists of expressions that have the same signatures item for item
/// have the same signature together.
pub proof fn lemma_signature_of_first(left: Seq<OfnView>, right: Seq<OfnView>)
    requires
        left.len() == right.len(),
        forall|i: int| 0 <= i < left.len() ==> signature(#[trigger] left[i]) == signature(right[i]),
    ensures
        signature_of_first(left, left.len() as int) == signature_of_first(
            right,
            right.len() as int,
        ),
{
    let count = left.len() as int;
    assert forall|id: Seq<char>|
        signature_of_first(left, count).contains(id) <==> signature_of_first(
            right,
            count,
        ).contains(id) by {
        if signature_of_first(left, count).contains(id) {
            let k = choose|k: int|
                0 <= k < count && k < left.len() && signature((#[trigger] left[k])).contains(id);
            assert(signature(right[k]).contains(id));
        }
        if signature_of_first(right, count).contains(id) {
            let k = choose|k: int|
                0 <= k < count && k < right.len() && signature((#[trigger] right[k])).contains(id);
            assert(signature(left[k]).contains(id));
        }
    }
    assert(signature_of_first(left, count) =~= signature_of_first(right, count));
}

/// The strings that a list holds.
pub open spec fn members(list: Vec<String>) -> Set<Seq<char>> {
    Set::new(|id: Seq<char>| exists|k: int| 0 <= k < list.len() && (#[trigger] list[k])@ == id)
}

/// Whether no string occurs twice in a list.
pub open spec fn distinct(list: Vec<String>) -> bool {
    forall|i: int, j: int| 0 <= i < j < list.len() ==> list[i]@ != list[j]@
}

/// Whether a list holds a string.
fn holds(list: &Vec<String>, id: &str) -> (r: bool)
    ensures
        r == members(*list).contains(id@),
{
    let mut i: usize = 0;
    while i < list.len()
        invariant
            i <= list.len(),
            forall|k: int| 0 <= k < i ==> (#[trigger] list[k])@ != id@,
        decreases list.len() - i,
    {
        if str_eq(list[i].as_str(), id) {
            return true;
        }
        i += 1;
    }
    false
}

/// Adds the identifiers of the entities in `tree` to `found`, each one that
/// is not there yet.
#[verifier::loop_isolation(false)]
fn collect(tree: &Ofn, found: &mut Vec<String>)
    ensures
        members(*final(found)) == members(*old(found)).union(signature(tree@)),
        distinct(*old(found)) ==> distinct(*final(found)),
    decreases tree,
{
    match tree {
        Ofn::Entity { id, .. } => {
            if !holds(found, id.as_str()) {
                found.push(id.clone());
                assert(found[old(found).len() as int]@ == id@);
                assert forall|text: Seq<char>| members(*old(found)).contains(text) implies members(
                    *found,
                ).contains(text) by {
                    let k = choose|k: int|
                        0 <= k < old(found).len() && (#[trigger] old(found)[k])@ == text;
                    assert(found[k]@ == text);
                }
            }
            assert(members(*found) =~= members(*old(found)).union(signature(tree@)));
        },
        Ofn::Literal { .. } => {
            assert(members(*found) =~= members(*old(found)).union(signature(tree@)));
        },
        Ofn::Operator { op, children } => {
            proof {
                lemma_ofn_operator(*op, *children);
            }
            let ghost views = tree@->children;
            let mut i: usize = 0;
            assert(members(*found) =~= members(*old(found)).union(signature_of_first(views, 0)));
            while i < children.len()
                invariant
                    i <= children.len(),
                    members(*found) == members(*old(found)).union(
                        signature_of_first(views, i as int),
                    ),
                    distinct(*old(found)) ==> distinct(*found),
                decreases children.len() - i,
            {
                let ghost before = *found;
                collect(&children[i], found);
                proof {
                    assert(views[i as int] == children[i as int]@);
                    assert forall|text: Seq<char>|
                        signature_of_first(views, i + 1).contains(text) <==> (signature_of_first(
                            views,
                            i as int,
                        ).contains(text) || signature(views[i as int]).contains(text)) by {
                        if signature_of_first(views, i + 1).contains(text) {
                            let k = choose|k: int|
                                0 <= k < i + 1 && k < views.len() && signature(
                                    (#[trigger] views[k]),
                                ).contains(text);
                            if k < i {
                                assert(signature_of_first(views, i as int).contains(text));
                            }
                        }
                        if signature_of_first(views, i as int).contains(text) {
                            let k = choose|k: int|
                                0 <= k < i && k < views.len() && signature(
                                    (#[trigger] views[k]),
                                ).contains(text);
                            assert(signature(views[k]).contains(text));
                        }
                    }
                    assert(members(*found) =~= members(*old(found)).union(
                        signature_of_first(views, i + 1),
                    ));
                }
                i += 1;
            }
        },
    }
}

/// The signature of an expression: the identifier of every entity in it,
/// each once, in no order that a caller may rely on.
pub fn extract_signature(tree: &Ofn) -> (r: Vec<String>)
    ensures
        members(r) == signature(tree@),
        distinct(r),
{
    let mut found: Vec<String> = Vec::new();
    assert(members(found) =~= Set::empty());
    collect(tree, &mut found);
    assert(members(found) =~= signature(tree@));
    found
}

} // verus!
