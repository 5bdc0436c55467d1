//! Labels for readers: gathering them from an ontology, and attaching them
//! to the entities of an expression.
use vstd::prelude::*;
use crate::assoc::{assoc_map, lemma_assoc_absent, lemma_assoc_last};
use crate::object::ObjectValue;
use crate::ofn::{lemma_ofn_operator, Ofn, OfnView, Sort, MAX_HEIGHT};
use crate::predicate::{lookup, predicate_of, Predicate};
use crate::record::triple_views;
use crate::signature::{lemma_signature_of_first, signature};
use crate::text::{clone_opt, opt_text, str_eq};
use crate::thick::{ThickTriple, ThickTripleView};

verus! {

/// Labels by identifier. The entries are kept in the order in which they
/// were made; where two are for one identifier, the later one counts.
#[derive(Debug, PartialEq, Eq)]
pub struct LabelMap {
    pub entries: Vec<(String, String)>,
}

impl View for LabelMap {
    type V = Map<Seq<char>, Seq<char>>;

    open spec fn view(&self) -> Map<Seq<char>, Seq<char>> {
        assoc_map(self.pairs())
    }
}

impl Clone for LabelMap {
    fn clone(&self) -> (r: LabelMap)
        ensures
            r@ == self@,
    {
        let mut entries: Vec<(String, String)> = Vec::new();
        let mut i: usize = 0;
        while i < self.entries.len()
            invariant
                i <= self.entries.len(),
                entries.len() == i,
                forall|k: int|
                    0 <= k < i ==> (#[trigger] entries[k]).0@ == self.entries[k].0@ && entries[k].1@
                        == self.entries[k].1@,
            decreases self.entries.len() - i,
        {
            entries.push((self.entries[i].0.clone(), self.entries[i].1.clone()));
            i += 1;
        }
        let r = LabelMap { entries };
        assert(r.pairs() =~= self.pairs());
        r
    }
}

impl LabelMap {
    /// The entries as mathematical values.
    pub open spec fn pairs(&self) -> Seq<(Seq<char>, Seq<char>)> {
        Seq::new(self.entries.len() as nat, |i: int| (self.entries[i].0@, self.entries[i].1@))
    }

    /// A map with no label.
    pub fn new() -> (r: LabelMap)
        ensures
            r@ == Map::<Seq<char>, Seq<char>>::empty(),
    {
        LabelMap { entries: Vec::new() }
    }

    /// Gives `id` the label `label`, in place of any label it had.
    pub fn insert(&mut self, id: String, label: String)
        ensures
            final(self)@ == old(self)@.insert(id@, label@),
    {
        self.entries.push((id, label));
        assert(self.pairs().drop_last() =~= old(self).pairs());
    }

    /// The label of `id`, if it has one.
    pub fn get(&self, id: &str) -> (r: Option<String>)
        ensures
            opt_text(r) == (if self@.contains_key(id@) {
                Some(self@[id@])
            } else {
                None
            }),
    {
        let mut i: usize = self.entries.len();
        while i > 0
            invariant
                i <= self.entries.len(),
                forall|j: int|
                    i <= j < self.entries.len() ==> (#[trigger] self.pairs()[j]).0 != id@,
            decreases i,
        {
            i -= 1;
            if str_eq(self.entries[i].0.as_str(), id) {
                proof {
                    lemma_assoc_last(self.pairs(), id@, i as int);
                }
                return Some(self.entries[i].1.clone());
            }
        }
        proof {
            lemma_assoc_absent(self.pairs(), id@);
        }
        None
    }
}

/// The label that a triple gives its subject: the lexical form of its
/// object, where the predicate is the label predicate and the object is a
/// literal.
pub open spec fn label_of(triple: ThickTripleView) -> Option<(Seq<char>, Seq<char>)> {
    if predicate_of(triple.predicate) == Some(Predicate::Label) && triple.object is Literal {
        Some((triple.subject, triple.object->lexical))
    } else {
        None
    }
}

/// The identifier to which a label triple gives a label.
pub open spec fn labelled_id(triple: ThickTripleView) -> Seq<char> {
    triple.subject
}

/// The label that a label triple gives.
pub open spec fn given_label(triple: ThickTripleView) -> Seq<char> {
    triple.object->lexical
}

/// Whether a triple gives `id` a label.
pub open spec fn labels_for(triple: ThickTripleView, id: Seq<char>) -> bool {
    match label_of(triple) {
        Some((subject, _)) => subject == id,
        None => false,
    }
}

/// The labels that a list of triples gives: those of the label triples in
/// it, a later triple overriding an earlier one for the same subject.
pub open spec fn labels_of(triples: Seq<ThickTripleView>) -> Map<Seq<char>, Seq<char>>
    decreases triples.len(),
{
    if triples.len() == 0 {
        Map::empty()
    } else {
        match label_of(triples.last()) {
            Some((id, label)) => labels_of(triples.drop_last()).insert(id, label),
            None => labels_of(triples.drop_last()),
        }
    }
}

/// Of the label triples for one identifier the last one decides: where a
/// triple gives `id` a label and no later triple gives it one, that label is
/// the label of `id`.
pub proof fn lemma_labels_of_last(triples: Seq<ThickTripleView>, k: int)
    requires
        0 <= k < triples.len(),
        label_of(triples[k]) is Some,
        forall|j: int|
            k < j < triples.len() ==> !labels_for(#[trigger] triples[j], labelled_id(triples[k])),
    ensures
        labels_of(triples).contains_key(labelled_id(triples[k])),
        labels_of(triples)[labelled_id(triples[k])] == given_label(triples[k]),
    decreases triples.len(),
{
    if k < triples.len() - 1 {
        let front = triples.drop_last();
        assert(front[k] == triples[k]);
        assert forall|j: int| k < j < front.len() implies !labels_for(
            #[trigger] front[j],
            labelled_id(front[k]),
        ) by {
            assert(front[j] == triples[j]);
        }
        lemma_labels_of_last(front, k);
        assert(!labels_for(triples[triples.len() - 1], labelled_id(triples[k])));
    }
}

/// An identifier has a label exactly where a triple gives it one.
pub proof fn lemma_labels_of_keys(triples: Seq<ThickTripleView>, id: Seq<char>)
    ensures
        labels_of(triples).contains_key(id) <==> exists|i: int|
            0 <= i < triples.len() && labels_for(#[trigger] triples[i], id),
    decreases triples.len(),
{
    if triples.len() > 0 {
        let front = triples.drop_last();
        lemma_labels_of_keys(front, id);
        if labels_of(front).contains_key(id) {
            let i = choose|i: int| 0 <= i < front.len() && labels_for(#[trigger] front[i], id);
            assert(front[i] == triples[i]);
        }
        if exists|i: int| 0 <= i < triples.len() && labels_for(#[trigger] triples[i], id) {
            let i = choose|i: int| 0 <= i < triples.len() && labels_for(#[trigger] triples[i], id);
            if i < front.len() {
                assert(front[i] == triples[i]);
            }
        }
        assert(triples[triples.len() - 1] == triples.last());
    }
}

/// Gathers the labels that the triples of an ontology give.
pub fn extract_labeling(triples: &Vec<ThickTriple>) -> (r: LabelMap)
    ensures
        r@ == labels_of(triple_views(*triples)),
{
    let ghost views = triple_views(*triples);
    let mut map = LabelMap::new();
    let mut i: usize = 0;
    assert(views.take(0) =~= Seq::empty());
    while i < triples.len()
        invariant
            i <= triples.len(),
            views == triple_views(*triples),
            map@ == labels_of(views.take(i as int)),
        decreases triples.len() - i,
    {
        let triple = &triples[i];
        proof {
            assert(views.take(i + 1).drop_last() =~= views.take(i as int));
            assert(views.take(i + 1).last() == triple@);
        }
        match lookup(triple.predicate.as_str()) {
            Some(Predicate::Label) => match &triple.object {
                ObjectValue::Literal { lexical, .. } => {
                    map.insert(triple.subject.clone(), lexical.clone());
                },
                _ => {},
            },
            _ => {},
        }
        i += 1;
    }
    assert(views.take(triples.len() as int) =~= views);
    map
}

/// The expression with the labels of a map attached: an entity whose
/// identifier has a label in the map gets that label; every other node stays
/// as it is.
pub open spec fn inject_labels_spec(tree: OfnView, labels: Map<Seq<char>, Seq<char>>) -> OfnView
    decreases tree,
{
    match tree {
        OfnView::Entity { kind, id, label } => OfnView::Entity {
            kind,
            id,
            label: if labels.contains_key(id) {
                Some(labels[id])
            } else {
                label
            },
        },
        OfnView::Literal { .. } => tree,
        OfnView::Operator { op, children } => OfnView::Operator {
            op,
            children: Seq::new(
                children.len(),
                |i: int|
                    if 0 <= i < children.len() {
                        inject_labels_spec(children[i], labels)
                    } else {
                        tree
                    },
            ),
        },
    }
}

/// Attaching the labels of a map a second time changes nothing.
pub proof fn lemma_inject_labels_idempotent(tree: OfnView, labels: Map<Seq<char>, Seq<char>>)
    ensures
        inject_labels_spec(inject_labels_spec(tree, labels), labels) == inject_labels_spec(
            tree,
            labels,
        ),
    decreases tree,
{
    match tree {
        OfnView::Operator { op, children } => {
            let once = inject_labels_spec(tree, labels);
            let twice = inject_labels_spec(once, labels);
            assert forall|i: int| 0 <= i < children.len() implies #[trigger] twice->children[i]
                == once->children[i] by {
                lemma_inject_labels_idempotent(children[i], labels);
            }
            assert(twice->children =~= once->children);
        },
        _ => {},
    }
}

/// Attaching labels changes neither where an expression may stand nor how
/// deep it is.
pub proof fn lemma_inject_labels_well_formed(
    tree: OfnView,
    labels: Map<Seq<char>, Seq<char>>,
    sort: Sort,
    limit: nat,
)
    ensures
        inject_labels_spec(tree, labels).fits(sort) == tree.fits(sort),
        inject_labels_spec(tree, labels).within(limit) == tree.within(limit),
    decreases tree,
{
    match tree {
        OfnView::Operator { op, children } => {
            let labelled = inject_labels_spec(tree, labels);
            assert forall|i: int| 0 <= i < children.len() implies (
            #[trigger] labelled->children[i]).fits(op.signature().spec_argument(i))
                == children[i].fits(op.signature().spec_argument(i)) && labelled->children[i].within(
                (limit - 1) as nat,
            ) == children[i].within((limit - 1) as nat) by {
                lemma_inject_labels_well_formed(
                    children[i],
                    labels,
                    op.signature().spec_argument(i),
                    (limit - 1) as nat,
                );
            }
            if tree.fits(sort) {
                assert(labelled.fits(sort));
            }
            if labelled.fits(sort) {
                assert forall|i: int| 0 <= i < children.len() implies (#[trigger] children[i]).fits(
                    op.signature().spec_argument(i),
                ) by {
                    assert(labelled->children[i].fits(op.signature().spec_argument(i)));
                }
            }
            if tree.within(limit) {
                assert(labelled.within(limit));
            }
            if labelled.within(limit) {
                assert forall|i: int| 0 <= i < children.len() implies (
                #[trigger] children[i]).within((limit - 1) as nat) by {
                    assert(labelled->children[i].within((limit - 1) as nat));
                }
            }
        },
        _ => {},
    }
}

/// Attaching labels leaves the signature of an expression as it was.
pub proof fn lemma_inject_labels_signature(tree: OfnView, labels: Map<Seq<char>, Seq<char>>)
    ensures
        signature(inject_labels_spec(tree, labels)) == signature(tree),
    decreases tree,
{
    match tree {
        OfnView::Operator { op, children } => {
            let labelled = inject_labels_spec(tree, labels)->children;
            assert forall|i: int| 0 <= i < children.len() implies signature(
                #[trigger] labelled[i],
            ) == signature(children[i]) by {
                lemma_inject_labels_signature(children[i], labels);
            }
            lemma_signature_of_first(labelled, children);
        },
        _ => {},
    }
}

/// Attaches the labels of a map to the entities of an expression. An entity
/// whose identifier has no label in the map stays as it is.
#[verifier::loop_isolation(false)]
pub fn inject_labels(tree: &Ofn, labels: &LabelMap) -> (r: Ofn)
    ensures
        r@ == inject_labels_spec(tree@, labels@),
        tree@.well_formed() ==> r@.well_formed(),
    decreases tree,
{
    proof {
        lemma_inject_labels_well_formed(tree@, labels@, Sort::Any, MAX_HEIGHT as nat);
    }
    match tree {
        Ofn::Entity { kind, id, label } => {
            let found = labels.get(id.as_str());
            match found {
                Some(text) => Ofn::Entity { kind: *kind, id: id.clone(), label: Some(text) },
                None => Ofn::Entity { kind: *kind, id: id.clone(), label: clone_opt(label) },
            }
        },
        Ofn::Literal { lexical, datatype, language } => Ofn::Literal {
            lexical: lexical.clone(),
            datatype: datatype.clone(),
            language: clone_opt(language),
        },
        Ofn::Operator { op, children } => {
            proof {
                lemma_ofn_operator(*op, *children);
            }
            let mut labelled: Vec<Ofn> = Vec::new();
            let mut i: usize = 0;
            while i < children.len()
                invariant
                    i <= children.len(),
                    labelled.len() == i,
                    forall|k: int|
                        0 <= k < i ==> (#[trigger] labelled[k])@ == inject_labels_spec(
                            children[k]@,
                            labels@,
                        ),
                decreases children.len() - i,
            {
                let child = inject_labels(&children[i], labels);
                labelled.push(child);
                i += 1;
            }
            let r = Ofn::Operator { op: *op, children: labelled };
            proof {
                lemma_ofn_operator(r->op, r->children);
                assert(r@->children =~= inject_labels_spec(tree@, labels@)->children);
            }
            r
        },
    }
}

} // verus!
