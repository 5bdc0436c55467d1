//! Kinds for entities: gathering them from the declarations of an ontology,
//! and settling the kind of the entities of an expression.
use vstd::prelude::*;
use crate::assoc::{assoc_map, lemma_assoc_absent, lemma_assoc_last};
use crate::object::ObjectValue;
use crate::ofn::{lemma_ofn_operator, EntityKind, Ofn, OfnView, Sort, MAX_HEIGHT};
use crate::predicate::{lookup, predicate_of, Predicate};
use crate::record::triple_views;
use crate::signature::{lemma_signature_of_first, signature};
use crate::text::{clone_opt, str_eq};
use crate::thick::{ThickTriple, ThickTripleView};

verus! {

/// A set of kinds.
#[derive(Clone, Copy, Debug, PartialEq, Eq, Structural)]
pub struct KindSet {
    pub class: bool,
    pub datatype: bool,
    pub object_property: bool,
    pub data_property: bool,
    pub annotation_property: bool,
    pub named_individual: bool,
}

impl KindSet {
    /// Whether the set holds `kind`.
    pub open spec fn spec_has(self, kind: EntityKind) -> bool {
        match kind {
            EntityKind::Class => self.class,
            EntityKind::Datatype => self.datatype,
            EntityKind::ObjectProperty => self.object_property,
            EntityKind::DataProperty => self.data_property,
            EntityKind::AnnotationProperty => self.annotation_property,
            EntityKind::NamedIndividual => self.named_individual,
        }
    }

    /// Whether the set holds `kind`.
    #[verifier::when_used_as_spec(spec_has)]
    pub fn has(self, kind: EntityKind) -> (r: bool)
        ensures
            r == self.spec_has(kind),
    {
        match kind {
            EntityKind::Class => self.class,
            EntityKind::Datatype => self.datatype,
            EntityKind::ObjectProperty => self.object_property,
            EntityKind::DataProperty => self.data_property,
            EntityKind::AnnotationProperty => self.annotation_property,
            EntityKind::NamedIndividual => self.named_individual,
        }
    }

    /// The set without any kind.
    pub open spec fn spec_empty() -> KindSet {
        KindSet {
            class: false,
            datatype: false,
            object_property: false,
            data_property: false,
            annotation_property: false,
            named_individual: false,
        }
    }

    /// The set without any kind.
    #[verifier::when_used_as_spec(spec_empty)]
    pub fn empty() -> (r: KindSet)
        ensures
            r == KindSet::spec_empty(),
            forall|kind: EntityKind| !r.has(kind),
    {
        KindSet {
            class: false,
            datatype: false,
            object_property: false,
            data_property: false,
            annotation_property: false,
            named_individual: false,
        }
    }

    /// The set with `kind` added.
    pub open spec fn spec_with(self, kind: EntityKind) -> KindSet {
        match kind {
            EntityKind::Class => KindSet { class: true, ..self },
            EntityKind::Datatype => KindSet { datatype: true, ..self },
            EntityKind::ObjectProperty => KindSet { object_property: true, ..self },
            EntityKind::DataProperty => KindSet { data_property: true, ..self },
            EntityKind::AnnotationProperty => KindSet { annotation_property: true, ..self },
            EntityKind::NamedIndividual => KindSet { named_individual: true, ..self },
        }
    }

    /// The set with `kind` added.
    #[verifier::when_used_as_spec(spec_with)]
    pub fn with(self, kind: EntityKind) -> (r: KindSet)
        ensures
            r == self.spec_with(kind),
            forall|other: EntityKind| r.has(other) == (other == kind || self.has(other)),
    {
        match kind {
            EntityKind::Class => KindSet { class: true, ..self },
            EntityKind::Datatype => KindSet { datatype: true, ..self },
            EntityKind::ObjectProperty => KindSet { object_property: true, ..self },
            EntityKind::DataProperty => KindSet { data_property: true, ..self },
            EntityKind::AnnotationProperty => KindSet { annotation_property: true, ..self },
            EntityKind::NamedIndividual => KindSet { named_individual: true, ..self },
        }
    }

    /// The kind in the set, where the set holds exactly one.
    pub open spec fn spec_single(self) -> Option<EntityKind> {
        if self == KindSet::empty().with(EntityKind::Class) {
            Some(EntityKind::Class)
        } else if self == KindSet::empty().with(EntityKind::Datatype) {
            Some(EntityKind::Datatype)
        } else if self == KindSet::empty().with(EntityKind::ObjectProperty) {
            Some(EntityKind::ObjectProperty)
        } else if self == KindSet::empty().with(EntityKind::DataProperty) {
            Some(EntityKind::DataProperty)
        } else if self == KindSet::empty().with(EntityKind::AnnotationProperty) {
            Some(EntityKind::AnnotationProperty)
        } else if self == KindSet::empty().with(EntityKind::NamedIndividual) {
            Some(EntityKind::NamedIndividual)
        } else {
            None
        }
    }

    /// The kind in the set, where the set holds exactly one.
    #[verifier::when_used_as_spec(spec_single)]
    pub fn single(self) -> (r: Option<EntityKind>)
        ensures
            r == self.spec_single(),
            r matches Some(kind) ==> forall|other: EntityKind| self.has(other) == (other == kind),
            r is None ==> forall|kind: EntityKind|
                self.has(kind) ==> exists|other: EntityKind| other != kind && self.has(other),
    {
        proof {
            if self.spec_single() is None {
                assert forall|kind: EntityKind| self.has(kind) implies exists|other: EntityKind|
                    other != kind && self.has(other) by {
                    let witness = if self.class && kind != EntityKind::Class {
                        EntityKind::Class
                    } else if self.datatype && kind != EntityKind::Datatype {
                        EntityKind::Datatype
                    } else if self.object_property && kind != EntityKind::ObjectProperty {
                        EntityKind::ObjectProperty
                    } else if self.data_property && kind != EntityKind::DataProperty {
                        EntityKind::DataProperty
                    } else if self.annotation_property && kind != EntityKind::AnnotationProperty {
                        EntityKind::AnnotationProperty
                    } else {
                        EntityKind::NamedIndividual
                    };
                    assert(witness != kind && self.has(witness));
                }
            }
        }
        if self == KindSet::empty().with(EntityKind::Class) {
            Some(EntityKind::Class)
        } else if self == KindSet::empty().with(EntityKind::Datatype) {
            Some(EntityKind::Datatype)
        } else if self == KindSet::empty().with(EntityKind::ObjectProperty) {
            Some(EntityKind::ObjectProperty)
        } else if self == KindSet::empty().with(EntityKind::DataProperty) {
            Some(EntityKind::DataProperty)
        } else if self == KindSet::empty().with(EntityKind::AnnotationProperty) {
            Some(EntityKind::AnnotationProperty)
        } else if self == KindSet::empty().with(EntityKind::NamedIndividual) {
            Some(EntityKind::NamedIndividual)
        } else {
            None
        }
    }
}

/// The name by which declarations and tags refer to a kind.
pub open spec fn kind_name(kind: EntityKind) -> Seq<char> {
    match kind {
        EntityKind::Class => "owl:Class"@,
        EntityKind::Datatype => "rdfs:Datatype"@,
        EntityKind::ObjectProperty => "owl:ObjectProperty"@,
        EntityKind::DataProperty => "owl:DatatypeProperty"@,
        EntityKind::AnnotationProperty => "owl:AnnotationProperty"@,
        EntityKind::NamedIndividual => "owl:NamedIndividual"@,
    }
}

/// The name by which declarations and tags refer to a kind.
pub fn kind_text(kind: EntityKind) -> (r: &'static str)
    ensures
        r@ == kind_name(kind),
{
    match kind {
        EntityKind::Class => "owl:Class",
        EntityKind::Datatype => "rdfs:Datatype",
        EntityKind::ObjectProperty => "owl:ObjectProperty",
        EntityKind::DataProperty => "owl:DatatypeProperty",
        EntityKind::AnnotationProperty => "owl:AnnotationProperty",
        EntityKind::NamedIndividual => "owl:NamedIndividual",
    }
}

/// The kind that `name` refers to, if it refers to one.
pub open spec fn kind_of_name(name: Seq<char>) -> Option<EntityKind> {
    if name == "owl:Class"@ {
        Some(EntityKind::Class)
    } else if name == "rdfs:Datatype"@ {
        Some(EntityKind::Datatype)
    } else if name == "owl:ObjectProperty"@ {
        Some(EntityKind::ObjectProperty)
    } else if name == "owl:DatatypeProperty"@ {
        Some(EntityKind::DataProperty)
    } else if name == "owl:AnnotationProperty"@ {
        Some(EntityKind::AnnotationProperty)
    } else if name == "owl:NamedIndividual"@ {
        Some(EntityKind::NamedIndividual)
    } else {
        None
    }
}

/// The kind that `name` refers to, if it refers to one.
pub fn kind_from_text(name: &str) -> (r: Option<EntityKind>)
    ensures
        r == kind_of_name(name@),
{
    if str_eq(name, "owl:Class") {
        Some(EntityKind::Class)
    } else if str_eq(name, "rdfs:Datatype") {
        Some(EntityKind::Datatype)
    } else if str_eq(name, "owl:ObjectProperty") {
        Some(EntityKind::ObjectProperty)
    } else if str_eq(name, "owl:DatatypeProperty") {
        Some(EntityKind::DataProperty)
    } else if str_eq(name, "owl:AnnotationProperty") {
        Some(EntityKind::AnnotationProperty)
    } else if str_eq(name, "owl:NamedIndividual") {
        Some(EntityKind::NamedIndividual)
    } else {
        None
    }
}

/// No two kinds share a name: the name of a kind refers to it.
pub proof fn lemma_kind_of_name(kind: EntityKind)
    ensures
        kind_of_name(kind_name(kind)) == Some(kind),
{
    reveal_strlit("owl:Class");
    reveal_strlit("rdfs:Datatype");
    reveal_strlit("owl:ObjectProperty");
    reveal_strlit("owl:DatatypeProperty");
    reveal_strlit("owl:AnnotationProperty");
    reveal_strlit("owl:NamedIndividual");
    assert("owl:Class"@.len() == 9);
    assert("rdfs:Datatype"@.len() == 13);
    assert("owl:ObjectProperty"@.len() == 18);
    assert("owl:DatatypeProperty"@.len() == 20);
    assert("owl:AnnotationProperty"@.len() == 22);
    assert("owl:NamedIndividual"@.len() == 19);
}

/// The kinds that a map gives an identifier: none where it has no entry.
pub open spec fn tags_in(types: Map<Seq<char>, KindSet>, id: Seq<char>) -> KindSet {
    if types.contains_key(id) {
        types[id]
    } else {
        KindSet::empty()
    }
}

/// Sets of kinds by identifier. The entries are kept in the order in which
/// they were made; where two are for one identifier, the later one counts.
#[derive(Debug, PartialEq, Eq)]
pub struct TypeMap {
    pub entries: Vec<(String, KindSet)>,
}

impl View for TypeMap {
    type V = Map<Seq<char>, KindSet>;

    open spec fn view(&self) -> Map<Seq<char>, KindSet> {
        assoc_map(self.pairs())
    }
}

impl Clone for TypeMap {
    fn clone(&self) -> (r: TypeMap)
        ensures
            r@ == self@,
    {
        let mut entries: Vec<(String, KindSet)> = Vec::new();
        let mut i: usize = 0;
        while i < self.entries.len()
            invariant
                i <= self.entries.len(),
                entries.len() == i,
                forall|k: int|
                    0 <= k < i ==> (#[trigger] entries[k]).0@ == self.entries[k].0@ && entries[k].1
                        == self.entries[k].1,
            decreases self.entries.len() - i,
        {
            entries.push((self.entries[i].0.clone(), self.entries[i].1));
            i += 1;
        }
        let r = TypeMap { entries };
        assert(r.pairs() =~= self.pairs());
        r
    }
}

impl TypeMap {
    /// The entries as mathematical values.
    pub open spec fn pairs(&self) -> Seq<(Seq<char>, KindSet)> {
        Seq::new(self.entries.len() as nat, |i: int| (self.entries[i].0@, self.entries[i].1))
    }

    /// A map with no entry.
    pub fn new() -> (r: TypeMap)
        ensures
            r@ == Map::<Seq<char>, KindSet>::empty(),
    {
        TypeMap { entries: Vec::new() }
    }

    /// The kinds of `id`, if it has an entry.
    pub fn get(&self, id: &str) -> (r: Option<KindSet>)
        ensures
            r == (if self@.contains_key(id@) {
                Some(self@[id@])
            } else {
                None
            }),
    {
        let mut i: usize = self.entries.len();
        while i > 0
            invariant
                i <= self.entries.len(),
                forall|j: int|
                    i <= j < self.entries.len() ==> (#[trigger] self.pairs()[j]).0 != id@,
            decreases i,
        {
            i -= 1;
            if str_eq(self.entries[i].0.as_str(), id) {
                proof {
                    lemma_assoc_last(self.pairs(), id@, i as int);
                }
                return Some(self.entries[i].1);
            }
        }
        proof {
            lemma_assoc_absent(self.pairs(), id@);
        }
        None
    }

    /// Gives `id` the kinds `kinds`, in place of any it had.
    pub fn insert(&mut self, id: String, kinds: KindSet)
        ensures
            final(self)@ == old(self)@.insert(id@, kinds),
    {
        self.entries.push((id, kinds));
        assert(self.pairs().drop_last() =~= old(self).pairs());
    }

    /// Adds `kind` to the kinds of `id`.
    pub fn add(&mut self, id: String, kind: EntityKind)
        ensures
            final(self)@ == old(self)@.insert(id@, tags_in(old(self)@, id@).with(kind)),
    {
        let kinds = match self.get(id.as_str()) {
            Some(kinds) => kinds,
            None => KindSet::empty(),
        };
        self.insert(id, kinds.with(kind));
    }
}

/// What a triple declares: the kind of its subject, where the predicate is
/// the type predicate and the object is the name of a kind.
pub open spec fn declared(triple: ThickTripleView) -> Option<(Seq<char>, EntityKind)> {
    if predicate_of(triple.predicate) == Some(Predicate::Type) && triple.object is Identifier {
        match kind_of_name(triple.object->Identifier_0) {
            Some(kind) => Some((triple.subject, kind)),
            None => None,
        }
    } else {
        None
    }
}

/// Whether a triple declares a kind of `id`.
pub open spec fn declares(triple: ThickTripleView, id: Seq<char>) -> bool {
    match declared(triple) {
        Some((subject, _)) => subject == id,
        None => false,
    }
}

/// The kinds that a list of triples declares, by identifier. An identifier
/// that no triple declares has no entry.
pub open spec fn types_of(triples: Seq<ThickTripleView>) -> Map<Seq<char>, KindSet>
    decreases triples.len(),
{
    if triples.len() == 0 {
        Map::empty()
    } else {
        let earlier = types_of(triples.drop_last());
        match declared(triples.last()) {
            Some((id, kind)) => earlier.insert(id, tags_in(earlier, id).with(kind)),
            None => earlier,
        }
    }
}

/// An identifier has an entry exactly where a triple declares it, and its
/// entry holds exactly the kinds that triples declare of it.
pub proof fn lemma_types_of(triples: Seq<ThickTripleView>, id: Seq<char>, kind: EntityKind)
    ensures
        types_of(triples).contains_key(id) <==> exists|i: int|
            0 <= i < triples.len() && declares(#[trigger] triples[i], id),
        tags_in(types_of(triples), id).has(kind) <==> exists|i: int|
            0 <= i < triples.len() && declared(#[trigger] triples[i]) == Some((id, kind)),
    decreases triples.len(),
{
    if triples.len() > 0 {
        let front = triples.drop_last();
        let last = triples.last();
        lemma_types_of(front, id, kind);
        if types_of(front).contains_key(id) {
            let i = choose|i: int|
                0 <= i < front.len() && declares(#[trigger] front[i], id);
            assert(front[i] == triples[i]);
        }
        if tags_in(types_of(front), id).has(kind) {
            let i = choose|i: int|
                0 <= i < front.len() && declared(#[trigger] front[i]) == Some((id, kind));
            assert(front[i] == triples[i]);
        }
        if exists|i: int|
            0 <= i < triples.len() && declares(#[trigger] triples[i], id) {
            let i = choose|i: int|
                0 <= i < triples.len() && declares(#[trigger] triples[i], id);
            if i < front.len() {
                assert(front[i] == triples[i]);
            }
        }
        if exists|i: int|
            0 <= i < triples.len() && declared(#[trigger] triples[i]) == Some((id, kind)) {
            let i = choose|i: int|
                0 <= i < triples.len() && declared(#[trigger] triples[i]) == Some((id, kind));
            if i < front.len() {
                assert(front[i] == triples[i]);
            }
        }
        assert(triples[triples.len() - 1] == last);
    }
}

/// Gathers the kinds that the triples of an ontology declare.
pub fn extract_typing(triples: &Vec<ThickTriple>) -> (r: TypeMap)
    ensures
        r@ == types_of(triple_views(*triples)),
{
    let ghost views = triple_views(*triples);
    let mut map = TypeMap::new();
    let mut i: usize = 0;
    assert(views.take(0) =~= Seq::empty());
    while i < triples.len()
        invariant
            i <= triples.len(),
            views == triple_views(*triples),
            map@ == types_of(views.take(i as int)),
        decreases triples.len() - i,
    {
        let triple = &triples[i];
        proof {
            assert(views.take(i + 1).drop_last() =~= views.take(i as int));
            assert(views.take(i + 1).last() == triple@);
        }
        match lookup(triple.predicate.as_str()) {
            Some(Predicate::Type) => match &triple.object {
                ObjectValue::Identifier(name) => match kind_from_text(name.as_str()) {
                    Some(kind) => {
                        map.add(triple.subject.clone(), kind);
                    },
                    None => {},
                },
                _ => {},
            },
            _ => {},
        }
        i += 1;
    }
    assert(views.take(triples.len() as int) =~= views);
    map
}

/// The kind that an entity of no settled kind gets. Without an entry in the
/// map it gets none. With one, the position decides where it asks for a
/// kind, whatever the entry holds; elsewhere the entry decides where it holds
/// exactly one kind.
pub open spec fn resolved_kind(position: Sort, tags: Option<KindSet>) -> Option<EntityKind> {
    match tags {
        None => None,
        Some(kinds) => match position.kind() {
            Some(kind) => Some(kind),
            None => kinds.single(),
        },
    }
}

/// The entry of `id` in a map, if it has one.
pub open spec fn entry(types: Map<Seq<char>, KindSet>, id: Seq<char>) -> Option<KindSet> {
    if types.contains_key(id) {
        Some(types[id])
    } else {
        None
    }
}

/// The expression that stands in a position of sort `position`, with the
/// kinds of its entities settled as far as the map and the positions allow.
/// An entity whose kind is settled already stays as it is.
pub open spec fn inject_types_spec(
    tree: OfnView,
    types: Map<Seq<char>, KindSet>,
    position: Sort,
) -> OfnView
    decreases tree,
{
    match tree {
        OfnView::Entity { kind: None, id, label } => OfnView::Entity {
            kind: resolved_kind(position, entry(types, id)),
            id,
            label,
        },
        OfnView::Operator { op, children } => OfnView::Operator {
            op,
            children: Seq::new(
                children.len(),
                |i: int|
                    if 0 <= i < children.len() {
                        inject_types_spec(children[i], types, op.signature().spec_argument(i))
                    } else {
                        tree
                    },
            ),
        },
        _ => tree,
    }
}

/// Settling kinds keeps an expression where it may stand, and as deep as it
/// was.
pub proof fn lemma_inject_types_well_formed(
    tree: OfnView,
    types: Map<Seq<char>, KindSet>,
    position: Sort,
    limit: nat,
)
    ensures
        tree.fits(position) ==> inject_types_spec(tree, types, position).fits(position),
        inject_types_spec(tree, types, position).within(limit) == tree.within(limit),
    decreases tree,
{
    match tree {
        OfnView::Operator { op, children } => {
            let typed = inject_types_spec(tree, types, position);
            assert forall|i: int| 0 <= i < children.len() implies (children[i].fits(
                op.signature().spec_argument(i),
            ) ==> (#[trigger] typed->children[i]).fits(op.signature().spec_argument(i)))
                && typed->children[i].within((limit - 1) as nat) == children[i].within(
                (limit - 1) as nat,
            ) by {
                lemma_inject_types_well_formed(
                    children[i],
                    types,
                    op.signature().spec_argument(i),
                    (limit - 1) as nat,
                );
            }
            if tree.fits(position) {
                assert forall|i: int| 0 <= i < children.len() implies (
                #[trigger] typed->children[i]).fits(op.signature().spec_argument(i)) by {
                    assert(children[i].fits(op.signature().spec_argument(i)));
                }
            }
            if tree.within(limit) {
                assert(typed.within(limit));
            }
            if typed.within(limit) {
                assert forall|i: int| 0 <= i < children.len() implies (
                #[trigger] children[i]).within((limit - 1) as nat) by {
                    assert(typed->children[i].within((limit - 1) as nat));
                }
            }
        },
        _ => {},
    }
}

/// Settling kinds leaves the signature of an expression as it was.
pub proof fn lemma_inject_types_signature(
    tree: OfnView,
    types: Map<Seq<char>, KindSet>,
    position: Sort,
)
    ensures
        signature(inject_types_spec(tree, types, position)) == signature(tree),
    decreases tree,
{
    match tree {
        OfnView::Operator { op, children } => {
            let typed = inject_types_spec(tree, types, position)->children;
            assert forall|i: int| 0 <= i < children.len() implies signature(#[trigger] typed[i])
                == signature(children[i]) by {
                lemma_inject_types_signature(children[i], types, op.signature().spec_argument(i));
            }
            lemma_signature_of_first(typed, children);
        },
        _ => {},
    }
}

/// Settling kinds a second time, with the same map and in the same
/// position, changes nothing.
pub proof fn lemma_inject_types_idempotent(
    tree: OfnView,
    types: Map<Seq<char>, KindSet>,
    position: Sort,
)
    ensures
        inject_types_spec(inject_types_spec(tree, types, position), types, position)
            == inject_types_spec(tree, types, position),
    decreases tree,
{
    match tree {
        OfnView::Operator { op, children } => {
            let once = inject_types_spec(tree, types, position);
            let twice = inject_types_spec(once, types, position);
            assert forall|i: int| 0 <= i < children.len() implies #[trigger] twice->children[i]
                == once->children[i] by {
                lemma_inject_types_idempotent(children[i], types, op.signature().spec_argument(i));
            }
            assert(twice->children =~= once->children);
        },
        _ => {},
    }
}

/// An expression none of whose identifiers has an entry in the map stays as
/// it is.
pub proof fn lemma_inject_types_absent(
    tree: OfnView,
    types: Map<Seq<char>, KindSet>,
    position: Sort,
)
    requires
        forall|id: Seq<char>| signature(tree).contains(id) ==> !types.contains_key(id),
    ensures
        inject_types_spec(tree, types, position) == tree,
    decreases tree,
{
    match tree {
        OfnView::Entity { id, .. } => {
            assert(signature(tree).contains(id));
        },
        OfnView::Operator { op, children } => {
            let typed = inject_types_spec(tree, types, position);
            assert forall|i: int| 0 <= i < children.len() implies #[trigger] typed->children[i]
                == children[i] by {
                assert forall|id: Seq<char>| signature(children[i]).contains(id) implies
                    !types.contains_key(id) by {
                    assert(signature(tree).contains(id));
                }
                lemma_inject_types_absent(children[i], types, op.signature().spec_argument(i));
            }
            assert(typed->children =~= children);
        },
        _ => {},
    }
}

/// Settles the kinds of the entities of an expression that stands in a
/// position of sort `position`.
#[verifier::loop_isolation(false)]
pub fn inject_types_at(tree: &Ofn, types: &TypeMap, position: Sort) -> (r: Ofn)
    ensures
        r@ == inject_types_spec(tree@, types@, position),
    decreases tree,
{
    match tree {
        Ofn::Entity { kind, id, label } => {
            let settled = match kind {
                Some(kind) => Some(*kind),
                None => match types.get(id.as_str()) {
                    None => None,
                    Some(kinds) => match position.kind() {
                        Some(kind) => Some(kind),
                        None => kinds.single(),
                    },
                },
            };
            Ofn::Entity { kind: settled, id: id.clone(), label: clone_opt(label) }
        },
        Ofn::Literal { lexical, datatype, language } => Ofn::Literal {
            lexical: lexical.clone(),
            datatype: datatype.clone(),
            language: clone_opt(language),
        },
        Ofn::Operator { op, children } => {
            proof {
                lemma_ofn_operator(*op, *children);
            }
            let signature = op.signature();
            let mut typed: Vec<Ofn> = Vec::new();
            let mut i: usize = 0;
            while i < children.len()
                invariant
                    i <= children.len(),
                    typed.len() == i,
                    forall|k: int|
                        0 <= k < i ==> (#[trigger] typed[k])@ == inject_types_spec(
                            children[k]@,
                            types@,
                            signature.spec_argument(k),
                        ),
                decreases children.len() - i,
            {
                let child = inject_types_at(&children[i], types, signature.argument(i));
                typed.push(child);
                i += 1;
            }
            let r = Ofn::Operator { op: *op, children: typed };
            proof {
                lemma_ofn_operator(r->op, r->children);
                assert(r@->children =~= inject_types_spec(tree@, types@, position)->children);
            }
            r
        },
    }
}

/// Settles the kinds of the entities of an expression. An entity whose
/// identifier has no entry in the map stays without a kind.
pub fn inject_types(tree: &Ofn, types: &TypeMap) -> (r: Ofn)
    ensures
        r@ == inject_types_spec(tree@, types@, Sort::Any),
        tree@.well_formed() ==> r@.well_formed(),
{
    proof {
        lemma_inject_types_well_formed(tree@, types@, Sort::Any, MAX_HEIGHT as nat);
    }
    inject_types_at(tree, types, Sort::Any)
}

} // verus!
