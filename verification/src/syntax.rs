//! Reading expressions of the functional syntax from structured data and
//! writing them back.
//!
//! An expression is written as JSON. A string is an entity of no settled
//! kind. A list starts with a word: the name of an operator, followed by its
//! arguments; `Literal`, followed by the lexical form, the datatype and
//! perhaps a language tag; or a kind (`Class`, `Datatype`, `ObjectProperty`,
//! `DataProperty`, `AnnotationProperty`, `NamedIndividual`, or `Entity` for
//! no kind), followed by the identifier and perhaps a label.
//!
//! Reading goes in three steps: from text to JSON, from JSON to a written
//! expression whose words are still strings, and from there to an
//! expression, which is then held against the grammar.
use vstd::prelude::*;
use vstd::string::StringExecFns;
use crate::error::Error;
use crate::json::{decode, encode, json_decoded, json_encoded, Json, JsonView};
use crate::names::{
    classify, head_name, head_of, head_text, lemma_head_of_name, lemma_name_of_head, Head,
};
use crate::object::{
    json_of_object, lemma_object_nested, lemma_object_of_json_of_object, object_items,
    object_of_json, ObjectValue, ObjectView,
};
use crate::text::clone_opt;
use crate::ofn::{lemma_ofn_operator, EntityKind, Ofn, OfnView};

verus! {

/// The entity that a kind word applied to `arguments` stands for: the word is
/// followed by the identifier, or by the identifier and a label. An entity
/// with neither kind nor label is not written this way.
pub open spec fn entity_of(kind: Option<EntityKind>, arguments: Seq<ObjectView>) -> Option<
    OfnView,
> {
    if arguments.len() == 1 && arguments[0] is Identifier && kind is Some {
        Some(OfnView::Entity { kind, id: arguments[0]->Identifier_0, label: None })
    } else if arguments.len() == 2 && arguments[0] is Identifier && arguments[1] is Identifier {
        Some(
            OfnView::Entity {
                kind,
                id: arguments[0]->Identifier_0,
                label: Some(arguments[1]->Identifier_0),
            },
        )
    } else {
        None
    }
}

/// The expression that a written expression stands for, once its words are
/// resolved. A plain identifier is an entity of no settled kind; the name of
/// an operator builds that operator over what the arguments stand for; a kind
/// word builds an entity. An unknown word stands for nothing.
pub open spec fn resolve(object: ObjectView) -> Option<OfnView>
    decreases object,
{
    match object {
        ObjectView::Identifier(id) => Some(OfnView::Entity { kind: None, id, label: None }),
        ObjectView::Literal { lexical, datatype, language } => Some(
            OfnView::Literal { lexical, datatype, language },
        ),
        ObjectView::Nested { head, arguments } => match head_of(head) {
            Some(Head::Operator(op)) => {
                if forall|i: int|
                    0 <= i < arguments.len() ==> resolve(#[trigger] arguments[i]) is Some {
                    Some(
                        OfnView::Operator {
                            op,
                            children: Seq::new(
                                arguments.len(),
                                |i: int|
                                    if 0 <= i < arguments.len() {
                                        resolve(arguments[i])->0
                                    } else {
                                        OfnView::Operator { op, children: Seq::empty() }
                                    },
                            ),
                        },
                    )
                } else {
                    None
                }
            },
            Some(Head::Entity(kind)) => entity_of(kind, arguments),
            _ => None,
        },
    }
}

/// The written form of an expression.
pub open spec fn unresolve(tree: OfnView) -> ObjectView
    decreases tree,
{
    match tree {
        OfnView::Entity { kind, id, label } => {
            if kind is None && label is None {
                ObjectView::Identifier(id)
            } else {
                ObjectView::Nested {
                    head: head_name(Head::Entity(kind)),
                    arguments: seq![ObjectView::Identifier(id)] + match label {
                        Some(text) => seq![ObjectView::Identifier(text)],
                        None => Seq::empty(),
                    },
                }
            }
        },
        OfnView::Literal { lexical, datatype, language } => ObjectView::Literal {
            lexical,
            datatype,
            language,
        },
        OfnView::Operator { op, children } => ObjectView::Nested {
            head: head_name(Head::Operator(op)),
            arguments: Seq::new(
                children.len(),
                |i: int|
                    if 0 <= i < children.len() {
                        unresolve(children[i])
                    } else {
                        ObjectView::Identifier(Seq::empty())
                    },
            ),
        },
    }
}

/// Resolving the written form of an expression gives the expression back.
pub proof fn lemma_resolve_unresolve(tree: OfnView)
    ensures
        resolve(unresolve(tree)) == Some(tree),
    decreases tree,
{
    match tree {
        OfnView::Entity { kind, id, label } => {
            lemma_head_of_name(Head::Entity(kind));
            let written = unresolve(tree);
            if !(kind is None && label is None) {
                assert(written->arguments[0] == ObjectView::Identifier(id));
                if label is Some {
                    assert(written->arguments[1] == ObjectView::Identifier(label->0));
                }
            }
        },
        OfnView::Literal { .. } => {},
        OfnView::Operator { op, children } => {
            lemma_head_of_name(Head::Operator(op));
            let written = unresolve(tree);
            assert forall|i: int| 0 <= i < children.len() implies resolve(
                #[trigger] written->arguments[i],
            ) == Some(children[i]) by {
                lemma_resolve_unresolve(children[i]);
            }
            let read = resolve(written);
            assert(read is Some);
            assert(read->0->children =~= children);
        },
    }
}

/// Writing down what a written expression stands for gives that written
/// expression back.
pub proof fn lemma_unresolve_resolve(object: ObjectView)
    requires
        resolve(object) is Some,
    ensures
        unresolve(resolve(object)->0) == object,
    decreases object,
{
    match object {
        ObjectView::Nested { head, arguments } => {
            lemma_name_of_head(head);
            match head_of(head) {
                Some(Head::Operator(op)) => {
                    let tree = resolve(object)->0;
                    assert forall|i: int| 0 <= i < arguments.len() implies unresolve(
                        #[trigger] tree->children[i],
                    ) == arguments[i] by {
                        lemma_unresolve_resolve(arguments[i]);
                    }
                    assert(unresolve(tree)->arguments =~= arguments);
                },
                Some(Head::Entity(kind)) => {
                    assert(unresolve(resolve(object)->0)->arguments =~= arguments);
                },
                _ => {},
            }
        },
        _ => {},
    }
}

/// The written form of an expression keeps the word `Literal` for literals.
pub proof fn lemma_unresolve_plain(tree: OfnView)
    ensures
        unresolve(tree).plain(),
    decreases tree,
{
    match tree {
        OfnView::Entity { kind, id, label } => {
            lemma_head_of_name(Head::Entity(kind));
            lemma_head_of_name(Head::Literal);
            let written = unresolve(tree);
            if written is Nested {
                assert forall|i: int| 0 <= i < written->arguments.len() implies (
                #[trigger] written->arguments[i]).plain() by {
                    assert(written->arguments[i] is Identifier);
                }
            }
        },
        OfnView::Literal { .. } => {},
        OfnView::Operator { op, children } => {
            lemma_head_of_name(Head::Operator(op));
            lemma_head_of_name(Head::Literal);
            let written = unresolve(tree);
            assert forall|i: int| 0 <= i < written->arguments.len() implies (
            #[trigger] written->arguments[i]).plain() by {
                lemma_unresolve_plain(children[i]);
            }
        },
    }
}

/// Reads an entity from the arguments of a kind word.
fn entity_from(kind: Option<EntityKind>, arguments: &Vec<ObjectValue>) -> (r: Option<Ofn>)
    ensures
        r is Some <==> entity_of(kind, object_items(*arguments)) is Some,
        r matches Some(tree) ==> entity_of(kind, object_items(*arguments)) == Some(tree@),
{
    if arguments.len() == 1 {
        match (&arguments[0], kind) {
            (ObjectValue::Identifier(id), Some(_)) => Some(
                Ofn::Entity { kind, id: id.clone(), label: None },
            ),
            _ => None,
        }
    } else if arguments.len() == 2 {
        match (&arguments[0], &arguments[1]) {
            (ObjectValue::Identifier(id), ObjectValue::Identifier(label)) => Some(
                Ofn::Entity { kind, id: id.clone(), label: Some(label.clone()) },
            ),
            _ => None,
        }
    } else {
        None
    }
}

/// What reading structured data as an expression gives: the expression that
/// the data stands for, if it stands for one and that one is well formed.
pub open spec fn read_json(value: JsonView) -> Result<OfnView, Error> {
    match object_of_json(value) {
        Some(object) => match resolve(object) {
            Some(tree) => if tree.well_formed() {
                Ok(tree)
            } else {
                Err(Error::Grammar)
            },
            None => Err(Error::Grammar),
        },
        None => Err(Error::Grammar),
    }
}

/// The structured data that stands for an expression.
pub open spec fn written_json(tree: OfnView) -> JsonView {
    json_of_object(unresolve(tree))
}

/// What parsing a text gives: a syntax error where the text is no structured
/// data, and else what reading the data gives.
pub open spec fn parse_spec(text: Seq<char>) -> Result<OfnView, Error> {
    match json_decoded(text) {
        Some(value) => read_json(value),
        None => Err(Error::Syntax),
    }
}

/// The text of an expression.
pub open spec fn serialize_spec(tree: OfnView) -> Seq<char> {
    json_encoded(written_json(tree))
}

/// The mathematical value of the outcome of reading an expression.
pub open spec fn outcome(result: Result<Ofn, Error>) -> Result<OfnView, Error> {
    match result {
        Ok(tree) => Ok(tree@),
        Err(error) => Err(error),
    }
}

/// Reading the data that was written for a well-formed expression gives that
/// expression back.
pub proof fn lemma_read_written(tree: OfnView)
    requires
        tree.well_formed(),
    ensures
        read_json(written_json(tree)) == Ok::<OfnView, Error>(tree),
{
    lemma_unresolve_plain(tree);
    lemma_object_of_json_of_object(unresolve(tree));
    lemma_resolve_unresolve(tree);
}

impl Ofn {
    /// Resolves the words of a written expression; `None` where one of them
    /// is unknown or an entity is not written as entities are.
    #[verifier::loop_isolation(false)]
    pub fn from_object(object: &ObjectValue) -> (r: Option<Ofn>)
        ensures
            r is Some <==> resolve(object@) is Some,
            r matches Some(tree) ==> resolve(object@) == Some(tree@),
        decreases object,
    {
        match object {
            ObjectValue::Identifier(id) => Some(
                Ofn::Entity { kind: None, id: id.clone(), label: None },
            ),
            ObjectValue::Literal { lexical, datatype, language } => Some(
                Ofn::Literal {
                    lexical: lexical.clone(),
                    datatype: datatype.clone(),
                    language: clone_opt(language),
                },
            ),
            ObjectValue::Nested { head, arguments } => {
                proof {
                    lemma_object_nested(*head, *arguments);
                }
                match classify(head.as_str()) {
                    Some(Head::Operator(op)) => {
                        let ghost written = object_items(*arguments);
                        let mut children: Vec<Ofn> = Vec::new();
                        let mut i: usize = 0;
                        while i < arguments.len()
                            invariant
                                i <= arguments.len(),
                                children.len() == i,
                                forall|k: int|
                                    0 <= k < i ==> resolve(#[trigger] written[k]) == Some(
                                        children[k]@,
                                    ),
                            decreases arguments.len() - i,
                        {
                            assert(written[i as int] == arguments[i as int]@);
                            match Ofn::from_object(&arguments[i]) {
                                Some(child) => {
                                    children.push(child);
                                },
                                None => {
                                    return None;
                                },
                            }
                            i += 1;
                        }
                        let tree = Ofn::Operator { op, children };
                        proof {
                            lemma_ofn_operator(op, tree->children);
                            let read = resolve(object@);
                            assert(read is Some);
                            assert(read->0->children =~= tree@->children);
                        }
                        Some(tree)
                    },
                    Some(Head::Entity(kind)) => entity_from(kind, arguments),
                    _ => None,
                }
            },
        }
    }

    /// Writes the expression down.
    #[verifier::loop_isolation(false)]
    pub fn to_object(&self) -> (r: ObjectValue)
        ensures
            r@ == unresolve(self@),
        decreases self,
    {
        match self {
            Ofn::Entity { kind, id, label } => {
                if kind.is_none() && label.is_none() {
                    return ObjectValue::Identifier(id.clone());
                }
                let mut arguments: Vec<ObjectValue> = Vec::new();
                arguments.push(ObjectValue::Identifier(id.clone()));
                match label {
                    Some(text) => {
                        arguments.push(ObjectValue::Identifier(text.clone()));
                    },
                    None => {},
                }
                let r = ObjectValue::Nested {
                    head: String::from_str(head_text(Head::Entity(*kind))),
                    arguments,
                };
                proof {
                    lemma_object_nested(r->head, r->arguments);
                    assert(r@->arguments =~= unresolve(self@)->arguments);
                }
                r
            },
            Ofn::Literal { lexical, datatype, language } => ObjectValue::Literal {
                lexical: lexical.clone(),
                datatype: datatype.clone(),
                language: clone_opt(language),
            },
            Ofn::Operator { op, children } => {
                proof {
                    lemma_ofn_operator(*op, *children);
                }
                let mut arguments: Vec<ObjectValue> = Vec::new();
                let mut i: usize = 0;
                while i < children.len()
                    invariant
                        i <= children.len(),
                        arguments.len() == i,
                        forall|k: int|
                            0 <= k < i ==> (#[trigger] arguments[k])@ == unresolve(children[k]@),
                    decreases children.len() - i,
                {
                    let argument = children[i].to_object();
                    arguments.push(argument);
                    i += 1;
                }
                let r = ObjectValue::Nested {
                    head: String::from_str(head_text(Head::Operator(*op))),
                    arguments,
                };
                proof {
                    lemma_object_nested(r->head, r->arguments);
                    assert(r@->arguments =~= unresolve(self@)->arguments);
                }
                r
            },
        }
    }

    /// Reads an expression from structured data. The data must stand for an
    /// expression, and that expression must be well formed.
    pub fn from_json(value: &Json) -> (r: Result<Ofn, Error>)
        ensures
            outcome(r) == read_json(value@),
            r matches Ok(tree) ==> tree@.well_formed(),
    {
        match ObjectValue::from_json(value) {
            Some(object) => match Ofn::from_object(&object) {
                Some(tree) => if tree.check() {
                    Ok(tree)
                } else {
                    Err(Error::Grammar)
                },
                None => Err(Error::Grammar),
            },
            None => Err(Error::Grammar),
        }
    }

    /// The structured data that stands for the expression.
    pub fn to_json(&self) -> (r: Json)
        ensures
            r@ == written_json(self@),
    {
        self.to_object().to_json()
    }
}

/// Parses an expression from its text.
pub fn parse(text: &str) -> (r: Result<Ofn, Error>)
    ensures
        outcome(r) == parse_spec(text@),
        r matches Ok(tree) ==> tree@.well_formed(),
{
    match decode(text) {
        Some(value) => Ofn::from_json(&value),
        None => Err(Error::Syntax),
    }
}

/// Writes an expression as text.
pub fn serialize(tree: &Ofn) -> (r: String)
    ensures
        r@ == serialize_spec(tree@),
{
    encode(&tree.to_json())
}

} // verus!
