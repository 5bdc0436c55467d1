//! Expressions as they are written down, before the words in them are
//! resolved: the form in which the object of a thick triple comes, and the
//! form in which every expression is read from and written to structured data.
use vstd::prelude::*;
use vstd::string::StringExecFns;
use crate::json::{json_items, lemma_json_array, Json, JsonView};
use crate::text::{clone_opt, opt_text, str_eq};

verus! {

/// A written expression.
#[derive(Debug, PartialEq, Eq)]
pub enum ObjectValue {
    /// A plain identifier.
    Identifier(String),
    /// A literal: its lexical form, the identifier of its datatype, and a
    /// language tag where it has one.
    Literal { lexical: String, datatype: String, language: Option<String> },
    /// A word applied to arguments, in order.
    Nested { head: String, arguments: Vec<ObjectValue> },
}

/// The mathematical value of an [`ObjectValue`].
pub enum ObjectView {
    Identifier(Seq<char>),
    Literal { lexical: Seq<char>, datatype: Seq<char>, language: Option<Seq<char>> },
    Nested { head: Seq<char>, arguments: Seq<ObjectView> },
}

/// The value of a written expression, node for node.
pub open spec fn object_view(object: ObjectValue) -> ObjectView
    decreases object,
{
    match object {
        ObjectValue::Identifier(id) => ObjectView::Identifier(id@),
        ObjectValue::Literal { lexical, datatype, language } => ObjectView::Literal {
            lexical: lexical@,
            datatype: datatype@,
            language: opt_text(language),
        },
        ObjectValue::Nested { head, arguments } => ObjectView::Nested {
            head: head@,
            arguments: Seq::new(
                arguments.len() as nat,
                |i: int|
                    if 0 <= i < arguments.len() {
                        object_view(arguments[i])
                    } else {
                        ObjectView::Identifier(Seq::empty())
                    },
            ),
        },
    }
}

/// The values of a list of written expressions, item for item.
pub open spec fn object_items(items: Vec<ObjectValue>) -> Seq<ObjectView> {
    Seq::new(items.len() as nat, |i: int| object_view(items[i]))
}

/// The value of a word with arguments holds the values of the arguments.
pub proof fn lemma_object_nested(head: String, arguments: Vec<ObjectValue>)
    ensures
        (ObjectValue::Nested { head, arguments })@ == (ObjectView::Nested {
            head: head@,
            arguments: object_items(arguments),
        }),
{
    assert((ObjectValue::Nested { head, arguments })@->arguments =~= object_items(arguments));
}

impl View for ObjectValue {
    type V = ObjectView;

    open spec fn view(&self) -> ObjectView {
        object_view(*self)
    }
}

/// The literal that a list of data starting with the word `Literal` stands
/// for: the word is followed by two strings, or by three.
pub open spec fn literal_of_items(items: Seq<JsonView>) -> Option<ObjectView> {
    if items.len() == 3 && items[1] is String && items[2] is String {
        Some(
            ObjectView::Literal {
                lexical: items[1]->String_0,
                datatype: items[2]->String_0,
                language: None,
            },
        )
    } else if items.len() == 4 && items[1] is String && items[2] is String && items[3] is String {
        Some(
            ObjectView::Literal {
                lexical: items[1]->String_0,
                datatype: items[2]->String_0,
                language: Some(items[3]->String_0),
            },
        )
    } else {
        None
    }
}

/// The written expression that a piece of structured data stands for. A
/// string is an identifier. A list that starts with a string is that word
/// applied to what the rest of the list stands for, except that the word
/// `Literal` makes a literal. Nothing else stands for an expression.
pub open spec fn object_of_json(value: JsonView) -> Option<ObjectView>
    decreases value,
{
    match value {
        JsonView::String(id) => Some(ObjectView::Identifier(id)),
        JsonView::Array(items) => {
            if items.len() >= 1 && items[0] is String {
                let head = items[0]->String_0;
                if head == "Literal"@ {
                    literal_of_items(items)
                } else {
                    if forall|i: int|
                        1 <= i < items.len() ==> object_of_json(#[trigger] items[i]) is Some {
                        Some(
                            ObjectView::Nested {
                                head,
                                arguments: Seq::new(
                                    (items.len() - 1) as nat,
                                    |i: int|
                                        if 0 <= i < items.len() - 1 {
                                            object_of_json(items[i + 1])->0
                                        } else {
                                            ObjectView::Identifier(Seq::empty())
                                        },
                                ),
                            },
                        )
                    } else {
                        None
                    }
                }
            } else {
                None
            }
        },
        _ => None,
    }
}

/// The structured data that stands for a written expression.
pub open spec fn json_of_object(object: ObjectView) -> JsonView
    decreases object,
{
    match object {
        ObjectView::Identifier(id) => JsonView::String(id),
        ObjectView::Literal { lexical, datatype, language } => JsonView::Array(
            seq![
                JsonView::String("Literal"@),
                JsonView::String(lexical),
                JsonView::String(datatype),
            ] + match language {
                Some(tag) => seq![JsonView::String(tag)],
                None => Seq::empty(),
            },
        ),
        ObjectView::Nested { head, arguments } => JsonView::Array(
            seq![JsonView::String(head)] + Seq::new(
                arguments.len(),
                |i: int|
                    if 0 <= i < arguments.len() {
                        json_of_object(arguments[i])
                    } else {
                        JsonView::Null
                    },
            ),
        ),
    }
}

/// Reads a literal from a list of data that starts with the word `Literal`.
fn literal_from_items(items: &Vec<Json>) -> (r: Option<ObjectValue>)
    ensures
        r is Some <==> literal_of_items(json_items(*items)) is Some,
        r matches Some(object) ==> literal_of_items(json_items(*items)) == Some(object@),
{
    proof {
        lemma_json_array(*items);
    }
    if items.len() != 3 && items.len() != 4 {
        return None;
    }
    let lexical = match &items[1] {
        Json::String(text) => text.clone(),
        _ => {
            return None;
        },
    };
    let datatype = match &items[2] {
        Json::String(text) => text.clone(),
        _ => {
            return None;
        },
    };
    if items.len() == 3 {
        return Some(ObjectValue::Literal { lexical, datatype, language: None });
    }
    match &items[3] {
        Json::String(text) => Some(
            ObjectValue::Literal { lexical, datatype, language: Some(text.clone()) },
        ),
        _ => None,
    }
}

impl Clone for ObjectValue {
    #[verifier::loop_isolation(false)]
    fn clone(&self) -> (r: ObjectValue)
        ensures
            r@ == self@,
        decreases self,
    {
        match self {
            ObjectValue::Identifier(id) => ObjectValue::Identifier(id.clone()),
            ObjectValue::Literal { lexical, datatype, language } => ObjectValue::Literal {
                lexical: lexical.clone(),
                datatype: datatype.clone(),
                language: clone_opt(language),
            },
            ObjectValue::Nested { head, arguments } => {
                proof {
                    lemma_object_nested(*head, *arguments);
                }
                let mut copies: Vec<ObjectValue> = Vec::new();
                let mut i: usize = 0;
                while i < arguments.len()
                    invariant
                        i <= arguments.len(),
                        copies.len() == i,
                        forall|k: int| 0 <= k < i ==> (#[trigger] copies[k])@ == arguments[k]@,
                    decreases arguments.len() - i,
                {
                    let copy = arguments[i].clone();
                    copies.push(copy);
                    i += 1;
                }
                let r = ObjectValue::Nested { head: head.clone(), arguments: copies };
                proof {
                    lemma_object_nested(r->head, r->arguments);
                    assert(r@->arguments =~= self@->arguments);
                }
                r
            },
        }
    }
}

impl ObjectValue {
    /// Reads a written expression from structured data; `None` where the
    /// data stands for none.
    #[verifier::loop_isolation(false)]
    pub fn from_json(value: &Json) -> (r: Option<ObjectValue>)
        ensures
            r is Some <==> object_of_json(value@) is Some,
            r matches Some(object) ==> object_of_json(value@) == Some(object@),
        decreases value,
    {
        match value {
            Json::String(id) => Some(ObjectValue::Identifier(id.clone())),
            Json::Array(items) => {
                proof {
                    lemma_json_array(*items);
                }
                if items.len() == 0 {
                    return None;
                }
                let head = match &items[0] {
                    Json::String(word) => word,
                    _ => {
                        return None;
                    },
                };
                if str_eq(head.as_str(), "Literal") {
                    return literal_from_items(items);
                }
                let ghost data = value@->Array_0;
                let mut arguments: Vec<ObjectValue> = Vec::new();
                let mut i: usize = 1;
                while i < items.len()
                    invariant
                        1 <= i <= items.len(),
                        arguments.len() == i - 1,
                        forall|k: int|
                            1 <= k < i ==> object_of_json(#[trigger] data[k]) == Some(
                                arguments[k - 1]@,
                            ),
                    decreases items.len() - i,
                {
                    assert(data[i as int] == items[i as int]@);
                    match ObjectValue::from_json(&items[i]) {
                        Some(argument) => {
                            arguments.push(argument);
                        },
                        None => {
                            return None;
                        },
                    }
                    i += 1;
                }
                let object = ObjectValue::Nested { head: head.clone(), arguments };
                proof {
                    lemma_object_nested(object->head, object->arguments);
                    let read = object_of_json(value@);
                    assert(read is Some);
                    assert(read->0->arguments =~= object@->arguments);
                }
                Some(object)
            },
            _ => None,
        }
    }

    /// Writes the expression as structured data.
    #[verifier::loop_isolation(false)]
    pub fn to_json(&self) -> (r: Json)
        ensures
            r@ == json_of_object(self@),
        decreases self,
    {
        match self {
            ObjectValue::Identifier(id) => Json::String(id.clone()),
            ObjectValue::Literal { lexical, datatype, language } => {
                let mut items: Vec<Json> = Vec::new();
                items.push(Json::String(String::from_str("Literal")));
                items.push(Json::String(lexical.clone()));
                items.push(Json::String(datatype.clone()));
                match language {
                    Some(tag) => {
                        items.push(Json::String(tag.clone()));
                    },
                    None => {},
                }
                let r = Json::Array(items);
                proof {
                    lemma_json_array(r->Array_0);
                    reveal_strlit("Literal");
                }
                assert(r@->Array_0 =~= json_of_object(self@)->Array_0);
                r
            },
            ObjectValue::Nested { head, arguments } => {
                proof {
                    lemma_object_nested(*head, *arguments);
                }
                let mut items: Vec<Json> = Vec::new();
                items.push(Json::String(head.clone()));
                let mut i: usize = 0;
                while i < arguments.len()
                    invariant
                        i <= arguments.len(),
                        items.len() == i + 1,
                        items[0]@ == JsonView::String(head@),
                        forall|k: int|
                            1 <= k <= i ==> (#[trigger] items[k])@ == json_of_object(
                                arguments[k - 1]@,
                            ),
                    decreases arguments.len() - i,
                {
                    let item = arguments[i].to_json();
                    items.push(item);
                    i += 1;
                }
                let r = Json::Array(items);
                proof {
                    lemma_json_array(r->Array_0);
                }
                assert(r@->Array_0 =~= json_of_object(self@)->Array_0);
                r
            },
        }
    }
}

impl ObjectView {
    /// Whether no word in the expression is `Literal`: that word is kept for
    /// literals, which are written as such.
    pub open spec fn plain(self) -> bool
        decreases self,
    {
        match self {
            ObjectView::Nested { head, arguments } => {
                &&& head != "Literal"@
                &&& forall|i: int| 0 <= i < arguments.len() ==> (#[trigger] arguments[i]).plain()
            },
            _ => true,
        }
    }
}

/// Reading back what was written gives the expression that was written.
pub proof fn lemma_object_of_json_of_object(object: ObjectView)
    requires
        object.plain(),
    ensures
        object_of_json(json_of_object(object)) == Some(object),
    decreases object,
{
    match object {
        ObjectView::Identifier(_) => {},
        ObjectView::Literal { lexical, datatype, language } => {
            let items = json_of_object(object)->Array_0;
            assert(items[0] == JsonView::String("Literal"@));
            assert(items[1] == JsonView::String(lexical));
            assert(items[2] == JsonView::String(datatype));
            if language is Some {
                assert(items[3] == JsonView::String(language->0));
                assert(items.len() == 4);
            } else {
                assert(items.len() == 3);
            }
        },
        ObjectView::Nested { head, arguments } => {
            let items = json_of_object(object)->Array_0;
            assert(items[0] == JsonView::String(head));
            assert forall|k: int| 1 <= k < items.len() implies object_of_json(
                #[trigger] items[k],
            ) == Some(arguments[k - 1]) by {
                assert(items[k] == json_of_object(arguments[k - 1]));
                lemma_object_of_json_of_object(arguments[k - 1]);
            }
            let read = object_of_json(json_of_object(object));
            assert(read is Some);
            assert(read->0->arguments =~= arguments);
        },
    }
}

} // verus!
