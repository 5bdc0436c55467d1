//! Structured data as this library sees it, and the two calls that turn text
//! into it and back.
use vstd::prelude::*;

verus! {

/// `serde_json::Number`, a number as it was read. Nothing is said of what is
/// inside one.
#[verifier::external_type_specification]
#[verifier::external_body]
pub struct ExNumber(serde_json::Number);

/// `serde_json::Value`, as the two calls below take and give it. Verified
/// code never holds one: it works on [`Json`].
#[verifier::external_type_specification]
#[verifier::external_body]
pub struct ExValue(serde_json::Value);

/// A value of structured data. A number is carried along as it was read;
/// nothing in this library looks inside one.
#[derive(Debug, PartialEq)]
pub enum Json {
    Null,
    Bool(bool),
    Number(serde_json::Number),
    String(String),
    Array(Vec<Json>),
    Object(Vec<(String, Json)>),
}

/// What a [`Json`] value holds.
pub enum JsonView {
    Null,
    Bool(bool),
    Number(serde_json::Number),
    String(Seq<char>),
    Array(Seq<JsonView>),
    Object(Seq<(Seq<char>, JsonView)>),
}

/// The value of a [`Json`], node for node.
pub open spec fn json_view(value: Json) -> JsonView
    decreases value,
{
    match value {
        Json::Null => JsonView::Null,
        Json::Bool(b) => JsonView::Bool(b),
        Json::Number(n) => JsonView::Number(n),
        Json::String(s) => JsonView::String(s@),
        Json::Array(items) => JsonView::Array(
            Seq::new(
                items.len() as nat,
                |i: int|
                    if 0 <= i < items.len() {
                        json_view(items[i])
                    } else {
                        JsonView::Null
                    },
            ),
        ),
        Json::Object(members) => JsonView::Object(
            Seq::new(
                members.len() as nat,
                |i: int|
                    if 0 <= i < members.len() {
                        (members[i].0@, json_view(members[i].1))
                    } else {
                        (Seq::empty(), JsonView::Null)
                    },
            ),
        ),
    }
}

impl View for Json {
    type V = JsonView;

    open spec fn view(&self) -> JsonView {
        json_view(*self)
    }
}

/// The values of a list of data, item for item.
pub open spec fn json_items(items: Vec<Json>) -> Seq<JsonView> {
    Seq::new(items.len() as nat, |i: int| items[i]@)
}

/// The value of a list is the list of the values.
pub proof fn lemma_json_array(items: Vec<Json>)
    ensures
        (Json::Array(items))@ == JsonView::Array(json_items(items)),
{
    assert((Json::Array(items))@->Array_0 =~= json_items(items));
}

/// The members of an object of data, member for member.
pub open spec fn json_members(members: Vec<(String, Json)>) -> Seq<(Seq<char>, JsonView)> {
    Seq::new(members.len() as nat, |i: int| (members[i].0@, members[i].1@))
}

/// The value of an object is the list of its members' values.
pub proof fn lemma_json_object(members: Vec<(String, Json)>)
    ensures
        (Json::Object(members))@ == JsonView::Object(json_members(members)),
{
    assert((Json::Object(members))@->Object_0 =~= json_members(members));
}

/// The value that `serde_json::from_str` reads out of a text, or `None` where
/// it reports an error.
pub uninterp spec fn json_decoded(text: Seq<char>) -> Option<JsonView>;

/// The text that `serde_json::Value` writes for a value through `to_string`.
pub uninterp spec fn json_encoded(value: JsonView) -> Seq<char>;

/// Rebuilds a `serde_json::Value` as a [`Json`], variant for variant. An
/// object's members come in the order in which `serde_json::Map::iter` hands
/// them out.
#[verifier::external_body]
fn lift(value: &serde_json::Value) -> Json {
    match value {
        serde_json::Value::Null => Json::Null,
        serde_json::Value::Bool(b) => Json::Bool(*b),
        serde_json::Value::Number(n) => Json::Number(n.clone()),
        serde_json::Value::String(s) => Json::String(s.clone()),
        serde_json::Value::Array(a) => Json::Array(a.iter().map(lift).collect()),
        serde_json::Value::Object(m) => Json::Object(
            m.iter().map(|(k, v)| (k.clone(), lift(v))).collect(),
        ),
    }
}

/// Rebuilds a [`Json`] as a `serde_json::Value`, variant for variant. The
/// members of an object are collected into a `serde_json::Map`.
#[verifier::external_body]
fn lower(value: &Json) -> serde_json::Value {
    match value {
        Json::Null => serde_json::Value::Null,
        Json::Bool(b) => serde_json::Value::Bool(*b),
        Json::Number(n) => serde_json::Value::Number(n.clone()),
        Json::String(s) => serde_json::Value::String(s.clone()),
        Json::Array(a) => serde_json::Value::Array(a.iter().map(lower).collect()),
        Json::Object(m) => serde_json::Value::Object(
            m.iter().map(|(k, v)| (k.clone(), lower(v))).collect(),
        ),
    }
}

/// Calls `serde_json::from_str` for a `serde_json::Value`. The contract only
/// gives the outcome its name: what was read is [`json_decoded`] of the text,
/// and an error of the call is its `None`.
#[verifier::external_body]
pub(crate) fn decode(text: &str) -> (r: Option<Json>)
    ensures
        r is Some <==> json_decoded(text@) is Some,
        r matches Some(value) ==> json_decoded(text@) == Some(value@),
{
    match serde_json::from_str::<serde_json::Value>(text) {
        Ok(value) => Some(lift(&value)),
        Err(_) => None,
    }
}

/// Calls `to_string` on the `serde_json::Value` for `value`. The contract only
/// gives the text its name, [`json_encoded`] of the value.
#[verifier::external_body]
pub(crate) fn encode(value: &Json) -> (r: String)
    ensures
        r@ == json_encoded(value@),
{
    lower(value).to_string()
}

} // verus!
