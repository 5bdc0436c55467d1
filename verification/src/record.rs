//! Thick triples as structured data: one triple is an object with the
//! members `subject`, `predicate` and `object`, and an ontology is a list of
//! such objects.
use vstd::prelude::*;
use vstd::string::StringExecFns;
use crate::json::{
    json_items, json_members, lemma_json_array, lemma_json_object, Json, JsonView,
};
use crate::object::{
    json_of_object, lemma_object_of_json_of_object, object_of_json, ObjectValue,
};
use crate::text::str_eq;
use crate::thick::{ThickTriple, ThickTripleView};

verus! {

/// The value of the first member named `key`.
pub open spec fn member(members: Seq<(Seq<char>, JsonView)>, key: Seq<char>) -> Option<JsonView>
    decreases members.len(),
{
    if members.len() == 0 {
        None
    } else if members[0].0 == key {
        Some(members[0].1)
    } else {
        member(members.drop_first(), key)
    }
}

/// The triple that a piece of structured data stands for: an object whose
/// `subject` and `predicate` are strings and whose `object` stands for a
/// written expression. Other members are passed over.
pub open spec fn triple_of_json(value: JsonView) -> Option<ThickTripleView> {
    match value {
        JsonView::Object(members) => match (
            member(members, "subject"@),
            member(members, "predicate"@),
            member(members, "object"@),
        ) {
            (Some(JsonView::String(subject)), Some(JsonView::String(predicate)), Some(written)) => {
                match object_of_json(written) {
                    Some(object) => Some(ThickTripleView { subject, predicate, object }),
                    None => None,
                }
            },
            _ => None,
        },
        _ => None,
    }
}

/// The structured data that stands for a triple.
pub open spec fn json_of_triple(triple: ThickTripleView) -> JsonView {
    JsonView::Object(
        seq![
            ("object"@, json_of_object(triple.object)),
            ("predicate"@, JsonView::String(triple.predicate)),
            ("subject"@, JsonView::String(triple.subject)),
        ],
    )
}

/// The triples that a list of structured data stands for, where every item
/// stands for one.
pub open spec fn triples_of_json(value: JsonView) -> Option<Seq<ThickTripleView>> {
    match value {
        JsonView::Array(items) => {
            if forall|i: int| 0 <= i < items.len() ==> triple_of_json(#[trigger] items[i]) is Some {
                Some(Seq::new(items.len(), |i: int| triple_of_json(items[i])->0))
            } else {
                None
            }
        },
        _ => None,
    }
}

/// The values of a list of triples, item for item.
pub open spec fn triple_views(triples: Vec<ThickTriple>) -> Seq<ThickTripleView> {
    Seq::new(triples.len() as nat, |i: int| triples[i]@)
}

/// Reading back the data written for a triple gives the triple.
pub proof fn lemma_triple_of_json_of_triple(triple: ThickTripleView)
    requires
        triple.object.plain(),
    ensures
        triple_of_json(json_of_triple(triple)) == Some(triple),
{
    reveal_strlit("subject");
    reveal_strlit("predicate");
    reveal_strlit("object");
    assert("subject"@.len() == 7 && "predicate"@.len() == 9 && "object"@.len() == 6);
    let members = json_of_triple(triple)->Object_0;
    let second = members.drop_first();
    let third = second.drop_first();
    assert(second[0] == members[1]);
    assert(third[0] == members[2]);
    assert(member(third, "subject"@) == Some(JsonView::String(triple.subject)));
    assert(member(second, "subject"@) == member(third, "subject"@));
    assert(member(second, "predicate"@) == Some(JsonView::String(triple.predicate)));
    lemma_object_of_json_of_object(triple.object);
}

/// Finds the first member named `key`.
fn find<'a>(members: &'a Vec<(String, Json)>, key: &str) -> (r: Option<&'a Json>)
    ensures
        r is Some <==> member(json_members(*members), key@) is Some,
        r matches Some(value) ==> member(json_members(*members), key@) == Some(value@),
{
    let ghost all = json_members(*members);
    assert(all.skip(0) =~= all);
    let mut i: usize = 0;
    while i < members.len()
        invariant
            i <= members.len(),
            all == json_members(*members),
            member(all, key@) == member(all.skip(i as int), key@),
        decreases members.len() - i,
    {
        let ghost rest = all.skip(i as int);
        assert(rest[0] == all[i as int]);
        assert(rest.drop_first() =~= all.skip(i + 1));
        if str_eq(members[i].0.as_str(), key) {
            return Some(&members[i].1);
        }
        i += 1;
    }
    None
}

impl ThickTriple {
    /// Reads a triple from structured data; `None` where the data stands for
    /// none.
    pub fn from_json(value: &Json) -> (r: Option<ThickTriple>)
        ensures
            r is Some <==> triple_of_json(value@) is Some,
            r matches Some(triple) ==> triple_of_json(value@) == Some(triple@),
    {
        match value {
            Json::Object(members) => {
                proof {
                    lemma_json_object(*members);
                }
                let subject = match find(members, "subject") {
                    Some(Json::String(text)) => text.clone(),
                    _ => {
                        return None;
                    },
                };
                let predicate = match find(members, "predicate") {
                    Some(Json::String(text)) => text.clone(),
                    _ => {
                        return None;
                    },
                };
                let object = match find(members, "object") {
                    Some(written) => match ObjectValue::from_json(written) {
                        Some(object) => object,
                        None => {
                            return None;
                        },
                    },
                    None => {
                        return None;
                    },
                };
                Some(ThickTriple { subject, predicate, object })
            },
            _ => None,
        }
    }

    /// Writes the triple as structured data.
    pub fn to_json(&self) -> (r: Json)
        ensures
            r@ == json_of_triple(self@),
    {
        let mut members: Vec<(String, Json)> = Vec::new();
        members.push((String::from_str("object"), self.object.to_json()));
        members.push((String::from_str("predicate"), Json::String(self.predicate.clone())));
        members.push((String::from_str("subject"), Json::String(self.subject.clone())));
        let r = Json::Object(members);
        proof {
            lemma_json_object(r->Object_0);
            assert(r@->Object_0 =~= json_of_triple(self@)->Object_0);
        }
        r
    }
}

/// Reads a list of triples from structured data; `None` where the data is
/// no list or an item of it stands for no triple.
pub fn triples_from_json(value: &Json) -> (r: Option<Vec<ThickTriple>>)
    ensures
        r is Some <==> triples_of_json(value@) is Some,
        r matches Some(triples) ==> triples_of_json(value@) == Some(triple_views(triples)),
{
    match value {
        Json::Array(items) => {
            proof {
                lemma_json_array(*items);
            }
            let ghost data = json_items(*items);
            let mut triples: Vec<ThickTriple> = Vec::new();
            let mut i: usize = 0;
            while i < items.len()
                invariant
                    i <= items.len(),
                    triples.len() == i,
                    data == json_items(*items),
                    value@ == JsonView::Array(data),
                    forall|k: int|
                        0 <= k < i ==> triple_of_json(#[trigger] data[k]) == Some(triples[k]@),
                decreases items.len() - i,
            {
                assert(data[i as int] == items[i as int]@);
                match ThickTriple::from_json(&items[i]) {
                    Some(triple) => {
                        triples.push(triple);
                    },
                    None => {
                        return None;
                    },
                }
                i += 1;
            }
            proof {
                assert(triples_of_json(value@) is Some);
                assert(triples_of_json(value@)->0 =~= triple_views(triples));
            }
            Some(triples)
        },
        _ => None,
    }
}

} // verus!
