//! JSON documents, as far as the protocol reads and writes them.
//!
//! Text is turned into documents and back by `serde_json`; what the library
//! decides about a document is decided here, on a tree of its own.

use crate::error::Error;
use crate::text::same_text;
use vstd::prelude::*;

verus! {

/// `serde_json::Number`: a number as it was read, carried through unopened.
#[verifier::external_type_specification]
#[verifier::external_body]
pub struct ExJsonNumber(serde_json::Number);

/// `serde_json::Value`: the tree that `serde_json` reads into and writes
/// from. It is only handed between the trusted functions below.
#[verifier::external_type_specification]
#[verifier::external_body]
pub struct ExJsonValue(serde_json::Value);

/// A JSON document.
///
/// `Integer` is the form in which the library writes whole numbers. A
/// document read from text holds every number, whole or not, as `Number`.
/// Where an object names a member twice, the later one counts.
#[derive(Debug)]
pub enum Json {
    Null,
    Bool(bool),
    Integer(i64),
    Number(serde_json::Number),
    String(String),
    Array(Vec<Json>),
    Object(Vec<(String, Json)>),
}

/// What a [`Json`] document stands for.
pub enum JsonModel {
    Null,
    Bool(bool),
    Integer(int),
    Number(serde_json::Number),
    String(Seq<char>),
    Array(Seq<JsonModel>),
    Object(Seq<(Seq<char>, JsonModel)>),
}

impl View for Json {
    type V = JsonModel;

    open spec fn view(&self) -> JsonModel
        decreases self,
    {
        match self {
            Json::Null => JsonModel::Null,
            Json::Bool(b) => JsonModel::Bool(*b),
            Json::Integer(i) => JsonModel::Integer(*i as int),
            Json::Number(n) => JsonModel::Number(*n),
            Json::String(s) => JsonModel::String(s@),
            Json::Array(items) => JsonModel::Array(
                Seq::new(
                    items@.len(),
                    |i: int|
                        if 0 <= i < items@.len() {
                            items@[i].view()
                        } else {
                            JsonModel::Null
                        },
                ),
            ),
            Json::Object(members) => JsonModel::Object(
                Seq::new(
                    members@.len(),
                    |i: int|
                        if 0 <= i < members@.len() {
                            (members@[i].0@, members@[i].1.view())
                        } else {
                            (Seq::empty(), JsonModel::Null)
                        },
                ),
            ),
        }
    }
}

/// The value of the last member called `name` among `members`.
pub open spec fn member_of(members: Seq<(Seq<char>, JsonModel)>, name: Seq<char>) -> Option<
    JsonModel,
>
    decreases members.len(),
{
    if members.len() == 0 {
        None
    } else if members.last().0 == name {
        Some(members.last().1)
    } else {
        member_of(members.drop_last(), name)
    }
}

impl JsonModel {
    /// The characters of a string document.
    pub open spec fn text(self) -> Option<Seq<char>> {
        match self {
            JsonModel::String(s) => Some(s),
            _ => None,
        }
    }

    /// The items of an array document.
    pub open spec fn items(self) -> Option<Seq<JsonModel>> {
        match self {
            JsonModel::Array(items) => Some(items),
            _ => None,
        }
    }

    /// The member `name` of an object document.
    pub open spec fn member(self, name: Seq<char>) -> Option<JsonModel> {
        match self {
            JsonModel::Object(members) => member_of(members, name),
            _ => None,
        }
    }

    /// The characters of the member `name`, where the document is an object
    /// that has this member and the member is a string.
    pub open spec fn text_member(self, name: Seq<char>) -> Option<Seq<char>> {
        match self.member(name) {
            Some(value) => value.text(),
            None => None,
        }
    }
}

/// The models of the items of an array, in order.
pub open spec fn items_view(items: Seq<Json>) -> Seq<JsonModel> {
    Seq::new(items.len(), |i: int| items[i]@)
}

/// The names of the members of an object and the models of their values, in
/// order.
pub open spec fn members_view(members: Seq<(String, Json)>) -> Seq<(Seq<char>, JsonModel)> {
    Seq::new(members.len(), |i: int| (members[i].0@, members[i].1@))
}

/// The document that `serde_json` reads from a text, or `None` where it
/// reports an error.
pub uninterp spec fn parsed_json(text: Seq<u8>) -> Option<JsonModel>;

/// The compact text that `serde_json` writes for a document, or `None` where
/// it reports an error.
pub uninterp spec fn json_text(doc: JsonModel) -> Option<Seq<char>>;

/// Moves a `serde_json::Value` into a [`Json`], variant by variant, each
/// field as it is; the members of an object come in the order in which
/// `serde_json::Map` hands them out. This is the converting half of
/// [`read_json`], a function of its own because it calls itself. Nothing is
/// claimed of the result here.
#[verifier::external_body]
fn json_of_value(value: serde_json::Value) -> Json {
    match value {
        serde_json::Value::Null => Json::Null,
        serde_json::Value::Bool(b) => Json::Bool(b),
        serde_json::Value::Number(n) => Json::Number(n),
        serde_json::Value::String(s) => Json::String(s),
        serde_json::Value::Array(a) => Json::Array(a.into_iter().map(json_of_value).collect()),
        serde_json::Value::Object(o) => Json::Object(
            o.into_iter().map(|(k, v)| (k, json_of_value(v))).collect(),
        ),
    }
}

/// Copies a [`Json`] into a `serde_json::Value`, variant by variant, each
/// field as it is; the members of an object are collected into a
/// `serde_json::Map` in their order, so that a later member replaces an
/// earlier one of its name. This is the converting half of [`write_json`], a
/// function of its own because it calls itself. Nothing is claimed of the
/// result here.
#[verifier::external_body]
fn value_of_json(doc: &Json) -> serde_json::Value {
    match doc {
        Json::Null => serde_json::Value::Null,
        Json::Bool(b) => serde_json::Value::Bool(*b),
        Json::Integer(i) => serde_json::Value::Number((*i).into()),
        Json::Number(n) => serde_json::Value::Number(n.clone()),
        Json::String(s) => serde_json::Value::String(s.clone()),
        Json::Array(a) => serde_json::Value::Array(a.iter().map(value_of_json).collect()),
        Json::Object(o) => serde_json::Value::Object(
            o.iter().map(|(k, v)| (k.clone(), value_of_json(v))).collect(),
        ),
    }
}

/// `serde_json::from_slice`, read as a `serde_json::Value`. The contract
/// claims only that the outcome is a function of the bytes: it is what
/// [`parsed_json`] names. An error comes back as the text it displays, of
/// which nothing is claimed.
#[verifier::external_body]
pub(crate) fn read_json(text: &[u8]) -> (outcome: Result<Json, String>)
    ensures
        match outcome {
            Ok(doc) => parsed_json(text@) == Some(doc@),
            Err(_) => parsed_json(text@) is None,
        },
{
    serde_json::from_slice::<serde_json::Value>(text).map(json_of_value).map_err(|e| e.to_string())
}

/// `serde_json::to_string`, on the document as a `serde_json::Value`. The
/// contract claims only that the outcome is a function of the document: it
/// is what [`json_text`] names. An error comes back as the text it displays,
/// of which nothing is claimed.
#[verifier::external_body]
pub(crate) fn write_json(doc: &Json) -> (outcome: Result<String, String>)
    ensures
        match outcome {
            Ok(text) => json_text(doc@) == Some(text@),
            Err(_) => json_text(doc@) is None,
        },
{
    serde_json::to_string(&value_of_json(doc)).map_err(|e| e.to_string())
}

/// The model of an array holds the models of its items, in order.
pub proof fn lemma_array_view(items: Vec<Json>)
    ensures
        Json::Array(items)@ is Array,
        Json::Array(items)@->Array_0.len() == items@.len(),
        forall|i: int|
            0 <= i < items@.len() ==> Json::Array(items)@->Array_0[i] == (#[trigger] items@[i])@,
{
    reveal_with_fuel(<Json as View>::view, 2);
}

/// The model of an object holds its members' names and the models of their
/// values, in order.
pub proof fn lemma_object_view(members: Vec<(String, Json)>)
    ensures
        Json::Object(members)@ is Object,
        Json::Object(members)@->Object_0.len() == members@.len(),
        forall|i: int|
            0 <= i < members@.len() ==> Json::Object(members)@->Object_0[i] == (
                (#[trigger] members@[i]).0@,
                members@[i].1@,
            ),
{
    reveal_with_fuel(<Json as View>::view, 2);
}

impl Json {
    /// Reads a document from JSON text.
    pub fn parse(text: &[u8]) -> (outcome: Result<Json, Error>)
        ensures
            match outcome {
                Ok(doc) => parsed_json(text@) == Some(doc@),
                Err(Error::Serialization(_)) => parsed_json(text@) is None,
                Err(_) => false,
            },
    {
        match read_json(text) {
            Ok(doc) => Ok(doc),
            Err(detail) => Err(Error::Serialization(detail)),
        }
    }

    /// Writes the document as compact JSON text.
    pub fn to_text(&self) -> (outcome: Result<String, Error>)
        ensures
            match outcome {
                Ok(text) => json_text(self@) == Some(text@),
                Err(Error::Serialization(_)) => json_text(self@) is None,
                Err(_) => false,
            },
    {
        match write_json(self) {
            Ok(text) => Ok(text),
            Err(detail) => Err(Error::Serialization(detail)),
        }
    }

    /// An array document with the given items.
    pub fn array(items: Vec<Json>) -> (doc: Json)
        ensures
            doc@ == JsonModel::Array(items_view(items@)),
    {
        proof {
            lemma_array_view(items);
            assert(Json::Array(items)@->Array_0 =~= items_view(items@));
        }
        Json::Array(items)
    }

    /// An object document with the given members.
    pub fn object(members: Vec<(String, Json)>) -> (doc: Json)
        ensures
            doc@ == JsonModel::Object(members_view(members@)),
    {
        proof {
            lemma_object_view(members);
            assert(Json::Object(members)@->Object_0 =~= members_view(members@));
        }
        Json::Object(members)
    }

    /// A member of an object: a string under a name.
    pub fn text_entry(name: &str, text: &str) -> (member: (String, Json))
        ensures
            member.0@ == name@,
            member.1@ == JsonModel::String(text@),
    {
        (name.to_owned(), Json::text(text))
    }

    /// A string document with the characters of `text`.
    pub fn text(text: &str) -> (doc: Json)
        ensures
            doc@ == JsonModel::String(text@),
    {
        Json::String(text.to_owned())
    }

    /// The characters of a string document; `None` for any other document.
    pub fn as_str(&self) -> (text: Option<&str>)
        ensures
            match text {
                Some(s) => self@.text() == Some(s@),
                None => self@.text() is None,
            },
    {
        match self {
            Json::String(s) => Some(s.as_str()),
            _ => None,
        }
    }

    /// The items of an array document; `None` for any other document.
    pub fn as_array(&self) -> (items: Option<&Vec<Json>>)
        ensures
            match items {
                Some(v) => self@.items() == Some(items_view(v@)),
                None => self@.items() is None,
            },
    {
        match self {
            Json::Array(items) => {
                proof {
                    lemma_array_view(*items);
                    assert(self@->Array_0 =~= items_view(items@));
                }
                Some(items)
            },
            _ => None,
        }
    }

    /// The member `name` of an object document: the last one of that name.
    /// `None` where the document is no object or has no such member.
    pub fn get(&self, name: &str) -> (value: Option<&Json>)
        ensures
            match value {
                Some(v) => self@.member(name@) == Some(v@),
                None => self@.member(name@) is None,
            },
    {
        match self {
            Json::Object(members) => {
                let ghost all = self@->Object_0;
                let mut i: usize = members.len();
                proof {
                    lemma_object_view(*members);
                }
                assert(all.take(i as int) =~= all);
                while i > 0
                    invariant
                        i <= members@.len(),
                        self@ == JsonModel::Object(all),
                        all.len() == members@.len(),
                        forall|j: int|
                            0 <= j < members@.len() ==> all[j] == (
                                (#[trigger] members@[j]).0@,
                                members@[j].1@,
                            ),
                        member_of(all, name@) == member_of(all.take(i as int), name@),
                    decreases i,
                {
                    i = i - 1;
                    assert(all.take(i + 1).drop_last() =~= all.take(i as int));
                    if same_text(members[i].0.as_str(), name) {
                        assert(all.take(i + 1).last() == all[i as int]);
                        return Some(&members[i].1);
                    }
                }
                None
            },
            _ => None,
        }
    }

    /// The characters of the string member `name` of an object document.
    pub fn text_member(&self, name: &str) -> (text: Option<&str>)
        ensures
            match text {
                Some(s) => self@.text_member(name@) == Some(s@),
                None => self@.text_member(name@) is None,
            },
    {
        match self.get(name) {
            Some(value) => value.as_str(),
            None => None,
        }
    }
}

} // verus!
