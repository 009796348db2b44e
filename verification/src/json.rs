//! JSON documents as plain values.

use crate::text::same_text;
use vstd::prelude::*;

verus! {

/// The decoder's own representation of a JSON value.
#[verifier::external_type_specification]
#[verifier::external_body]
pub struct ExValue(serde_json::Value);

/// A JSON value.
#[derive(Debug, PartialEq, Eq)]
pub enum Json {
    Null,
    Bool(bool),
    /// A number, in the decimal notation of the decoder.
    Number(String),
    Text(String),
    List(Vec<Json>),
    /// The members of an object, each name once.
    Object(Vec<(String, Json)>),
}

/// What a text decodes to: the JSON value that it denotes, or the reason why
/// it denotes none.
pub uninterp spec fn json_document(text: Seq<char>) -> Result<Json, Seq<char>>;

/// The model of a decoded text.
pub open spec fn decoded_view(r: Result<Json, String>) -> Result<Json, Seq<char>> {
    match r {
        Ok(doc) => Ok(doc),
        Err(reason) => Err(reason@),
    }
}

/// Carries a decoded value over into [`Json`], variant by variant.
///
/// Handles `serde_json::Value`: scalars are moved, a number is written out
/// by `Number::to_string`, and the items of arrays and the members of
/// objects are carried over one by one in the order in which the decoder
/// hands them out.
#[verifier::external_body]
fn json_from_value(value: serde_json::Value) -> Json {
    match value {
        serde_json::Value::Null => Json::Null,
        serde_json::Value::Bool(b) => Json::Bool(b),
        serde_json::Value::Number(n) => Json::Number(n.to_string()),
        serde_json::Value::String(s) => Json::Text(s),
        serde_json::Value::Array(items) => Json::List(items.into_iter().map(json_from_value).collect()),
        serde_json::Value::Object(members) => Json::Object(
            members.into_iter().map(|(name, member)| (name, json_from_value(member))).collect(),
        ),
    }
}

/// Decodes a text as JSON.
///
/// Wraps `serde_json::from_str` at the type `serde_json::Value`. The outcome
/// depends on the text alone: either the value that the text denotes, or the
/// rendered text of the decoder's error.
#[verifier::external_body]
pub(crate) fn decode_json(text: &str) -> (out: Result<Json, String>)
    ensures
        decoded_view(out) == json_document(text@),
{
    match serde_json::from_str::<serde_json::Value>(text) {
        Ok(value) => Ok(json_from_value(value)),
        Err(e) => Err(e.to_string()),
    }
}

/// The first member named `key` among `members`.
pub open spec fn member_named(members: Seq<(String, Json)>, key: Seq<char>) -> Option<Json>
    decreases members.len(),
{
    if members.len() == 0 {
        None
    } else if members[0].0@ == key {
        Some(members[0].1)
    } else {
        member_named(members.drop_first(), key)
    }
}

impl Json {
    /// The member named `key` of an object; `None` for every other value and
    /// for an object without such a member.
    pub open spec fn member(self, key: Seq<char>) -> Option<Json> {
        match self {
            Json::Object(members) => member_named(members@, key),
            _ => None,
        }
    }

    /// The text of a text value; `None` for every other value.
    pub open spec fn text(self) -> Option<Seq<char>> {
        match self {
            Json::Text(s) => Some(s@),
            _ => None,
        }
    }

    /// The items of a list; `None` for every other value.
    pub open spec fn items(self) -> Option<Seq<Json>> {
        match self {
            Json::List(items) => Some(items@),
            _ => None,
        }
    }

    /// The text of the member named `key`, where there is such a member and
    /// it is a text.
    pub open spec fn text_member(self, key: Seq<char>) -> Option<Seq<char>> {
        match self.member(key) {
            Some(member) => member.text(),
            None => None,
        }
    }

    /// Looks up the member named `key`.
    pub fn get(&self, key: &str) -> (out: Option<&Json>)
        ensures
            match out {
                Some(member) => self.member(key@) == Some(*member),
                None => self.member(key@) is None,
            },
    {
        match self {
            Json::Object(members) => {
                let mut i: usize = 0;
                assert(members@.skip(0) =~= members@);
                while i < members.len()
                    invariant
                        i <= members.len(),
                        self.member(key@) == member_named(members@, key@),
                        member_named(members@, key@) == member_named(members@.skip(i as int), key@),
                    decreases members.len() - i,
                {
                    proof {
                        let rest = members@.skip(i as int);
                        assert(rest[0] == members@[i as int]);
                        assert(rest.drop_first() =~= members@.skip(i + 1));
                    }
                    if same_text(members[i].0.as_str(), key) {
                        assert(member_named(members@.skip(i as int), key@) == Some(
                            members@[i as int].1,
                        ));
                        return Some(&members[i].1);
                    }
                    i += 1;
                }
                None
            },
            _ => None,
        }
    }

    /// The text of this value, if it is a text.
    pub fn as_text(&self) -> (out: Option<&str>)
        ensures
            match out {
                Some(s) => self.text() == Some(s@),
                None => self.text() is None,
            },
    {
        match self {
            Json::Text(s) => Some(s.as_str()),
            _ => None,
        }
    }

    /// The text of the member named `key`, if there is such a member and it
    /// is a text.
    pub fn get_text(&self, key: &str) -> (out: Option<&str>)
        ensures
            match out {
                Some(s) => self.text_member(key@) == Some(s@),
                None => self.text_member(key@) is None,
            },
    {
        match self.get(key) {
            Some(member) => member.as_text(),
            None => None,
        }
    }
}

} // verus!
