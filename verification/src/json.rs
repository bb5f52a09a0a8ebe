//! JSON documents as plain values. The text is decoded by `serde_json`; what
//! it yields is lowered into [`Json`], on which the rest of the library works.

use vstd::prelude::*;

verus! {

/// Why an answer of the service could not be used.
#[derive(Clone, Copy, Debug, PartialEq, Eq, Structural)]
pub enum ResponseError {
    /// The body is not a JSON document.
    Malformed,
    /// The document lacks an expected field, or holds a value of another type there.
    Shape,
}

/// A JSON value.
#[derive(Debug, PartialEq, Eq)]
pub enum Json {
    Null,
    Bool(bool),
    /// A number: its value where it is a non-negative integer below 2^64,
    /// `None` for a negative or fractional one.
    Number(Option<u64>),
    Text(String),
    Array(Vec<Json>),
    /// The members of an object. A name is looked up from the front.
    Object(Vec<Member>),
}

/// A named member of a JSON object.
#[derive(Debug, PartialEq, Eq)]
pub struct Member {
    pub name: String,
    pub value: Json,
}

/// The value of the first member called `key` among `members`.
pub open spec fn find_member(members: Seq<Member>, key: Seq<char>) -> Option<Json>
    decreases members.len(),
{
    if members.len() == 0 {
        None
    } else if members[0].name@ == key {
        Some(members[0].value)
    } else {
        find_member(members.skip(1), key)
    }
}

/// The member `key` of `parent`, where `parent` is an object that has it.
pub open spec fn member_of(parent: Option<Json>, key: Seq<char>) -> Option<Json> {
    match parent {
        Some(Json::Object(members)) => find_member(members@, key),
        _ => None,
    }
}

impl Json {
    /// The member `key` of this value, if it is an object that has one.
    pub open spec fn member(self, key: Seq<char>) -> Option<Json> {
        member_of(Some(self), key)
    }

    /// The elements of this value, if it is an array.
    pub open spec fn items(self) -> Option<Seq<Json>> {
        match self {
            Json::Array(items) => Some(items@),
            _ => None,
        }
    }

    /// The characters of this value, if it is a string.
    pub open spec fn text(self) -> Option<Seq<char>> {
        match self {
            Json::Text(s) => Some(s@),
            _ => None,
        }
    }

    /// This value as an unsigned 64-bit integer, if it is one.
    pub open spec fn unsigned(self) -> Option<u64> {
        match self {
            Json::Number(n) => n,
            _ => None,
        }
    }

    /// Looks up a member of an object by name.
    pub fn get(&self, key: &str) -> (r: Option<&Json>)
        ensures
            match r {
                Some(found) => self.member(key@) == Some(*found),
                None => self.member(key@) is None,
            },
    {
        match self {
            Json::Object(members) => {
                let wanted = key.to_owned();
                let mut i: usize = 0;
                assert(members@.skip(0) =~= members@);
                while i < members.len()
                    invariant
                        i <= members.len(),
                        wanted@ == key@,
                        self.member(key@) == find_member(members@.skip(i as int), key@),
                    decreases members.len() - i,
                {
                    assert(members@.skip(i as int)[0] == members@[i as int]);
                    if members[i].name == wanted {
                        return Some(&members[i].value);
                    }
                    assert(members@.skip(i as int).skip(1) =~= members@.skip(i + 1));
                    i += 1;
                }
                None
            },
            _ => None,
        }
    }

    /// The elements of an array.
    pub fn as_array(&self) -> (r: Option<&Vec<Json>>)
        ensures
            match r {
                Some(items) => self.items() == Some(items@),
                None => self.items() is None,
            },
    {
        match self {
            Json::Array(items) => Some(items),
            _ => None,
        }
    }

    /// The text of a string.
    pub fn as_str(&self) -> (r: Option<&str>)
        ensures
            match r {
                Some(s) => self.text() == Some(s@),
                None => self.text() is None,
            },
    {
        match self {
            Json::Text(s) => Some(s.as_str()),
            _ => None,
        }
    }

    /// The value of a non-negative integer that fits 64 bits.
    pub fn as_u64(&self) -> (r: Option<u64>)
        ensures
            r == self.unsigned(),
    {
        match self {
            Json::Number(n) => *n,
            _ => None,
        }
    }
}

/// `serde_json::Value`, carried from the decoder to the lowering and not
/// looked into.
#[verifier::external_type_specification]
#[verifier::external_body]
pub struct ExValue(serde_json::Value);

/// `serde_json::Error`, which the decoder returns for text it rejects.
#[verifier::external_type_specification]
#[verifier::external_body]
pub struct ExError(serde_json::Error);

/// The document that `serde_json` reads from `text`: `None` where it rejects
/// the text.
pub uninterp spec fn document(text: Seq<char>) -> Option<Json>;

/// What a `serde_json::Value` holds, as a [`Json`].
pub uninterp spec fn tree(value: serde_json::Value) -> Json;

/// `serde_json::from_str` at the type `serde_json::Value`. Nothing is
/// claimed of the grammar: the contract gives the outcome a name, which is to
/// say that it depends on the text alone.
#[verifier::external_body]
fn decode(text: &str) -> (r: Result<serde_json::Value, serde_json::Error>)
    ensures
        match r {
            Ok(value) => document(text@) == Some(tree(value)),
            Err(_) => document(text@) is None,
        },
{
    serde_json::from_str::<serde_json::Value>(text)
}

/// Moves a `serde_json::Value` into a [`Json`], variant by variant; a number
/// goes through `serde_json::Number::as_u64`. The contract only names the
/// outcome.
#[verifier::external_body]
fn lower(value: serde_json::Value) -> (j: Json)
    ensures
        j == tree(value),
{
    match value {
        serde_json::Value::Null => Json::Null,
        serde_json::Value::Bool(b) => Json::Bool(b),
        serde_json::Value::Number(n) => Json::Number(n.as_u64()),
        serde_json::Value::String(s) => Json::Text(s),
        serde_json::Value::Array(items) => Json::Array(items.into_iter().map(lower).collect()),
        serde_json::Value::Object(map) => Json::Object(
            map.into_iter().map(|(name, v)| Member { name, value: lower(v) }).collect(),
        ),
    }
}

/// Reads a JSON document from text.
pub fn parse_json(text: &str) -> (r: Result<Json, ResponseError>)
    ensures
        match r {
            Ok(doc) => document(text@) == Some(doc),
            Err(e) => e == ResponseError::Malformed && document(text@) is None,
        },
{
    match decode(text) {
        Ok(value) => Ok(lower(value)),
        Err(_) => Err(ResponseError::Malformed),
    }
}

} // verus!
