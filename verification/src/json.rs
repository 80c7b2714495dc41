//! JSON answers, as far as the client reads them: whether the document is an
//! object, which keys it has, and the text of the members that are strings.

use vstd::prelude::*;
use vstd::string::*;
use crate::error::KaggleError;
use crate::text::str_eq;

verus! {

/// The error of `serde_json`, carried through as it is.
#[verifier::external_type_specification]
#[verifier::external_body]
pub struct ExJsonError(serde_json::Error);

/// The characters of an optional string.
pub open spec fn text_view(text: Option<String>) -> Option<Seq<char>> {
    match text {
        Some(t) => Some(t@),
        None => None,
    }
}

/// One member of a JSON object: its key, and its text where the value is a
/// JSON string (`None` for a number, a boolean, `null`, an array or an object).
#[derive(Debug, Clone, PartialEq, Eq)]
pub struct JsonMember {
    pub key: String,
    pub text: Option<String>,
}

/// Whether `i` is the first place in `members` where `key` stands.
pub open spec fn first_match(members: Seq<JsonMember>, key: Seq<char>, i: int) -> bool {
    &&& 0 <= i < members.len()
    &&& members[i].key@ == key
    &&& forall|j: int| 0 <= j < i ==> (#[trigger] members[j]).key@ != key
}

/// Whether some member has the key.
pub open spec fn has_member(members: Seq<JsonMember>, key: Seq<char>) -> bool {
    exists|i: int| first_match(members, key, i)
}

/// The text of the first member with the key.
pub open spec fn member_text(members: Seq<JsonMember>, key: Seq<char>) -> Option<Seq<char>> {
    let i = choose|i: int| first_match(members, key, i);
    text_view(members[i].text)
}

/// A JSON object as a map: each key with the text of its value, or with
/// `None` where the value is not a string.
pub type ObjectView = Map<Seq<char>, Option<Seq<char>>>;

/// The members as a map from key to text.
pub open spec fn members_map(members: Seq<JsonMember>) -> ObjectView {
    Map::new(|k: Seq<char>| has_member(members, k), |k: Seq<char>| member_text(members, k))
}

/// A JSON object. Its view maps each key to the text of its value, or to
/// `None` where the value is not a string.
#[derive(Debug, Clone, PartialEq, Eq)]
pub struct JsonObject {
    pub members: Vec<JsonMember>,
}

impl View for JsonObject {
    type V = ObjectView;

    open spec fn view(&self) -> ObjectView {
        members_map(self.members@)
    }
}

/// A decoded JSON document.
#[derive(Debug, Clone, PartialEq, Eq)]
pub enum JsonDocument {
    Object(JsonObject),
    /// Valid JSON of any other kind.
    Other,
}

impl View for JsonDocument {
    type V = Option<ObjectView>;

    open spec fn view(&self) -> Option<ObjectView> {
        match self {
            JsonDocument::Object(object) => Some(object@),
            JsonDocument::Other => None,
        }
    }
}

/// What `serde_json` reads from `body`: `None` where the bytes are not one
/// JSON document, `Some(None)` where the document is no object, else the
/// object's keys, each with the text of its value where that is a string.
pub uninterp spec fn decoded_json(body: Seq<u8>) -> Option<Option<Map<Seq<char>, Option<Seq<char>>>>>;

/// A decoded document, or the error, as maps.
pub open spec fn document_view(r: Result<JsonDocument, KaggleError>) -> Result<
    Option<ObjectView>,
    KaggleError,
> {
    match r {
        Ok(document) => Ok(document@),
        Err(error) => Err(error),
    }
}

/// Calls `serde_json::from_slice` for a `serde_json::Value` and copies the
/// members of a top-level object out, key by key. The contract claims only
/// that the outcome is the one that `decoded_json` names for these bytes.
#[verifier::external_body]
fn decode_members(body: &[u8]) -> (r: Result<Option<Vec<JsonMember>>, serde_json::Error>)
    ensures
        match r {
            Ok(Some(members)) => decoded_json(body@) == Some(Some(members_map(members@))),
            Ok(None) => decoded_json(body@) == Some(
                None::<Map<Seq<char>, Option<Seq<char>>>>,
            ),
            Err(_) => decoded_json(body@) is None,
        },
{
    let value: serde_json::Value = serde_json::from_slice(body)?;
    Ok(
        value.as_object().map(
            |object| object.iter().map(
                |(key, value)| JsonMember {
                    key: key.clone(),
                    text: value.as_str().map(String::from),
                },
            ).collect(),
        ),
    )
}

impl JsonObject {
    /// Finds the first member with the key.
    fn find(&self, key: &str) -> (r: Option<usize>)
        ensures
            match r {
                Some(i) => first_match(self.members@, key@, i as int),
                None => !has_member(self.members@, key@),
            },
    {
        let mut i: usize = 0;
        while i < self.members.len()
            invariant
                i <= self.members.len(),
                forall|j: int| 0 <= j < i ==> (#[trigger] self.members@[j]).key@ != key@,
            decreases self.members.len() - i,
        {
            if str_eq(self.members[i].key.as_str(), key) {
                return Some(i);
            }
            i = i + 1;
        }
        None
    }

    /// Whether the object has a member under `key`, whatever its value.
    pub fn contains_key(&self, key: &str) -> (r: bool)
        ensures
            r == self@.contains_key(key@),
    {
        self.find(key).is_some()
    }

    /// The text under `key`, where the object has the key and its value is a
    /// string.
    pub fn get_str(&self, key: &str) -> (r: Option<String>)
        ensures
            match r {
                Some(text) => self@.contains_key(key@) && self@[key@] == Some(text@),
                None => !self@.contains_key(key@) || self@[key@] is None,
            },
    {
        match self.find(key) {
            Some(i) => {
                let ghost chosen = choose|k: int| first_match(self.members@, key@, k);
                assert(chosen == i);
                match &self.members[i].text {
                    Some(text) => Some(text.clone()),
                    None => None,
                }
            },
            None => None,
        }
    }
}

impl JsonDocument {
    /// Decodes the body of an answer. Fails with `Decode` exactly where the
    /// bytes are not a JSON document.
    pub fn parse(body: &[u8]) -> (r: Result<JsonDocument, KaggleError>)
        ensures
            document_view(r) == match decoded_json(body@) {
                None => Err::<Option<ObjectView>, KaggleError>(KaggleError::Decode),
                Some(document) => Ok(document),
            },
    {
        match decode_members(body) {
            Ok(Some(members)) => Ok(JsonDocument::Object(JsonObject { members })),
            Ok(None) => Ok(JsonDocument::Other),
            Err(_) => Err(KaggleError::Decode),
        }
    }

    /// The object, where the document is one; `MalformedResponse` otherwise.
    pub fn into_object(self) -> (r: Result<JsonObject, KaggleError>)
        ensures
            match self {
                JsonDocument::Object(object) => r == Ok::<JsonObject, KaggleError>(object),
                JsonDocument::Other => r == Err::<JsonObject, KaggleError>(
                    KaggleError::MalformedResponse,
                ),
            },
    {
        match self {
            JsonDocument::Object(object) => Ok(object),
            JsonDocument::Other => Err(KaggleError::MalformedResponse),
        }
    }
}

} // verus!
