//! A JSON document as a tree of plain values, and the reading of one from the
//! bytes of a response body.

use vstd::prelude::*;

verus! {

/// A JSON value.
#[derive(Debug, PartialEq)]
pub enum Json {
    Null,
    Bool(bool),
    /// A number, in the decimal text that writes it.
    Number(String),
    Text(String),
    Array(Vec<Json>),
    Object(Vec<Member>),
}

/// One member of a JSON object.
#[derive(Debug, PartialEq)]
pub struct Member {
    pub key: String,
    pub value: Json,
}

/// The value of the first member at or after `start` whose key is `key`.
pub open spec fn lookup_from(members: Seq<Member>, key: Seq<char>, start: int) -> Option<Json>
    decreases members.len() - start,
{
    if start < 0 || start >= members.len() {
        None
    } else if members[start].key@ == key {
        Some(members[start].value)
    } else {
        lookup_from(members, key, start + 1)
    }
}

impl Json {
    /// The element of an array at an index; `None` where the value is no array
    /// or the array is shorter.
    pub open spec fn element(self, index: int) -> Option<Json> {
        match self {
            Json::Array(items) => if 0 <= index < items@.len() {
                Some(items@[index])
            } else {
                None
            },
            _ => None,
        }
    }

    /// The member of an object under a key; `None` where the value is no
    /// object or the object has no such key.
    pub open spec fn member(self, key: Seq<char>) -> Option<Json> {
        match self {
            Json::Object(members) => lookup_from(members@, key, 0),
            _ => None,
        }
    }

    /// The text of a string value; `None` for every other value.
    pub open spec fn text(self) -> Option<Seq<char>> {
        match self {
            Json::Text(s) => Some(s@),
            _ => None,
        }
    }

    pub fn get_index(&self, index: usize) -> (r: Option<&Json>)
        ensures
            match r {
                Some(found) => self.element(index as int) == Some(*found),
                None => self.element(index as int).is_none(),
            },
    {
        match self {
            Json::Array(items) => if index < items.len() {
                Some(&items[index])
            } else {
                None
            },
            _ => None,
        }
    }

    pub fn get_member(&self, key: &str) -> (r: Option<&Json>)
        ensures
            match r {
                Some(found) => self.member(key@) == Some(*found),
                None => self.member(key@).is_none(),
            },
    {
        match self {
            Json::Object(members) => {
                let wanted = key.to_owned();
                let mut i: usize = 0;
                while i < members.len()
                    invariant
                        i <= members.len(),
                        wanted@ == key@,
                        self.member(key@) == lookup_from(members@, key@, i as int),
                    decreases members.len() - i,
                {
                    assert(lookup_from(members@, key@, i as int) == if members@[i as int].key@
                        == key@ {
                        Some(members@[i as int].value)
                    } else {
                        lookup_from(members@, key@, i + 1)
                    });
                    if members[i].key == wanted {
                        return Some(&members[i].value);
                    }
                    i += 1;
                }
                assert(lookup_from(members@, key@, i as int).is_none());
                None
            },
            _ => None,
        }
    }

    pub fn as_text(&self) -> (r: Option<&str>)
        ensures
            match r {
                Some(s) => self.text() == Some(s@),
                None => self.text().is_none(),
            },
    {
        match self {
            Json::Text(s) => Some(s.as_str()),
            _ => None,
        }
    }
}

/// `serde_json::Value`, carried unopened from the parser to the copy.
#[verifier::external_type_specification]
#[verifier::external_body]
pub struct ExValue(serde_json::Value);

/// What `serde_json` makes of a body: the document that the bytes write, or the
/// text of the error with which it refuses them.
pub uninterp spec fn parsed_json(body: Seq<u8>) -> Result<Json, Seq<char>>;

/// The tree of plain values that a `serde_json::Value` holds.
pub uninterp spec fn value_tree(value: serde_json::Value) -> Json;

/// Calls `serde_json::from_slice` for a `serde_json::Value`. The contract only
/// names the outcome: the value's tree or the error's text is what
/// `parsed_json` stands for on these bytes.
#[verifier::external_body]
fn parse_value(body: &[u8]) -> (r: Result<serde_json::Value, String>)
    ensures
        match r {
            Ok(value) => parsed_json(body@) == Ok::<Json, Seq<char>>(value_tree(value)),
            Err(detail) => parsed_json(body@) == Err::<Json, Seq<char>>(detail@),
        },
{
    match serde_json::from_slice::<serde_json::Value>(body) {
        Ok(value) => Ok(value),
        Err(error) => Err(error.to_string()),
    }
}

/// Copies a `serde_json::Value` into a `Json`, variant by variant: a number as
/// the text `serde_json` prints for it, an object's members in the order in
/// which its map hands them out. The result is what `value_tree` names.
#[verifier::external_body]
fn json_from_value(value: &serde_json::Value) -> (r: Json)
    ensures
        r == value_tree(*value),
{
    match value {
        serde_json::Value::Null => Json::Null,
        serde_json::Value::Bool(b) => Json::Bool(*b),
        serde_json::Value::Number(n) => Json::Number(n.to_string()),
        serde_json::Value::String(s) => Json::Text(s.clone()),
        serde_json::Value::Array(items) => Json::Array(items.iter().map(json_from_value).collect()),
        serde_json::Value::Object(map) => Json::Object(
            map.iter().map(|(k, v)| Member { key: k.clone(), value: json_from_value(v) }).collect(),
        ),
    }
}

/// Reads a response body as a JSON document.
pub fn parse_json(body: &[u8]) -> (r: Result<Json, String>)
    ensures
        match r {
            Ok(doc) => parsed_json(body@) == Ok::<Json, Seq<char>>(doc),
            Err(detail) => parsed_json(body@) == Err::<Json, Seq<char>>(detail@),
        },
{
    match parse_value(body) {
        Ok(value) => Ok(json_from_value(&value)),
        Err(detail) => Err(detail),
    }
}

} // verus!
