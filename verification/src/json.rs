//! JSON documents as the import reads them.
//!
//! A document is parsed by `serde_json` and handed to the library as a
//! [`JsonValue`], a tree of plain values that the parsers of the definition
//! import walk.

use vstd::prelude::*;
use vstd::string::*;
use crate::text::message_view;

verus! {

/// A double-precision number, held by its IEEE 754 bit pattern.
#[derive(Clone, Copy, Debug, PartialEq, Eq, Structural)]
pub struct Number {
    pub bits: u64,
}

/// One member of a JSON object.
#[derive(Debug, PartialEq, Eq)]
pub struct JsonMember {
    pub key: String,
    pub value: JsonValue,
}

/// A JSON value.
///
/// A number holds the double that `serde_json` reads it as, where it has one.
/// The members of an object stand in the order in which `serde_json` walks
/// them.
#[derive(Debug, PartialEq, Eq)]
pub enum JsonValue {
    Null,
    Bool(bool),
    Number(Option<Number>),
    String(String),
    Array(Vec<JsonValue>),
    Object(Vec<JsonMember>),
}

/// The value of the first member at or after `from` whose key is `key`.
pub open spec fn member_from(members: Seq<JsonMember>, key: Seq<char>, from: int) -> Option<
    JsonValue,
>
    decreases members.len() - from,
{
    if from < 0 || from >= members.len() {
        None
    } else if members[from].key@ == key {
        Some(members[from].value)
    } else {
        member_from(members, key, from + 1)
    }
}

impl JsonValue {
    /// Whether the value is an object.
    pub open spec fn is_object(self) -> bool {
        self is Object
    }

    /// The member `key` of an object; nothing for a missing member and for a
    /// value that is no object.
    pub open spec fn field(self, key: Seq<char>) -> Option<JsonValue> {
        match self {
            JsonValue::Object(members) => member_from(members@, key, 0),
            _ => None,
        }
    }

    /// The characters of a string value.
    pub open spec fn text(self) -> Option<Seq<char>> {
        match self {
            JsonValue::String(s) => Some(s@),
            _ => None,
        }
    }

    /// The elements of an array value.
    pub open spec fn items(self) -> Option<Seq<JsonValue>> {
        match self {
            JsonValue::Array(items) => Some(items@),
            _ => None,
        }
    }

    /// The truth value of a boolean value.
    pub open spec fn truth(self) -> Option<bool> {
        match self {
            JsonValue::Bool(b) => Some(b),
            _ => None,
        }
    }

    /// The double of a number value.
    pub open spec fn number(self) -> Option<Number> {
        match self {
            JsonValue::Number(n) => n,
            _ => None,
        }
    }

    /// The name of the value's kind, as error messages spell it.
    pub open spec fn kind_name(self) -> Seq<char> {
        match self {
            JsonValue::Null => "null"@,
            JsonValue::Bool(_) => "boolean"@,
            JsonValue::Number(_) => "number"@,
            JsonValue::String(_) => "string"@,
            JsonValue::Array(_) => "array"@,
            JsonValue::Object(_) => "object"@,
        }
    }

    /// Whether the value is an object.
    pub fn is_object_value(&self) -> (r: bool)
        ensures
            r == self.is_object(),
    {
        match self {
            JsonValue::Object(_) => true,
            _ => false,
        }
    }

    /// The member `key` of an object: the first, where several have the key.
    pub fn get(&self, key: &str) -> (r: Option<&JsonValue>)
        ensures
            r matches Some(v) ==> self.field(key@) == Some(*v),
            r is None ==> self.field(key@) is None,
    {
        match self {
            JsonValue::Object(members) => {
                let mut i: usize = 0;
                while i < members.len()
                    invariant
                        i <= members.len(),
                        self.field(key@) == member_from(members@, key@, 0),
                        member_from(members@, key@, 0) == member_from(members@, key@, i as int),
                    decreases members.len() - i,
                {
                    assert(member_from(members@, key@, i as int) == if members@[i as int].key@
                        == key@ {
                        Some(members@[i as int].value)
                    } else {
                        member_from(members@, key@, i + 1)
                    });
                    if same_key(&members[i].key, key) {
                        return Some(&members[i].value);
                    }
                    i = i + 1;
                }
                None
            },
            _ => None,
        }
    }

    /// The text of a string value.
    pub fn as_str(&self) -> (r: Option<&str>)
        ensures
            r matches Some(s) ==> self.text() == Some(s@),
            r is None ==> self.text() is None,
    {
        match self {
            JsonValue::String(s) => Some(s.as_str()),
            _ => None,
        }
    }

    /// The elements of an array value.
    pub fn as_array(&self) -> (r: Option<&Vec<JsonValue>>)
        ensures
            r matches Some(items) ==> self.items() == Some(items@),
            r is None ==> self.items() is None,
    {
        match self {
            JsonValue::Array(items) => Some(items),
            _ => None,
        }
    }

    /// The truth value of a boolean value.
    pub fn as_bool(&self) -> (r: Option<bool>)
        ensures
            r == self.truth(),
    {
        match self {
            JsonValue::Bool(b) => Some(*b),
            _ => None,
        }
    }

    /// The double of a number value.
    pub fn as_number(&self) -> (r: Option<Number>)
        ensures
            r == self.number(),
    {
        match self {
            JsonValue::Number(n) => *n,
            _ => None,
        }
    }

    /// The name of the value's kind.
    pub fn kind(&self) -> (r: &'static str)
        ensures
            r@ == self.kind_name(),
    {
        match self {
            JsonValue::Null => "null",
            JsonValue::Bool(_) => "boolean",
            JsonValue::Number(_) => "number",
            JsonValue::String(_) => "string",
            JsonValue::Array(_) => "array",
            JsonValue::Object(_) => "object",
        }
    }
}

/// Whether a member's key is the key that is wanted.
fn same_key(key: &String, wanted: &str) -> (r: bool)
    ensures
        r == (key@ == wanted@),
{
    let other = String::from_str(wanted);
    *key == other
}

/// What `serde_json::from_str` makes of a text: the document, or the message
/// of the error it reports.
pub uninterp spec fn json_parsed(text: Seq<char>) -> Result<JsonValue, Seq<char>>;

/// `serde_json::Value`, a document as `serde_json` holds it. Nothing is known
/// of what is inside: it is only handed on to be converted.
#[verifier::external_type_specification]
#[verifier::external_body]
pub struct ExSerdeValue(serde_json::Value);

/// Turns a `serde_json::Value` into the library's value, node by node: a
/// variant becomes the variant of the same name, a number the double that
/// `serde_json::Number::as_f64` reads it as, and the members of an object
/// come in the order of `serde_json::Map::iter`.
///
/// Trusted: a conversion, of which nothing is claimed by itself.
#[verifier::external_body]
fn from_serde(value: &serde_json::Value) -> JsonValue {
    match value {
        serde_json::Value::Null => JsonValue::Null,
        serde_json::Value::Bool(b) => JsonValue::Bool(*b),
        serde_json::Value::Number(n) => JsonValue::Number(
            n.as_f64().map(|x| Number { bits: x.to_bits() }),
        ),
        serde_json::Value::String(s) => JsonValue::String(s.clone()),
        serde_json::Value::Array(items) => JsonValue::Array(items.iter().map(from_serde).collect()),
        serde_json::Value::Object(members) => JsonValue::Object(
            members.iter().map(|(k, v)| JsonMember { key: k.clone(), value: from_serde(v) }).collect(),
        ),
    }
}

/// Calls `serde_json::from_str` for a `serde_json::Value`.
///
/// Trusted: the outcome is a function of the text alone, named
/// [`json_parsed`]; an error is handed out as the text of its `Display`.
#[verifier::external_body]
pub(crate) fn parse_json_text(text: &str) -> (r: Result<JsonValue, String>)
    ensures
        message_view(r) == json_parsed(text@),
{
    match serde_json::from_str::<serde_json::Value>(text) {
        Ok(value) => Ok(from_serde(&value)),
        Err(e) => Err(e.to_string()),
    }
}

} // verus!
