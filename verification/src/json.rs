//! JSON values, held by their compact rendering.

use vstd::prelude::*;
use vstd::string::*;

use crate::duplicate::Duplicate;
use crate::string_map::StringMap;

verus! {

/// The six shapes of a JSON value.
#[derive(Debug, Clone, Copy, PartialEq, Eq, Structural)]
pub enum JsonKind {
    /// `null`.
    Null,
    /// `true` or `false`.
    Bool,
    /// A number.
    Number,
    /// A string.
    String,
    /// An array.
    Array,
    /// An object.
    Object,
}

/// A JSON value, held by its compact rendering.
#[derive(Debug)]
pub struct Json {
    /// The compact rendering of the value.
    pub text: String,
}

/// JSON values by key, such as the metadata of a request.
pub type JsonMap = StringMap<Json>;

/// What `serde_json` reads in a text: the kind of the value and its compact rendering, or the
/// reader's complaint.
pub uninterp spec fn serde_json_reading(text: Seq<char>) -> Result<
    (JsonKind, Seq<char>),
    Seq<char>,
>;

/// The string that a JSON text holds, where it holds one.
pub uninterp spec fn serde_json_string(text: Seq<char>) -> Option<Seq<char>>;

/// The compact rendering of what stands under a key of the object that a JSON text holds.
pub uninterp spec fn serde_json_member(text: Seq<char>, key: Seq<char>) -> Option<Seq<char>>;

/// The string that stands alone in the array that a JSON text holds, where there is one.
pub uninterp spec fn serde_json_only_item(text: Seq<char>) -> Option<Seq<char>>;

/// Calls `serde_json::from_str` for a `serde_json::Value`. What it gives back depends on the text
/// alone and is known here by name: the kind of the value with its compact rendering, or the
/// message of the reader's error.
#[verifier::external_body]
pub(crate) fn read_json(text: &str) -> (reading: Result<(JsonKind, String), String>)
    ensures
        match serde_json_reading(text@) {
            Ok((kind, rendering)) => reading matches Ok((k, r)) && k == kind && r@ == rendering,
            Err(message) => reading matches Err(m) && m@ == message,
        },
{
    let value = serde_json::from_str::<serde_json::Value>(text).map_err(|error| error.to_string())?;
    let kind = match value {
        serde_json::Value::Null => JsonKind::Null,
        serde_json::Value::Bool(_) => JsonKind::Bool,
        serde_json::Value::Number(_) => JsonKind::Number,
        serde_json::Value::String(_) => JsonKind::String,
        serde_json::Value::Array(_) => JsonKind::Array,
        serde_json::Value::Object(_) => JsonKind::Object,
    };
    Ok((kind, value.to_string()))
}

/// Calls `serde_json::from_str` for a `String`, which succeeds on a JSON string alone. The
/// string depends on the text alone and is known here by name.
#[verifier::external_body]
fn read_json_string(text: &str) -> (value: Option<String>)
    ensures
        value.deep_view() == serde_json_string(text@),
{
    serde_json::from_str::<String>(text).ok()
}

/// Calls `serde_json::Value::get` with a key, on the value read from `text`. The compact rendering
/// of what it finds depends on the two texts alone and is known here by name.
#[verifier::external_body]
fn read_json_member(text: &str, key: &str) -> (value: Option<String>)
    ensures
        value.deep_view() == serde_json_member(text@, key@),
{
    let value = serde_json::from_str::<serde_json::Value>(text).ok()?;
    value.get(key).map(|member| member.to_string())
}

/// Calls `serde_json::from_str` for a tuple of one `String`, which succeeds on an array of one
/// string alone. The string depends on the text alone and is known here by name.
#[verifier::external_body]
fn read_json_only_item(text: &str) -> (value: Option<String>)
    ensures
        value.deep_view() == serde_json_only_item(text@),
{
    serde_json::from_str::<(String,)>(text).ok().map(|item| item.0)
}

impl DeepView for Json {
    type V = Seq<char>;

    open spec fn deep_view(&self) -> Seq<char> {
        self.text@
    }
}

impl Duplicate for Json {
    fn duplicate(&self) -> (copy: Self) {
        Json { text: self.text.clone() }
    }
}

impl Clone for Json {
    fn clone(&self) -> (copy: Self)
        ensures
            copy.deep_view() == self.deep_view(),
    {
        self.duplicate()
    }
}

impl Json {
    /// The value with the compact rendering `text`.
    pub fn from_compact(text: String) -> (value: Json)
        ensures
            value.deep_view() == text@,
    {
        Json { text }
    }

    /// The empty object.
    pub fn empty_object() -> (value: Json)
        ensures
            value.deep_view() == "{}"@,
    {
        Json { text: "{}".to_owned() }
    }

    /// Reads the value that `text` renders in any layout.
    pub fn parse(text: &str) -> (value: Result<Json, String>)
        ensures
            match serde_json_reading(text@) {
                Ok((_, rendering)) => value matches Ok(v) && v.deep_view() == rendering,
                Err(message) => value matches Err(m) && m@ == message,
            },
    {
        match read_json(text) {
            Ok((_, rendering)) => Ok(Json { text: rendering }),
            Err(message) => Err(message),
        }
    }

    /// The string that the value is, where it is one.
    pub fn as_string(&self) -> (value: Option<String>)
        ensures
            value.deep_view() == serde_json_string(self.deep_view()),
    {
        read_json_string(self.text.as_str())
    }

    /// What stands under `key`, where the value is an object with that key.
    pub fn member(&self, key: &str) -> (value: Option<Json>)
        ensures
            value.deep_view() == serde_json_member(self.deep_view(), key@),
    {
        match read_json_member(self.text.as_str(), key) {
            Some(text) => Some(Json { text }),
            None => None,
        }
    }

    /// The string that the value holds as its only item, where it is such an array.
    pub fn only_item_string(&self) -> (value: Option<String>)
        ensures
            value.deep_view() == serde_json_only_item(self.deep_view()),
    {
        read_json_only_item(self.text.as_str())
    }
}

} // verus!
