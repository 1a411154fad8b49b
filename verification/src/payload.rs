//! What a flash message can carry: any type that has a JSON text.

use vstd::prelude::*;
use crate::error::EncodeError;

verus! {

/// A type whose values can be written as JSON text and read back from it.
pub trait Payload: Sized {
    /// The JSON text of the value, or `None` where it has none.
    spec fn json(&self) -> Option<Seq<char>>;

    /// Whether `text` is JSON text that stands for `value`.
    spec fn reads(text: Seq<char>, value: &Self) -> bool;

    /// Writes the value as JSON text.
    fn to_json(&self) -> (r: Result<String, EncodeError>)
        ensures
            match r {
                Ok(text) => self.json() == Some(text@),
                Err(_) => self.json() is None,
            },
    ;

    /// Reads a value from JSON text; `None` where the text stands for no
    /// value of the type.
    fn from_json(text: &str) -> (r: Option<Self>)
        ensures
            match r {
                Some(value) => Self::reads(text@, &value),
                None => forall|value: Self| !Self::reads(text@, &value),
            },
    ;
}

/// The JSON text that `serde_json::to_string` gives for a string, or `None`
/// where it reports an error.
pub uninterp spec fn json_string_text(s: Seq<char>) -> Option<Seq<char>>;

/// The string that `serde_json::from_str` reads from a JSON text, or `None`
/// where it reports an error.
pub uninterp spec fn json_string_value(text: Seq<char>) -> Option<Seq<char>>;

/// Calls `serde_json::to_string` on a string slice. The contract only names
/// the result: the same string always gives the same text or the same
/// failure.
#[verifier::external_body]
fn write_json_string(s: &str) -> (r: Option<String>)
    ensures
        match r {
            Some(text) => json_string_text(s@) == Some(text@),
            None => json_string_text(s@) is None,
        },
{
    serde_json::to_string(s).ok()
}

/// Calls `serde_json::from_str` for a `String`. The contract only names the
/// result: the same text always gives the same string or the same failure.
#[verifier::external_body]
fn read_json_string(text: &str) -> (r: Option<String>)
    ensures
        match r {
            Some(s) => json_string_value(text@) == Some(s@),
            None => json_string_value(text@) is None,
        },
{
    serde_json::from_str::<String>(text).ok()
}

/// Whether `serde_json::from_str` accepts a text as JSON, whatever value it
/// stands for.
pub uninterp spec fn json_valid(text: Seq<char>) -> bool;

/// Calls `serde_json::from_str` for `IgnoredAny`, which reads any JSON value
/// and keeps nothing of it. The contract only names the result: the same
/// text is always accepted or always refused.
#[verifier::external_body]
fn is_json(text: &str) -> (ok: bool)
    ensures
        ok == json_valid(text@),
{
    serde_json::from_str::<serde::de::IgnoredAny>(text).is_ok()
}

/// A message that is already written as JSON text. It is for callers that
/// write and read their values themselves: the text goes into the cookie as
/// it is, and comes out of it as it is.
#[derive(Debug, Clone, PartialEq, Eq)]
pub struct RawJson(pub String);

impl Payload for RawJson {
    /// The text itself, where it is JSON.
    open spec fn json(&self) -> Option<Seq<char>> {
        if json_valid(self.0@) {
            Some(self.0@)
        } else {
            None
        }
    }

    /// A JSON text stands for the message that holds it.
    open spec fn reads(text: Seq<char>, value: &Self) -> bool {
        json_valid(text) && value.0@ == text
    }

    fn to_json(&self) -> (r: Result<String, EncodeError>) {
        if is_json(self.0.as_str()) {
            Ok(self.0.clone())
        } else {
            Err(EncodeError)
        }
    }

    fn from_json(text: &str) -> (r: Option<RawJson>) {
        if is_json(text) {
            Some(RawJson(text.to_owned()))
        } else {
            None
        }
    }
}

impl Payload for String {
    open spec fn json(&self) -> Option<Seq<char>> {
        json_string_text(self@)
    }

    open spec fn reads(text: Seq<char>, value: &Self) -> bool {
        json_string_value(text) == Some(value@)
    }

    fn to_json(&self) -> (r: Result<String, EncodeError>) {
        match write_json_string(self.as_str()) {
            Some(text) => Ok(text),
            None => Err(EncodeError),
        }
    }

    fn from_json(text: &str) -> (r: Option<String>) {
        read_json_string(text)
    }
}

} // verus!
