//! The ways in which a flash message can fail to be written or read.

use vstd::prelude::*;

verus! {

/// A cookie value that does not hold a message of the expected type.
#[derive(Debug, Clone, Copy, PartialEq, Eq, Structural)]
pub enum DecodeError {
    /// The text is not of the form `{"_": ..}`.
    NotAnEnvelope,
    /// The text under `_` does not stand for a value of the expected type.
    BadPayload,
}

/// A message that has no JSON text.
#[derive(Debug, Clone, Copy, PartialEq, Eq, Structural)]
pub struct EncodeError;

/// No usable flash message came with the request: the cookie was not sent,
/// or what it holds cannot be read.
#[derive(Debug, Clone, Copy, PartialEq, Eq, Structural)]
pub struct MissingFlashError;

impl MissingFlashError {
    /// What to tell the client.
    pub fn message(&self) -> (text: &'static str)
        ensures
            text@ == "Invalid/missing flash cookie"@,
    {
        "Invalid/missing flash cookie"
    }
}

/// A cookie whose text cannot stand in a `Set-Cookie` header.
#[derive(Debug, Clone, Copy, PartialEq, Eq, Structural)]
pub struct HeaderConstructionError;

} // verus!
