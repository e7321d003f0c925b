//! The pairs of the editor as JSON text.

use vstd::prelude::*;
use std::collections::HashMap;

verus! {

/// `serde_json::Error`, carried as an opaque value.
#[verifier::external_type_specification]
#[verifier::external_body]
pub struct ExJsonError(serde_json::Error);

/// Why the pairs could not be written as JSON.
#[derive(Clone, Copy, Debug, PartialEq, Eq)]
pub enum JsonError {
    /// The serializer refused the pairs.
    Serialize,
}

/// `serde_json::to_string` on the pairs as a `HashMap` from key to value:
/// one JSON object with a member for each pair. The members come in the
/// order in which the hash map is walked, which is not the same in every
/// process, so nothing is assumed of the text.
#[verifier::external_body]
pub(crate) fn serialize(entries: &Vec<(String, String)>) -> (r: Result<String, serde_json::Error>)
{
    let map: HashMap<String, String> = entries.iter().cloned().collect();
    serde_json::to_string(&map)
}

/// What the serializer's answer amounts to: its text, or `Serialize` for
/// any failure.
pub fn rendered(answer: Result<String, serde_json::Error>) -> (r: Result<String, JsonError>)
    ensures
        answer matches Ok(text) ==> r == Ok::<String, JsonError>(text),
        answer is Err ==> r == Err::<String, JsonError>(JsonError::Serialize),
{
    match answer {
        Ok(text) => Ok(text),
        Err(_) => Err(JsonError::Serialize),
    }
}

} // verus!
