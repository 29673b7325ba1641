//! Decoding a response body into a JSON document.

use crate::failure::{outcome_view, ClassifiedError, Failure, FailureKind};
use vstd::prelude::*;

verus! {

/// `serde_json::Value`, a parsed JSON document. The relay never looks inside
/// one: it hands the document to the caller as it was parsed.
#[verifier::external_type_specification]
#[verifier::external_body]
pub struct ExValue(serde_json::Value);

/// The health response: any JSON document.
pub type Document = serde_json::Value;

/// What `serde_json::from_slice` makes of a byte string: the document it
/// parses to, or the text of the parse error.
pub uninterp spec fn json_reading(bytes: Seq<u8>) -> Result<serde_json::Value, Seq<char>>;

/// Calls `serde_json::from_slice` for a `serde_json::Value` and renders a
/// parse error by its `Display` impl. The call reads nothing but `bytes`, so
/// its outcome is `json_reading(bytes@)`.
#[verifier::external_body]
fn read_json(bytes: &[u8]) -> (reading: Result<serde_json::Value, String>)
    ensures
        json_reading(bytes@) == match reading {
            Ok(document) => Ok::<serde_json::Value, Seq<char>>(document),
            Err(text) => Err::<serde_json::Value, Seq<char>>(text@),
        },
{
    match serde_json::from_slice::<serde_json::Value>(bytes) {
        Ok(document) => Ok(document),
        Err(error) => Err(error.to_string()),
    }
}

/// What a reading of the body comes to: the document itself, untouched, or
/// a `Decode` failure that carries the parse diagnostic.
pub open spec fn decoded(reading: Result<Document, Seq<char>>) -> Result<Document, Failure> {
    match reading {
        Ok(document) => Ok(document),
        Err(diagnostic) => Err(Failure { kind: FailureKind::Decode, detail: diagnostic }),
    }
}

/// A reading as contracts speak of it: the diagnostic is taken by its view.
pub open spec fn reading_view(reading: Result<Document, String>) -> Result<Document, Seq<char>> {
    match reading {
        Ok(document) => Ok(document),
        Err(diagnostic) => Err(diagnostic@),
    }
}

/// Turns the reading of a body into the outcome of the invocation.
pub fn conclude_decoding(reading: Result<Document, String>) -> (outcome: Result<
    Document,
    ClassifiedError,
>)
    ensures
        outcome_view(outcome) == decoded(reading_view(reading)),
{
    match reading {
        Ok(document) => Ok(document),
        Err(diagnostic) => Err(ClassifiedError::new(FailureKind::Decode, diagnostic)),
    }
}

/// Decodes the body of a successful response.
pub fn decode_body(bytes: &[u8]) -> (outcome: Result<Document, ClassifiedError>)
    ensures
        outcome_view(outcome) == decoded(json_reading(bytes@)),
{
    conclude_decoding(read_json(bytes))
}

} // verus!
