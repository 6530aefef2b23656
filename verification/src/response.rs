//! Reading JSON-RPC response bodies.
//!
//! The body text goes through serde_json behind one trusted
//! declaration. Parsing is a function of the text alone, so whether the
//! body is valid JSON, and what string its `result` field holds, are
//! given names; the extraction is then pinned down exactly, and
//! everything after it is verified code on plain values.

use crate::error::PipelineError;
use vstd::prelude::*;

verus! {

/// Whether serde_json parses this text as one JSON document. A
/// function of the text alone.
pub uninterp spec fn json_valid(body: Seq<char>) -> bool;

/// The string under `key` in the parsed document: `Some` exactly when
/// the document is an object whose `key` field is a JSON string. A
/// function of the text and the key alone; meaningful only where
/// `json_valid` holds.
pub uninterp spec fn json_string_field_of(body: Seq<char>, key: Seq<char>) -> Option<Seq<char>>;

/// The `result` string of a JSON-RPC response body: `None` when the
/// document lacks a `result` field or holds one that is not a string.
pub open spec fn rpc_result_of(body: Seq<char>) -> Option<Seq<char>> {
    json_string_field_of(body, "result"@)
}

/// What the pipeline learns from one response body.
pub open spec fn rpc_outcome_of(body: Seq<char>) -> Result<Seq<char>, PipelineError> {
    if !json_valid(body) {
        Err(PipelineError::Deserialize)
    } else {
        match rpc_result_of(body) {
            Some(v) => Ok(v),
            None => Err(PipelineError::NoResult),
        }
    }
}

/// Relies on serde_json::from_str, Value::get and Value::as_str: parses
/// the body and looks the string under `key` up. `Err` exactly when the
/// body is not valid JSON; `Ok(None)` when the parsed document has no
/// string under `key`.
#[verifier::external_body]
fn json_string_field(body: &str, key: &str) -> (r: Result<Option<String>, ()>)
    ensures
        r is Ok <==> json_valid(body@),
        r matches Ok(field) ==> match field {
            Some(s) => json_string_field_of(body@, key@) matches Some(v) && s@ == v,
            None => json_string_field_of(body@, key@) is None,
        },
{
    match serde_json::from_str::<serde_json::Value>(body) {
        Err(_) => Err(()),
        Ok(doc) => match doc.get(key) {
            None => Ok(None),
            Some(field) => match field.as_str() {
                None => Ok(None),
                Some(s) => Ok(Some(s.to_string())),
            },
        },
    }
}

/// Extracts the `result` string of a JSON-RPC response body.
///
/// Fails with `Deserialize` exactly when the body is not valid JSON,
/// and with `NoResult` exactly when the document lacks a `result`
/// string; no other error can come back. A JSON-RPC `error` object is
/// thereby reported as a missing result, which the caller surfaces as
/// a failure.
pub fn extract_result(body: &str) -> (r: Result<String, PipelineError>)
    ensures
        r is Ok <==> (json_valid(body@) && rpc_result_of(body@) is Some),
        r matches Ok(s) ==> rpc_result_of(body@) matches Some(v) && s@ == v,
        r == Err::<String, PipelineError>(PipelineError::Deserialize) <==> !json_valid(body@),
        r == Err::<String, PipelineError>(PipelineError::NoResult) <==> (json_valid(body@)
            && rpc_result_of(body@) is None),
{
    match json_string_field(body, "result") {
        Err(_) => Err(PipelineError::Deserialize),
        Ok(None) => Err(PipelineError::NoResult),
        Ok(Some(s)) => Ok(s),
    }
}

} // verus!
