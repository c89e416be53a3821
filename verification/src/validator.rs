//! The content validator: a structural check on bytes that a call site
//! declares to be JSON, made before any typed reading is attempted.

use crate::error::FetchError;
use vstd::prelude::*;

verus! {

/// The error of `serde_json`.
#[verifier::external_type_specification]
#[verifier::external_body]
pub struct ExJsonError(serde_json::Error);

/// Whether `bytes` is one well-formed JSON text.
pub uninterp spec fn is_json(bytes: Seq<u8>) -> bool;

/// Reads `bytes` as a `serde_json::Value` with `serde_json::from_slice` and
/// drops the value.
///
/// Trusted: whether the reading succeeds depends on `bytes` alone.
#[verifier::external_body]
fn read_json(bytes: &[u8]) -> (res: Result<(), serde_json::Error>)
    ensures
        res is Ok <==> is_json(bytes@),
{
    match serde_json::from_slice::<serde_json::Value>(bytes) {
        Ok(_) => Ok(()),
        Err(error) => Err(error),
    }
}

/// Accepts `bytes` exactly where they are well-formed JSON. On success the
/// caller hands the same bytes onward: nothing is rewritten. On failure the
/// error describes where the reading stopped.
pub fn validate_structured(bytes: &[u8]) -> (res: Result<(), FetchError>)
    ensures
        match res {
            Ok(_) => is_json(bytes@),
            Err(error) => !is_json(bytes@) && error is ValidationError,
        },
{
    match read_json(bytes) {
        Ok(_) => Ok(()),
        Err(error) => Err(FetchError::ValidationError { cause: error.to_string() }),
    }
}

} // verus!
