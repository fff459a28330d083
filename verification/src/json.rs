//! Trusted boundary to serde_json for JSON encoding and decoding.

use vstd::prelude::*;

verus! {

/// serde_json's error type, carried opaquely inside this library's errors.
#[verifier::external_type_specification]
#[verifier::external_body]
pub struct ExSerdeJsonError(serde_json::Error);

/// Relies on serde_json::to_vec: serializes a value to its JSON text.
/// Nothing is assumed of the text; callers treat every outcome.
pub assume_specification<T: ?Sized + serde::Serialize>[ serde_json::to_vec::<T> ](
    value: &T,
) -> Result<Vec<u8>, serde_json::Error>;

/// Relies on serde_json::from_slice: parses JSON text into a value.
/// Nothing is assumed of the value; callers treat every outcome.
pub assume_specification<'a, T: serde::de::Deserialize<'a>>[ serde_json::from_slice::<T> ](
    v: &'a [u8],
) -> Result<T, serde_json::Error>;

} // verus!
