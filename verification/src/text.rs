use crate::error::ContainerError;
use vstd::prelude::*;
use vstd::utf8::{decode_utf8, valid_utf8};

verus! {

/// The text that `bytes` encode, or `DecodeError` where they are not valid
/// UTF-8.
pub open spec fn text_of(bytes: Seq<u8>) -> Result<Seq<char>, ContainerError> {
    if valid_utf8(bytes) {
        Ok(decode_utf8(bytes))
    } else {
        Err(ContainerError::DecodeError)
    }
}

/// Whether an executable result holds the text, or the error, of `expected`.
pub open spec fn same_string(
    got: Result<String, ContainerError>,
    expected: Result<Seq<char>, ContainerError>,
) -> bool {
    match got {
        Ok(s) => expected == Ok::<Seq<char>, ContainerError>(s@),
        Err(e) => expected == Err::<Seq<char>, ContainerError>(e),
    }
}

/// Calls `String::from_utf8` of the standard library. The contract is taken on
/// trust from its documentation: the call succeeds exactly on well-formed
/// UTF-8, and the string it returns is the text that those bytes encode.
#[verifier::external_body]
fn string_from_utf8(bytes: Vec<u8>) -> (r: Option<String>)
    ensures
        match r {
            Some(s) => valid_utf8(bytes@) && s@ == decode_utf8(bytes@),
            None => !valid_utf8(bytes@),
        },
{
    match String::from_utf8(bytes) {
        Ok(s) => Some(s),
        Err(_) => None,
    }
}

/// Decodes recovered bytes as text.
pub fn decode_text(bytes: Vec<u8>) -> (r: Result<String, ContainerError>)
    ensures
        same_string(r, text_of(bytes@)),
{
    match string_from_utf8(bytes) {
        Some(s) => Ok(s),
        None => Err(ContainerError::DecodeError),
    }
}

} // verus!
