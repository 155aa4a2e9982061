use vstd::prelude::*;
use crate::error::GalileoError;

verus! {

/// The outcome of a fetch: the body of a successful response, and an
/// I/O failure for any other status, whatever was received with it.
pub fn response_body(is_success: bool, body: Vec<u8>) -> (r: Result<Vec<u8>, GalileoError>)
    ensures
        is_success ==> r == Ok::<Vec<u8>, GalileoError>(body),
        !is_success ==> r == Err::<Vec<u8>, GalileoError>(GalileoError::IO),
{
    if is_success {
        Ok(body)
    } else {
        Err(GalileoError::IO)
    }
}

} // verus!
