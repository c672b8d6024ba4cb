use vstd::prelude::*;
use crate::error::{FetchFailure, ViewerError};

verus! {

/// An HTTP status in the success range.
pub open spec fn is_success(status: u16) -> bool {
    200 <= status < 300
}

/// Turns a fetch's response into the asset's bytes: the status must be a
/// success and the body must have been read.
pub fn fetched_bytes(status: u16, body: Option<Vec<u8>>) -> (r: Result<Vec<u8>, ViewerError>)
    ensures
        !is_success(status) ==> r == Err::<Vec<u8>, ViewerError>(
            ViewerError::Fetch(FetchFailure::Status(status)),
        ),
        is_success(status) && body is None ==> r == Err::<Vec<u8>, ViewerError>(
            ViewerError::Fetch(FetchFailure::Body),
        ),
        is_success(status) && body is Some ==> r is Ok && r->Ok_0@ == body->Some_0@,
{
    if status < 200 || status >= 300 {
        return Err(ViewerError::Fetch(FetchFailure::Status(status)));
    }
    match body {
        Some(b) => Ok(b),
        None => Err(ViewerError::Fetch(FetchFailure::Body)),
    }
}

/// What the producer hands over once the bytes were decoded: the model, or a
/// decode error in place of the decoder's own error.
pub fn decoded_model<M, D>(decoded: Result<M, D>) -> (r: Result<M, ViewerError>)
    ensures
        match decoded {
            Ok(m) => r == Ok::<M, ViewerError>(m),
            Err(_) => r == Err::<M, ViewerError>(ViewerError::Decode),
        },
{
    match decoded {
        Ok(m) => Ok(m),
        Err(_) => Err(ViewerError::Decode),
    }
}

} // verus!
