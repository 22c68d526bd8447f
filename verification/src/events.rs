//! A client that hands every call from the agent to a frontend's own event
//! loop. Anything the frontend does not answer is declined with
//! `method not found`, exactly as an unimplemented client method would be, so
//! a consumer that ignores an event is indistinguishable on the wire from one
//! that never served that method.

use vstd::prelude::*;
use crate::error::{bare, with_data, Error, METHOD_NOT_FOUND};
use crate::json::json_string;

verus! {

/// The refusal for a call nobody answered.
pub open spec fn is_declined(e: Error) -> bool {
    bare(e, METHOD_NOT_FOUND, "Method not found"@)
}

/// The refusal for an extension call nobody answered: the one refusal that
/// names the method, as the default does.
pub open spec fn is_declined_ext(e: Error, method: Seq<char>) -> bool {
    with_data(e, METHOD_NOT_FOUND, "Method not found"@, json_string(method))
}

/// What a request forwarded to the frontend comes to: the frontend's answer,
/// or a refusal when the event could not be queued or its reply was dropped
/// unanswered (`answer` is `None`).
pub fn answered<T>(answer: Option<Result<T, Error>>) -> (r: Result<T, Error>)
    ensures
        match answer {
            Some(a) => r == a,
            None => r matches Err(e) && is_declined(e),
        },
{
    match answer {
        Some(a) => a,
        None => Err(Error::method_not_found()),
    }
}

/// The refusal for the extension call `method`.
pub fn declined_ext(method: String) -> (e: Error)
    ensures
        is_declined_ext(e, method@),
{
    Error::method_not_found().with_text(method)
}

/// What an extension request forwarded to the frontend comes to.
pub fn answered_ext<T>(method: String, answer: Option<Result<T, Error>>) -> (r: Result<T, Error>)
    ensures
        match answer {
            Some(a) => r == a,
            None => r matches Err(e) && is_declined_ext(e, method@),
        },
{
    match answer {
        Some(a) => a,
        None => Err(declined_ext(method)),
    }
}

} // verus!
