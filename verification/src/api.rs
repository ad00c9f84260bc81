//! Interpretation of remote task-store responses and construction of request
//! bodies.
//!
//! The HTTP round trips themselves happen outside the library. What comes
//! back — the status, and the decoded body if it decoded at all — is judged
//! here: any non-OK status, undecodable body or `success: false` answer is a
//! failed operation.

use vstd::prelude::*;
use crate::error::Error;
use crate::tasks::Task;

verus! {

/// The decoded body of a get-tasks response.
pub struct GetTasksResponse {
    pub success: bool,
    pub tasks: Vec<Task>,
}

/// The decoded body of a set or delete response.
pub struct SuccessResponse {
    pub success: bool,
}

/// The verdict on a get-tasks round trip: the fetched tasks, or the error a
/// non-OK status, an undecodable body or a server-reported failure earns.
pub open spec fn get_tasks_verdict(status_ok: bool, parsed: Option<GetTasksResponse>) -> Result<
    Seq<Task>,
    Error,
> {
    if !status_ok {
        Err(Error::UnsuccessfulApiRequestError)
    } else {
        match parsed {
            None => Err(Error::JsonDeserializationError),
            Some(p) => if p.success {
                Ok(p.tasks@)
            } else {
                Err(Error::UnsuccessfulApiRequestError)
            },
        }
    }
}

/// The verdict on a set or delete round trip, judged the same way.
pub open spec fn success_verdict(status_ok: bool, parsed: Option<SuccessResponse>) -> Result<
    (),
    Error,
> {
    if !status_ok {
        Err(Error::UnsuccessfulApiRequestError)
    } else {
        match parsed {
            None => Err(Error::JsonDeserializationError),
            Some(p) => if p.success {
                Ok(())
            } else {
                Err(Error::UnsuccessfulApiRequestError)
            },
        }
    }
}

/// Judges a get-tasks response: `status_ok` says whether the HTTP status was
/// OK, `parsed` holds the body if it decoded. Returns the fetched tasks
/// exactly when the status was OK, the body decoded and the server reported
/// success.
pub fn evaluate_get_tasks_response(status_ok: bool, parsed: Option<GetTasksResponse>) -> (r: Result<
    Vec<Task>,
    Error,
>)
    ensures
        (match r {
            Ok(tasks) => get_tasks_verdict(status_ok, parsed) == Ok::<Seq<Task>, Error>(tasks@),
            Err(e) => get_tasks_verdict(status_ok, parsed) == Err::<Seq<Task>, Error>(e),
        }),
{
    if !status_ok {
        return Err(Error::UnsuccessfulApiRequestError);
    }
    match parsed {
        None => Err(Error::JsonDeserializationError),
        Some(p) => {
            if p.success {
                Ok(p.tasks)
            } else {
                Err(Error::UnsuccessfulApiRequestError)
            }
        },
    }
}

/// Judges a set or delete response the same way; success carries no payload.
pub fn evaluate_success_response(status_ok: bool, parsed: Option<SuccessResponse>) -> (r: Result<
    (),
    Error,
>)
    ensures
        (match r {
            Ok(u) => success_verdict(status_ok, parsed) == Ok::<(), Error>(u),
            Err(e) => success_verdict(status_ok, parsed) == Err::<(), Error>(e),
        }),
{
    if !status_ok {
        return Err(Error::UnsuccessfulApiRequestError);
    }
    match parsed {
        None => Err(Error::JsonDeserializationError),
        Some(p) => {
            if p.success {
                Ok(())
            } else {
                Err(Error::UnsuccessfulApiRequestError)
            }
        },
    }
}

/// The JSON text for a list of task identifiers.
pub uninterp spec fn json_of_ids(ids: Seq<i32>) -> Seq<char>;

/// Relies on serde_json::to_string on a vector of integers: the text it
/// returns depends on the integers alone, and writing integers into the
/// in-memory buffer has no failure path, so a value always comes back.
#[verifier::external_body]
fn ids_to_json(ids: &Vec<i32>) -> (r: Option<String>)
    ensures
        r is Some,
        r matches Some(s) ==> s@ == json_of_ids(ids@),
{
    serde_json::to_string(ids).ok()
}

/// Builds the JSON body of a delete request for these task identifiers:
/// always the JSON rendering of the id list.
pub fn delete_request_body(ids: &Vec<i32>) -> (r: Result<String, Error>)
    ensures
        r matches Ok(s) && s@ == json_of_ids(ids@),
{
    match ids_to_json(ids) {
        Some(body) => Ok(body),
        None => Err(Error::JsonDeserializationError),
    }
}

} // verus!
