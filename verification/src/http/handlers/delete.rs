//! Removal of an upload.

use vstd::prelude::*;

use crate::http::handlers::status::BAD_REQUEST;
use crate::http::handlers::template::Response;

verus! {

/// Outcome of the removal of one upload, as the page reports it.
#[derive(Debug)]
pub struct DeleteStatus {
    pub upload_uuid: String,
    pub user_uuid: String,
    pub status: bool,
}

impl DeleteStatus {
    /// What is reported to a request without a session: nothing was
    /// removed, and no identifier is named.
    pub fn rejected() -> (status: DeleteStatus)
        ensures
            status.upload_uuid@ == Seq::<char>::empty(),
            status.user_uuid@ == Seq::<char>::empty(),
            !status.status,
    {
        DeleteStatus { upload_uuid: String::new(), user_uuid: String::new(), status: false }
    }
}

/// What a request to remove an upload is answered with before anything is
/// removed: a request without a session is a bad request, answered with
/// the page `rejected_page` of the rejected status; one with a session
/// goes on to the removal.
pub fn delete_upload(session: Option<&str>, rejected_page: String) -> (refusal: Option<Response>)
    ensures
        session is Some ==> refusal is None,
        session is None ==> refusal == Some(Response { status: BAD_REQUEST, body: rejected_page }),
{
    match session {
        Some(_) => None,
        None => Some(Response { status: BAD_REQUEST, body: rejected_page }),
    }
}

} // verus!
