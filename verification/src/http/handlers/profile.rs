//! The profile page of a user.

use vstd::prelude::*;

use crate::db::db_conn::{uploads_or_default, SqlError, Upload, User};
use crate::http::handlers::status::NOT_FOUND;

verus! {

/// What the profile page shows.
#[derive(Debug)]
pub struct UserMetadataTemplate {
    pub username: String,
    pub uuid: String,
    pub created_at: i64,
    pub uploads: Vec<Upload>,
}

/// The profile page of `user`: the uploads that were fetched, or the
/// placeholder list, stamped `now`, where they could not be. A request
/// without a session finds nothing.
pub fn get_user_data(
    session: Option<&str>,
    user: User,
    fetched: Result<Vec<Upload>, SqlError>,
    now: i64,
) -> (r: Result<UserMetadataTemplate, u16>)
    ensures
        session is None ==> r == Err::<UserMetadataTemplate, u16>(NOT_FOUND),
        session is Some ==> r is Ok && r->Ok_0.username == user.username && r->Ok_0.uuid
            == user.uuid && r->Ok_0.created_at == user.created_at,
        session is Some && fetched is Ok ==> r->Ok_0.uploads == fetched->Ok_0,
        session is Some && fetched is Err ==> r->Ok_0.uploads@.len() == 1
            && r->Ok_0.uploads@[0].id == 0 && r->Ok_0.uploads@[0].upload_uuid@ == "insert"@
            && r->Ok_0.uploads@[0].user_uuid@ == "your first"@ && r->Ok_0.uploads@[0].file_name@
            == "song"@ && r->Ok_0.uploads@[0].added == now && !r->Ok_0.uploads@[0].ready,
{
    match session {
        Some(_) => {
            let uploads = uploads_or_default(fetched, now);
            Ok(
                UserMetadataTemplate {
                    username: user.username,
                    uuid: user.uuid,
                    created_at: user.created_at,
                    uploads,
                },
            )
        },
        None => Err(NOT_FOUND),
    }
}

} // verus!
