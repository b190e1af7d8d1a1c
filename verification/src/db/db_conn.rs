//! Rows of the two tables and what the outcome of a query is turned into.

use vstd::prelude::*;
use vstd::string::*;

use crate::http::handlers::delete::DeleteStatus;

verus! {

/// A session that cannot be resolved to a user.
#[derive(Debug)]
pub enum AuthError {
    /// No user has this session identifier.
    UUIDError(String),
}

/// A query on the uploads that failed.
#[derive(Debug)]
pub enum SqlError {
    /// What went wrong, for the log.
    UploadQueryError(String),
}

/// A registered user. `created_at` counts microseconds since the Unix
/// epoch, without a time zone.
#[derive(Debug)]
pub struct User {
    pub id: i64,
    pub username: String,
    pub uuid: String,
    pub created_at: i64,
}

/// An uploaded track. `added` counts microseconds since the Unix epoch,
/// without a time zone.
#[derive(Debug)]
pub struct Upload {
    pub id: i64,
    pub user_uuid: String,
    pub upload_uuid: String,
    pub file_name: String,
    pub added: i64,
    pub ready: bool,
}

impl User {
    /// The user as registered: the stored row, stamped with the moment of
    /// registration.
    pub fn new(database_user: User, created_at: i64) -> (user: User)
        ensures
            user.id == database_user.id,
            user.uuid == database_user.uuid,
            user.username == database_user.username,
            user.created_at == created_at,
    {
        User {
            id: database_user.id,
            uuid: database_user.uuid,
            username: database_user.username,
            created_at,
        }
    }
}

impl AuthError {
    /// The failure to find the user of session `uuid`.
    pub fn unknown_session(uuid: &str) -> (e: AuthError)
        ensures
            e == AuthError::UUIDError(e->UUIDError_0),
            e->UUIDError_0@ == uuid@,
    {
        AuthError::UUIDError(String::from_str(uuid))
    }
}

impl SqlError {
    /// What is reported when the uploads of user `user_uuid` cannot be
    /// fetched.
    pub open spec fn all_not_fetched_text(user_uuid: Seq<char>, cause: Seq<char>) -> Seq<char> {
        "Uploads couldn't be fetched. "@ + user_uuid + " \n "@ + cause
    }

    /// What is reported when the upload `upload_uuid` cannot be fetched.
    pub open spec fn one_not_fetched_text(upload_uuid: Seq<char>, cause: Seq<char>) -> Seq<char> {
        "Uploads couldn't be fetched. "@ + upload_uuid + " \n "@ + cause + " "@
    }

    /// What is reported when rows cannot be removed.
    pub open spec fn not_removed_text(cause: Seq<char>) -> Seq<char> {
        "Uploads couldn't be removed. "@ + cause + " \n"@
    }

    /// The message of the error.
    pub open spec fn text(self) -> Seq<char> {
        self->UploadQueryError_0@
    }

    /// The failure to fetch the uploads of user `user_uuid`.
    pub fn all_not_fetched(user_uuid: &str, cause: &str) -> (e: SqlError)
        ensures
            e.text() == Self::all_not_fetched_text(user_uuid@, cause@),
    {
        let mut message = String::from_str("Uploads couldn't be fetched. ");
        message.append(user_uuid);
        message.append(" \n ");
        message.append(cause);
        SqlError::UploadQueryError(message)
    }

    /// The failure to fetch the upload `upload_uuid`.
    pub fn one_not_fetched(upload_uuid: &str, cause: &str) -> (e: SqlError)
        ensures
            e.text() == Self::one_not_fetched_text(upload_uuid@, cause@),
    {
        let mut message = String::from_str("Uploads couldn't be fetched. ");
        message.append(upload_uuid);
        message.append(" \n ");
        message.append(cause);
        message.append(" ");
        SqlError::UploadQueryError(message)
    }

    /// The failure to remove all rows of a table.
    pub fn not_removed(cause: &str) -> (e: SqlError)
        ensures
            e.text() == Self::not_removed_text(cause@),
    {
        let mut message = String::from_str("Uploads couldn't be removed. ");
        message.append(cause);
        message.append(" \n");
        SqlError::UploadQueryError(message)
    }
}

/// The list shown to a user whose uploads cannot be fetched: one
/// placeholder that asks for a first song.
pub fn get_default_upload(added: i64) -> (uploads: Vec<Upload>)
    ensures
        uploads@.len() == 1,
        uploads@[0].id == 0,
        uploads@[0].upload_uuid@ == "insert"@,
        uploads@[0].user_uuid@ == "your first"@,
        uploads@[0].file_name@ == "song"@,
        uploads@[0].added == added,
        !uploads@[0].ready,
{
    let mut default_vec: Vec<Upload> = Vec::new();
    default_vec.push(
        Upload {
            id: 0,
            upload_uuid: String::from_str("insert"),
            user_uuid: String::from_str("your first"),
            file_name: String::from_str("song"),
            added,
            ready: false,
        },
    );
    default_vec
}

/// The uploads to show: those fetched, or the placeholder list where the
/// query failed.
pub fn uploads_or_default(fetched: Result<Vec<Upload>, SqlError>, now: i64) -> (uploads: Vec<Upload>)
    ensures
        fetched is Ok ==> uploads == fetched->Ok_0,
        fetched is Err ==> uploads@.len() == 1 && uploads@[0].id == 0 && uploads@[0].upload_uuid@
            == "insert"@ && uploads@[0].user_uuid@ == "your first"@ && uploads@[0].file_name@
            == "song"@ && uploads@[0].added == now && !uploads@[0].ready,
{
    match fetched {
        Ok(uploads) => uploads,
        Err(_) => get_default_upload(now),
    }
}

/// What the removal of upload `upload_uuid` of user `user_uuid` is reported
/// as: done exactly when the transaction was committed.
pub fn delete_upload_db(upload_uuid: String, user_uuid: String, committed: bool) -> (status:
    DeleteStatus)
    ensures
        status.upload_uuid == upload_uuid,
        status.user_uuid == user_uuid,
        status.status == committed,
{
    DeleteStatus { upload_uuid, user_uuid, status: committed }
}

} // verus!
