//! Registration of a user and the session cookie.

use vstd::prelude::*;
use vstd::string::*;

use crate::http::handlers::status::{FOUND, TEMPORARY_REDIRECT};

verus! {

/// Where a registered user is sent.
pub const PROFILE_LOCATION: &'static str = "/profile";

/// The registration form as it is submitted.
#[derive(Debug)]
pub struct UserRegisterReq {
    pub username: String,
}

/// The empty registration form.
#[derive(Debug)]
pub struct UserFormTemplate {}

/// A response that sends the client elsewhere, with the cookie to set, if
/// any.
#[derive(Debug)]
pub struct Redirect {
    pub status: u16,
    pub location: String,
    pub set_cookie: Option<String>,
}

/// The cookie that carries the session `uuid`.
pub open spec fn session_cookie_text(uuid: Seq<char>) -> Seq<char> {
    "uuid="@ + uuid + "; Path:/; HttpOnly; SameSite=Strict"@
}

/// The page that confirms a registration.
pub open spec fn registered_text(uuid: Option<Seq<char>>) -> Seq<char> {
    match uuid {
        Some(uuid) => "uuid: "@ + uuid + ", <a href='/profile'>Go to profile</a>"@,
        None => "No UUID found in cookies."@,
    }
}

/// The cookie that carries the session `uuid`.
pub fn session_cookie(uuid: &str) -> (cookie: String)
    ensures
        cookie@ == session_cookie_text(uuid@),
{
    let mut cookie = String::from_str("uuid=");
    cookie.append(uuid);
    cookie.append("; Path:/; HttpOnly; SameSite=Strict");
    cookie
}

/// The answer to a registration: the user, whose session is `uuid`, is
/// sent to the profile page and handed the session cookie.
pub fn register_user(uuid: &str) -> (redirect: Redirect)
    ensures
        redirect.status == FOUND,
        redirect.location@ == PROFILE_LOCATION@,
        redirect.set_cookie is Some,
        redirect.set_cookie->Some_0@ == session_cookie_text(uuid@),
{
    Redirect {
        status: FOUND,
        location: String::from_str(PROFILE_LOCATION),
        set_cookie: Some(session_cookie(uuid)),
    }
}

/// The page that confirms a registration: it names the session, or says
/// that there is none.
pub fn user_registered(session: Option<&str>) -> (page: String)
    ensures
        page@ == registered_text(
            match session {
                Some(uuid) => Some(uuid@),
                None => None,
            },
        ),
{
    match session {
        Some(uuid) => {
            let mut page = String::from_str("uuid: ");
            page.append(uuid);
            page.append(", <a href='/profile'>Go to profile</a>");
            page
        },
        None => String::from_str("No UUID found in cookies."),
    }
}

/// The answer to a request for the registration form: a client with a
/// session is sent to the profile page, any other gets the form.
pub fn user_form(session: Option<&str>) -> (r: Result<UserFormTemplate, Redirect>)
    ensures
        session is None ==> r is Ok,
        session is Some ==> r is Err && r->Err_0.status == TEMPORARY_REDIRECT
            && r->Err_0.location@ == PROFILE_LOCATION@ && r->Err_0.set_cookie is None,
{
    match session {
        Some(_) => Err(
            Redirect {
                status: TEMPORARY_REDIRECT,
                location: String::from_str(PROFILE_LOCATION),
                set_cookie: None,
            },
        ),
        None => Ok(UserFormTemplate {  }),
    }
}

} // verus!
