//! The answer to a request whose page was rendered, or failed to render.

use vstd::prelude::*;
use vstd::string::*;

use crate::http::handlers::status::{INTERNAL_SERVER_ERROR, OK};

verus! {

/// A page that is rendered from a template when the response is built.
pub struct HtmlTemplate<T>(pub T);

/// Status code and body of a response.
#[derive(Debug)]
pub struct Response {
    pub status: u16,
    pub body: String,
}

/// What a failed rendering is answered with.
pub open spec fn render_failure_text(error: Seq<char>) -> Seq<char> {
    "Failed to render template. Error "@ + error
}

impl<T> HtmlTemplate<T> {
    /// The response for the page: the rendered text, or an internal server
    /// error that names why rendering failed.
    pub fn into_response(&self, rendered: Result<String, String>) -> (response: Response)
        ensures
            rendered is Ok ==> response.status == OK && response.body == rendered->Ok_0,
            rendered is Err ==> response.status == INTERNAL_SERVER_ERROR && response.body@
                == render_failure_text(rendered->Err_0@),
    {
        match rendered {
            Ok(html) => Response { status: OK, body: html },
            Err(err) => {
                let mut body = String::from_str("Failed to render template. Error ");
                body.append(err.as_str());
                Response { status: INTERNAL_SERVER_ERROR, body }
            },
        }
    }
}

} // verus!
