//! One module per request handler, and what a rendered page is answered
//! with.

pub mod delete;
pub mod profile;
pub mod register;
pub mod status;
pub mod template;
pub mod track_menu;
pub mod upload;

pub use template::{HtmlTemplate, Response};
