//! Decisions of the web layer, from plain values to plain values. Routing,
//! sessions and rendering run outside this library.

pub mod handlers;
pub mod user_http;
