//! Genre classification back end: the verified ensemble combiner and the
//! pure decisions of the web layer around it.

pub mod config;
pub mod db;
pub mod http;
pub mod ml;
pub mod text;
