//! Values and decisions of the persistence layer. The queries themselves
//! run outside this library.

pub mod db_conn;
