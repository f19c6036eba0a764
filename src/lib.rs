//! Typed construction of query strings and routes for a bibliographic
//! metadata REST API, and normalization of its nested date encoding.

pub mod error;
pub mod query;
pub mod text;
pub mod types;
pub mod work;
