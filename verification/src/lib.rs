//! An error-and-response protocol for calls that cross a client/server boundary.
//!
//! - [`error`]: the closed taxonomy of failures, its one-line wire form `Tag|payload`, and the
//!   contract of an application's own error type.
//! - [`url_error`]: the fallback that carries a failed call's path and error in the query of a
//!   URL, and takes them out again.
//! - [`response`]: building responses on the server and reading them on the client.
//! - [`text`]: helpers on text.
//! - [`url_model`]: what is taken on trust from the `url` crate.

pub mod error;
pub mod response;
pub mod text;
pub mod url_error;
pub mod url_model;
