//! A small HTTP greeting service, modelled as pure request handling.
//!
//! The library holds everything the service decides: which handler a
//! method/path pair selects, how a greeting message is built, when a
//! posted name is rejected, and which status code and message every
//! response carries. Serving the routes over a socket is left to a thin
//! binary around the library.

pub mod strutil;
pub mod messages;
pub mod error;
pub mod router;
pub mod handlers;
