//! Dispatch of a request's method and path to a handler.
//!
//! The routing table is the service's whole interface: GET `/`,
//! GET `/greet`, POST `/greet`, and a catch-all for everything else.

use vstd::prelude::*;
use crate::strutil::str_eq;

verus! {

/// An HTTP request method, as far as routing distinguishes them.
#[derive(Clone, Copy, PartialEq, Eq, Structural, Debug)]
pub enum Method {
    Get,
    Post,
    Put,
    Delete,
    Patch,
    Head,
    Options,
}

/// The handler that a method/path pair selects.
#[derive(Clone, Copy, PartialEq, Eq, Structural, Debug)]
pub enum Route {
    /// GET `/`: the fixed greeting.
    Index,
    /// GET `/greet`: greet the name in the query string.
    GreetGet,
    /// POST `/greet`: validate and greet the name in the body.
    GreetPost,
    /// Any other combination: the catch-all.
    NotFound,
}

/// Which route a method and a path select.
pub open spec fn spec_route(m: Method, path: Seq<char>) -> Route {
    if m == Method::Get && path == "/"@ {
        Route::Index
    } else if m == Method::Get && path == "/greet"@ {
        Route::GreetGet
    } else if m == Method::Post && path == "/greet"@ {
        Route::GreetPost
    } else {
        Route::NotFound
    }
}

/// Dispatches a method and a path to the handler that serves them.
pub fn route(m: Method, path: &str) -> (r: Route)
    ensures
        r == spec_route(m, path@),
{
    if m == Method::Get && str_eq(path, "/") {
        Route::Index
    } else if m == Method::Get && str_eq(path, "/greet") {
        Route::GreetGet
    } else if m == Method::Post && str_eq(path, "/greet") {
        Route::GreetPost
    } else {
        Route::NotFound
    }
}

/// Law: a method/path pair that matches none of the three defined
/// routes is dispatched to the catch-all.
pub proof fn lemma_unmatched_is_not_found(m: Method, path: Seq<char>)
    requires
        !(m == Method::Get && path == "/"@),
        !(m == Method::Get && path == "/greet"@),
        !(m == Method::Post && path == "/greet"@),
    ensures
        spec_route(m, path) == Route::NotFound,
{
}

} // verus!
