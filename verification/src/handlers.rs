//! The request handlers, one per route, and the validation rule of the
//! POST body.
//!
//! Every handler is a pure function from the values extracted out of a
//! request to a [`Response`]: the status code and the `message` field of
//! the uniform `{"message": ...}` JSON envelope.

use vstd::prelude::*;
use crate::error::AppError;
use crate::error::lemma_invalid_name_message;
use crate::messages::greeting;
use crate::messages::greeting_message;

verus! {

/// A response in the service's uniform envelope: the HTTP status code
/// and the `message` field of the JSON body.
pub struct Response {
    pub status: u16,
    pub message: String,
}

/// GET `/`: always the fixed greeting, whatever else the request held.
pub fn index() -> (r: Response)
    ensures
        r.status == 200,
        r.message@ == "Hello, API!"@,
{
    Response { status: 200, message: String::from_str("Hello, API!") }
}

/// GET `/greet`: greets the name from the query string. No validation
/// is applied on this path; the empty name is greeted like any other.
pub fn greet_get(name: &str) -> (r: Response)
    ensures
        r.status == 200,
        r.message@ == greeting(name@),
{
    Response { status: 200, message: greeting_message(name) }
}

/// The one validation rule of the POST body: `name` must be non-empty.
/// Whitespace is not trimmed, so a whitespace-only name passes.
pub fn validate_name(name: &str) -> (v: Result<(), AppError>)
    ensures
        v is Ok <==> name@.len() > 0,
        v matches Err(e) ==> e.detail() == "name cannot be empty"@,
{
    if name.is_empty() {
        Err(AppError::Validation(String::from_str("name cannot be empty")))
    } else {
        Ok(())
    }
}

/// POST `/greet`: validates the body's name, then greets it. A non-empty
/// name is greeted; the empty name raises the one validation error.
pub fn greet_post(name: &str) -> (r: Result<Response, AppError>)
    ensures
        r is Ok <==> name@.len() > 0,
        r matches Ok(resp) ==> resp.status == 200 && resp.message@ == greeting(name@),
        r matches Err(e) ==> e.spec_message() == "Invalid input: name cannot be empty"@,
{
    match validate_name(name) {
        Ok(()) => Ok(Response { status: 200, message: greeting_message(name) }),
        Err(e) => {
            proof {
                lemma_invalid_name_message();
            }
            Err(e)
        },
    }
}

/// The full POST `/greet` exchange, validation error included: a
/// non-empty name gets status 200 and its greeting; the empty name gets
/// status 400 and the validation message.
pub fn handle_greet_post(name: &str) -> (r: Response)
    ensures
        name@.len() > 0 ==> r.status == 200 && r.message@ == greeting(name@),
        name@.len() == 0 ==> r.status == 400 && r.message@ == "Invalid input: name cannot be empty"@,
{
    match greet_post(name) {
        Ok(resp) => resp,
        Err(e) => e.error_response(),
    }
}

/// The catch-all handler: any request outside the routing table gets
/// status 404 and the fixed not-found message.
pub fn not_found() -> (r: Response)
    ensures
        r.status == 404,
        r.message@ == "The requested resource was not found."@,
{
    Response { status: 404, message: String::from_str("The requested resource was not found.") }
}

} // verus!
