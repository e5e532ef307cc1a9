//! The application's error type and its mapping to an HTTP response.
//!
//! There is exactly one application-defined error kind: a request body
//! failed validation. Each variant maps to a status code and carries its
//! message into the uniform `{"message": ...}` envelope.

use vstd::prelude::*;
use crate::handlers::Response;

verus! {

/// An error raised while handling a request.
pub enum AppError {
    /// A field of the request body failed validation; the string is the
    /// rule's own description, such as `name cannot be empty`.
    Validation(String),
}

impl AppError {
    /// The detail text carried by the error.
    pub open spec fn detail(self) -> Seq<char> {
        match self {
            AppError::Validation(m) => m@,
        }
    }

    /// The message shown to a client: `Invalid input: {detail}`.
    pub open spec fn spec_message(self) -> Seq<char> {
        "Invalid input: "@ + self.detail()
    }

    /// Renders the client-facing message.
    pub fn message(&self) -> (m: String)
        ensures
            m@ == self.spec_message(),
    {
        match self {
            AppError::Validation(msg) => String::from_str("Invalid input: ").concat(msg.as_str()),
        }
    }

    /// Maps the error to its HTTP response: every validation failure
    /// becomes status 400 with the error's message in the envelope.
    pub fn error_response(&self) -> (r: Response)
        ensures
            r.status == 400,
            r.message@ == self.spec_message(),
    {
        Response { status: 400, message: self.message() }
    }
}

/// The validation message assembled from its prefix and its detail text
/// is exactly the literal that a client sees.
pub proof fn lemma_invalid_name_message()
    ensures
        "Invalid input: "@ + "name cannot be empty"@ == "Invalid input: name cannot be empty"@,
{
    reveal_strlit("Invalid input: ");
    reveal_strlit("name cannot be empty");
    reveal_strlit("Invalid input: name cannot be empty");
    assert("Invalid input: "@ + "name cannot be empty"@ =~= "Invalid input: name cannot be empty"@);
}

} // verus!
