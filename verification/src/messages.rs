//! Construction of the greeting text that both greeting routes return.

use vstd::prelude::*;

verus! {

/// The greeting built for a name: `Hello, {name}!`.
pub open spec fn greeting(name: Seq<char>) -> Seq<char> {
    "Hello, "@ + name + "!"@
}

/// Builds the greeting message for a name.
pub fn greeting_message(name: &str) -> (m: String)
    ensures
        m@ == greeting(name@),
{
    String::from_str("Hello, ").concat(name).concat("!")
}

} // verus!
