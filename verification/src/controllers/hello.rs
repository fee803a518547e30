//! The liveness endpoint.

use vstd::prelude::*;

verus! {

/// The answer of the root endpoint.
pub fn hello() -> (greeting: String)
    ensures
        greeting@ == "Server is running!!!!!"@,
{
    "Server is running!!!!!".to_owned()
}

} // verus!
