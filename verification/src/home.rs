//! The root page of the service.
use vstd::prelude::*;

verus! {

/// The greeting answered at the root path.
pub fn index() -> (r: &'static str)
    ensures
        r@ == "Hello, world!"@,
{
    "Hello, world!"
}

} // verus!
