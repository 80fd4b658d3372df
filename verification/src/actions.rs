//! Sample actions: the smallest useful callables to bind to an event.

use vstd::prelude::*;

verus! {

/// A sample action.
pub fn yell() -> (r: String)
    ensures
        r@ == "yell"@,
{
    "yell".to_owned()
}

/// Another sample action.
pub fn scream() -> (r: String)
    ensures
        r@ == "scream"@,
{
    "scream".to_owned()
}

} // verus!
