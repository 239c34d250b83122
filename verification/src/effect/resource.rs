//! Resource: bracket-based resource management.
//!
//! A resource is acquired, used, and then released, even when the use
//! fails.  What the bracket returns depends only on the outcomes of the
//! use and of the release.
use vstd::prelude::*;

verus! {

/// The outcome of a bracket whose body produced `used` and whose release
/// (which runs in every case) produced `released`: the body's error if the
/// body failed, else the release's error if the release failed, else the
/// body's value.
pub open spec fn bracket_spec<B, E>(used: Result<B, E>, released: Result<(), E>) -> Result<B, E> {
    match used {
        Err(e) => Err(e),
        Ok(b) => match released {
            Ok(_) => Ok(b),
            Err(e) => Err(e),
        },
    }
}

/// Combine the outcome of using a resource with the outcome of releasing it.
pub fn bracket_outcome<B, E>(used: Result<B, E>, released: Result<(), E>) -> (r: Result<B, E>)
    ensures
        r == bracket_spec(used, released),
{
    match used {
        Err(e) => Err(e),
        Ok(b) => match released {
            Ok(()) => Ok(b),
            Err(e) => Err(e),
        },
    }
}

} // verus!
