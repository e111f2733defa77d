//! Errors of the library's own.

use vstd::prelude::*;

verus! {

/// A player was asked for in a guild that has none yet.
#[derive(Clone, Copy, Debug, PartialEq, Eq, Structural)]
pub struct NoPlayerError;

impl NoPlayerError {
    /// The message shown for this error.
    pub fn message(&self) -> (r: &'static str)
        ensures
            r@ == "player does not yet exist"@,
    {
        "player does not yet exist"
    }
}

} // verus!
