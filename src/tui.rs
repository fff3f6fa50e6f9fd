//! Plain-terminal front end.
use vstd::prelude::*;

verus! {

/// A front end that prints the state each tick instead of drawing it.
#[derive(Debug)]
pub struct Tui {}

impl Tui {
    pub fn new() -> (r: Self) {
        Tui {}
    }
}

/// The value a persisted flag takes when the saved state lacks it.
pub fn _default_true() -> (r: bool)
    ensures
        r,
{
    true
}

} // verus!
