//! Opaque access tokens handed out by the safety endpoints. Deriving
//! the token text (a hash of fresh randomness) is the caller's concern.

use vstd::prelude::*;

verus! {

/// An issued access token.
#[derive(Debug, Clone, PartialEq, Eq)]
pub struct VoidToken(pub String);

impl VoidToken {
    /// Wraps an already-derived token text.
    pub fn new(token: String) -> (r: Self)
        ensures
            r.0 == token,
    {
        VoidToken(token)
    }

    /// The token text.
    pub fn text(&self) -> (r: &String)
        ensures
            r == self.0,
    {
        &self.0
    }
}

} // verus!
