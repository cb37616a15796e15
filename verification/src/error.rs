//! The error of the token parsers.

use vstd::prelude::*;

verus! {

/// A token that names no variant of the enumeration it was parsed for.
///
/// This is the only way a conversion can fail. The parsers never fall back
/// to a default: the caller decides what an unknown token means.
#[derive(Debug, PartialEq, Eq)]
pub struct ParseError {
    /// The offending token, exactly as it was given.
    pub token: String,
}

impl Clone for ParseError {
    /// A clone carries the same token.
    fn clone(&self) -> (copy: ParseError)
        ensures
            copy == *self,
    {
        ParseError { token: self.token.clone() }
    }
}

} // verus!
