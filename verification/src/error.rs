//! The one error a caller can provoke: asking for a pool without workers.

use vstd::prelude::*;

verus! {

/// Why a pool could not be built.
#[derive(Clone, Copy, Debug, PartialEq, Eq, Structural)]
pub enum PoolCreationError {
    /// The requested number of workers was zero.
    InvalidSize,
}

impl PoolCreationError {
    /// The text shown to a user for this error.
    pub open spec fn spec_message(self) -> Seq<char> {
        match self {
            PoolCreationError::InvalidSize => "Invalid size for thread pool"@,
        }
    }

    /// Renders the error as a line of text.
    pub fn message(&self) -> (text: String)
        ensures
            text@ == self.spec_message(),
    {
        match self {
            PoolCreationError::InvalidSize => "Invalid size for thread pool".to_owned(),
        }
    }
}

} // verus!
