//! What can go wrong when a prompt is put together.
use vstd::prelude::*;

verus! {

/// Why a prompt could not be built. Nothing fails once a session runs.
#[derive(Clone, Copy, Debug, PartialEq, Eq)]
pub enum Error {
    /// A selector was given no item to choose from.
    NoItems,
}

impl Error {
    /// A sentence that says what went wrong.
    pub fn to_string(&self) -> (s: String)
        ensures
            s@ == "no items to choose from"@,
    {
        match self {
            Error::NoItems => String::from_str("no items to choose from"),
        }
    }
}

} // verus!
