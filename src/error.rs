use vstd::prelude::*;

verus! {

/// Failures of a cache lookup.
#[derive(Debug, Clone, Copy, PartialEq, Eq, Structural)]
pub enum Error {
    /// The key is not in the table, and no data loader is installed (or the
    /// lookup does not consult one).
    KeyNotFound,
    /// The key is not in the table, and the data loader declined to produce it.
    KeyNotFoundOrLoadable,
}

impl Error {
    /// A human-readable message for the error.
    pub fn message(&self) -> (r: &'static str)
        ensures
            *self == Error::KeyNotFound ==> r@ == "Key not found in cache"@,
            *self == Error::KeyNotFoundOrLoadable ==> r@ == "Key not found and could not be loaded into cache"@,
    {
        match self {
            Error::KeyNotFound => "Key not found in cache",
            Error::KeyNotFoundOrLoadable => "Key not found and could not be loaded into cache",
        }
    }
}

} // verus!
