use vstd::prelude::*;

verus! {

/// A failure of the keyed store: the requested record is absent.
#[derive(Debug, PartialEq, Eq, Structural, Clone, Copy)]
pub enum StoreError {
    NotFound,
}

/// The failures an execution or migration call can surface.  Every failure
/// aborts the whole call; the caller persists nothing.
#[derive(Debug, PartialEq)]
pub enum ContractError {
    /// The caller is not the owner; carries the owner the store names.
    Unauthorized { owner: String },
    /// Migration found a stored identity that is not this program's.
    InvalidName(String),
    /// Migration found a version tag it does not recognize.
    UnsupportedVersion(String),
    /// A storage failure, passed through unchanged.
    Storage(StoreError),
}

} // verus!
