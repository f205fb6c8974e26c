use vstd::prelude::*;

verus! {

/// Errors returned by the vault's operations.
#[derive(Copy, Clone, Debug, PartialEq, Eq, Structural, PartialOrd, Ord)]
pub enum Error {
    /// `init` was called on a vault that already has an admin.
    AlreadyInitialized,
    /// A subscription parameter was rejected.
    InvalidArgument,
    /// A value that the operation needs is not stored.
    NotFound,
    /// The requested status change is not in the transition matrix.
    InvalidStatusTransition,
    /// The subscription counter cannot grow any further.
    Overflow,
}

} // verus!
