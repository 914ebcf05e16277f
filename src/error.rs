use vstd::prelude::*;

verus! {

/// Why a store operation did not succeed.
#[derive(Debug, Clone, Copy, PartialEq, Eq, Structural)]
pub enum StoreError {
    /// The identifier cannot name an entry; storage was not touched.
    InvalidIdentifier,
    /// The underlying storage reported a failure other than "does not exist".
    IOFailure,
}

} // verus!
