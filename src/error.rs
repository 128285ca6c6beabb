use vstd::prelude::*;

verus! {

/// Why a request failed. Either failure ends the request; nothing is retried.
#[derive(Clone, Copy, Debug, PartialEq, Eq, Structural)]
pub enum ServiceError {
    /// Exclusive access to the shared storage connection could not be had.
    LockError,
    /// The storage statement failed, or a stored row could not be read back.
    StorageError,
}

} // verus!
