//! Failures that the guards and the token helper report.

use vstd::prelude::*;

verus! {

/// A Soroban error value held as plain numbers: its kind (the discriminant of
/// the host's `ScErrorType`, where 0 marks a contract's own error) and its
/// code within that kind.
#[derive(Debug, Clone, Copy, PartialEq, Eq, Structural)]
pub struct HostError {
    pub kind: u32,
    pub code: u32,
}

/// Why a guard or a token movement refused to go on.
#[derive(Debug, Clone, Copy, PartialEq, Eq, Structural)]
pub enum Error {
    /// The operator is neither the admin nor a holder of the manager role.
    Unauthorized,
    /// The account is not on the contract's allowlist.
    NotAllowlisted,
    /// The token contract did not complete the transfer; it failed with this
    /// error.
    TransferFailed(HostError),
}

} // verus!
