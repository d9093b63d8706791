//! Moving XLM (or any SEP-41 token) between addresses.
//!
//! The entry point invokes the token contract's `transfer(from, to, amount)`
//! once, with the amount unchanged, and hands the reply here; the function
//! below decides what the transfer answers.

use vstd::prelude::*;

use crate::error::{Error, HostError};

pub use crate::constants::STROOPS_PER_XLM;

verus! {

/// How the token contract's `transfer` invocation ended.
#[derive(Debug, Clone, Copy, PartialEq, Eq, Structural)]
pub enum TransferReply {
    /// The token contract returned normally.
    Completed,
    /// The invocation failed with this error: the token's own contract error,
    /// or an error of the host (missing authorization, a trap, a reply of the
    /// wrong type).
    Failed(HostError),
}

/// What a transfer answers for the token contract's reply.
pub open spec fn transfer_outcome(reply: TransferReply) -> Result<(), Error> {
    match reply {
        TransferReply::Completed => Ok(()),
        TransferReply::Failed(error) => Err(Error::TransferFailed(error)),
    }
}

/// Decides a transfer of `amount` of a token from one address to another,
/// given how the token contract's `transfer` invocation ended: it succeeds
/// when the invocation completed, and otherwise fails with the token's own
/// error, unchanged.
pub fn transfer(reply: TransferReply) -> (verdict: Result<(), Error>)
    ensures
        verdict == transfer_outcome(reply),
        verdict is Ok <==> reply is Completed,
        reply matches TransferReply::Failed(error) ==> verdict == Err::<(), Error>(Error::TransferFailed(error)),
{
    match reply {
        TransferReply::Completed => Ok(()),
        TransferReply::Failed(error) => Err(Error::TransferFailed(error)),
    }
}

/// A transfer is reported done only when the token contract completed it:
/// every failed invocation, whatever its error (the token's own contract
/// error such as an insufficient balance, or a host error), makes the transfer
/// fail, and the failure carries that error unchanged.
pub proof fn transfer_fails_whenever_the_token_fails(reply: TransferReply)
    ensures
        transfer_outcome(reply) is Ok <==> reply is Completed,
        forall|error: HostError|
            reply == TransferReply::Failed(error)
                ==> #[trigger] transfer_outcome(TransferReply::Failed(error)) == Err::<(), Error>(Error::TransferFailed(error)),
{
}

} // verus!
