use stellar_save::xlm::{transfer, STROOPS_PER_XLM};
use stellar_save::{Error, HostError, TransferReply};

#[test]
fn transfer_completed_succeeds() {
    assert_eq!(transfer(TransferReply::Completed), Ok(()));
}

#[test]
fn transfer_failure_keeps_the_token_error() {
    // A contract error of the token (kind 0), e.g. an insufficient balance.
    let token_error = HostError { kind: 0, code: 10 };
    assert_eq!(
        transfer(TransferReply::Failed(token_error)),
        Err(Error::TransferFailed(HostError { kind: 0, code: 10 }))
    );
}

#[test]
fn transfer_failure_keeps_a_host_error() {
    // An authorization failure of the host: kind Auth (9), code InvalidAction (6).
    let host_error = HostError { kind: 9, code: 6 };
    assert_eq!(
        transfer(TransferReply::Failed(host_error)),
        Err(Error::TransferFailed(host_error))
    );
    assert_ne!(
        transfer(TransferReply::Failed(host_error)),
        Err(Error::TransferFailed(HostError { kind: 0, code: 10 }))
    );
}

#[test]
fn xlm_reexports_the_shared_constant() {
    assert_eq!(STROOPS_PER_XLM, 10_000_000);
}
