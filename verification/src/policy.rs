//! Policy guards for an allowlisted fungible token.
//!
//! The guards are kept apart from the token mechanics: a contract calls them
//! at its entry points. The entry point requires the caller's authorization,
//! looks up in the contract's storage what a guard needs, and hands it here;
//! the functions below decide, and their contracts say exactly when the call
//! may go on. They read nothing else and change nothing.

use vstd::prelude::*;

use crate::error::Error;

verus! {

/// The role that, besides the admin, may run administrative operations.
pub const MANAGER_ROLE: &'static str = "manager";

/// The admin rule: the operator passes when it is the admin or holds the
/// manager role.
pub open spec fn admin_permits(operator_is_admin: bool, operator_is_manager: bool) -> bool {
    operator_is_admin || operator_is_manager
}

/// What the admin guard answers.
pub open spec fn admin_outcome(operator_is_admin: bool, operator_is_manager: bool) -> Result<(), Error> {
    if admin_permits(operator_is_admin, operator_is_manager) {
        Ok(())
    } else {
        Err(Error::Unauthorized)
    }
}

/// What the allowlist guard answers for an account that is (or is not) listed.
pub open spec fn allowlist_outcome(allowed: bool) -> Result<(), Error> {
    if allowed {
        Ok(())
    } else {
        Err(Error::NotAllowlisted)
    }
}

/// The admin guard: lets the operator through when it is the stored admin or
/// holds the `MANAGER_ROLE` role, and answers `Err(Unauthorized)` otherwise.
/// With no admin stored, `operator_is_admin` is false. The role only matters
/// for an operator that is not the admin, so its lookup may be skipped then.
pub fn require_admin(operator_is_admin: bool, operator_is_manager: bool) -> (verdict: Result<(), Error>)
    ensures
        verdict == admin_outcome(operator_is_admin, operator_is_manager),
        verdict is Ok <==> (operator_is_admin || operator_is_manager),
        verdict is Err ==> verdict == Err::<(), Error>(Error::Unauthorized),
{
    if operator_is_admin || operator_is_manager {
        Ok(())
    } else {
        Err(Error::Unauthorized)
    }
}

/// The allowlist guard: lets the account through when it is on the allowlist,
/// and answers `Err(NotAllowlisted)` otherwise, whoever the account is: being
/// the admin or holding a role does not exempt it.
pub fn require_allowlisted(allowed: bool) -> (verdict: Result<(), Error>)
    ensures
        verdict == allowlist_outcome(allowed),
        verdict is Ok <==> allowed,
        verdict is Err ==> verdict == Err::<(), Error>(Error::NotAllowlisted),
{
    if allowed {
        Ok(())
    } else {
        Err(Error::NotAllowlisted)
    }
}

/// The admin guard never turns away the stored admin nor a holder of the
/// manager role; it turns away exactly the operators that are neither, and
/// always with `Unauthorized`.
pub proof fn admin_guard_rule(operator_is_admin: bool, operator_is_manager: bool)
    ensures
        operator_is_admin ==> admin_outcome(operator_is_admin, operator_is_manager) == Ok::<(), Error>(()),
        operator_is_manager ==> admin_outcome(operator_is_admin, operator_is_manager) == Ok::<(), Error>(()),
        admin_outcome(operator_is_admin, operator_is_manager) is Err
            <==> (!operator_is_admin && !operator_is_manager),
        admin_outcome(operator_is_admin, operator_is_manager) is Err
            ==> admin_outcome(operator_is_admin, operator_is_manager) == Err::<(), Error>(Error::Unauthorized),
{
}

/// The allowlist guard lets an account through exactly when it is listed, and
/// turns every other account away with `NotAllowlisted`.
pub proof fn allowlist_guard_rule(allowed: bool)
    ensures
        allowlist_outcome(allowed) is Ok <==> allowed,
        !allowed ==> allowlist_outcome(allowed) == Err::<(), Error>(Error::NotAllowlisted),
{
}

} // verus!
