use stellar_save::policy::MANAGER_ROLE;
use stellar_save::{require_admin, require_allowlisted, Error};

#[test]
fn require_admin_admin_passes() {
    assert_eq!(require_admin(true, false), Ok(()));
    assert_eq!(require_admin(true, true), Ok(()));
}

#[test]
fn require_admin_manager_passes() {
    assert_eq!(require_admin(false, true), Ok(()));
}

#[test]
fn require_admin_refuses_others() {
    assert_eq!(require_admin(false, false), Err(Error::Unauthorized));
}

#[test]
fn require_allowlisted_listed_passes() {
    assert_eq!(require_allowlisted(true), Ok(()));
}

#[test]
fn require_allowlisted_refuses_unlisted() {
    assert_eq!(require_allowlisted(false), Err(Error::NotAllowlisted));
}

#[test]
fn manager_role_symbol_is_manager() {
    assert_eq!(MANAGER_ROLE, "manager");
}
