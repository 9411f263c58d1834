//! Who may do what: role requirements and ownership of records.

use crate::clock::Id;
use crate::errors::{AppError, AppErrorView, ErrorKind};
use crate::models::UserRole;
use vstd::prelude::*;
use vstd::string::*;

verus! {

/// Whether an account acting as `actual` meets a requirement of `required`:
/// an administrator meets every requirement, anyone else only that of their
/// own role.
pub open spec fn role_satisfies(actual: UserRole, required: UserRole) -> bool {
    actual == UserRole::Admin || actual == required
}

/// Whether an account acting as `role` may own a tutor profile.
pub open spec fn may_tutor(role: UserRole) -> bool {
    role_satisfies(role, UserRole::Tutor)
}

/// Whether an account acting as `role` may review a tutor: students only.
pub open spec fn may_review(role: Option<UserRole>) -> bool {
    role == Some(UserRole::Student)
}

/// Whether account `account` owns a record whose owning account is
/// `owner`; a record that does not exist (`None`) is owned by no one.
pub open spec fn is_owner(account: Id, owner: Option<Id>) -> bool {
    owner == Some(account)
}

/// The failure of a role requirement, with the given detail.
pub open spec fn forbidden(detail: Seq<char>) -> AppErrorView {
    AppErrorView { kind: ErrorKind::Authorization, detail }
}

/// The failure for a record that is missing or not the caller's, with the
/// given detail. Both causes give the same value.
pub open spec fn not_found(detail: Seq<char>) -> AppErrorView {
    AppErrorView { kind: ErrorKind::NotFound, detail }
}

/// Decides [`role_satisfies`].
pub fn satisfies_role(actual: UserRole, required: UserRole) -> (ok: bool)
    ensures
        ok == role_satisfies(actual, required),
{
    actual == UserRole::Admin || actual == required
}

/// Decides [`may_review`].
pub fn can_review(role: Option<UserRole>) -> (ok: bool)
    ensures
        ok == may_review(role),
{
    match role {
        Some(UserRole::Student) => true,
        _ => false,
    }
}

/// Decides [`is_owner`].
pub fn owns(account: Id, owner: Option<Id>) -> (ok: bool)
    ensures
        ok == is_owner(account, owner),
{
    match owner {
        Some(id) => id == account,
        None => false,
    }
}

/// Passes when `actual` meets `required`; fails with `Authorization` and
/// `detail` otherwise.
pub fn require_role(actual: UserRole, required: UserRole, detail: &str) -> (r: Result<
    (),
    AppError,
>)
    ensures
        role_satisfies(actual, required) ==> r is Ok,
        !role_satisfies(actual, required) ==> r is Err && r->Err_0@ == forbidden(detail@),
{
    if satisfies_role(actual, required) {
        Ok(())
    } else {
        Err(AppError::Authorization(String::from_str(detail)))
    }
}

/// Passes when `account` owns the record; fails with `NotFound` and
/// `detail` otherwise, whether the record is someone else's or missing.
pub fn require_owner(account: Id, owner: Option<Id>, detail: &str) -> (r: Result<(), AppError>)
    ensures
        is_owner(account, owner) ==> r is Ok,
        !is_owner(account, owner) ==> r is Err && r->Err_0@ == not_found(detail@),
{
    if owns(account, owner) {
        Ok(())
    } else {
        Err(AppError::NotFound(String::from_str(detail)))
    }
}

/// An administrator meets every role requirement.
pub proof fn lemma_admin_satisfies_any(required: UserRole)
    ensures
        role_satisfies(UserRole::Admin, required),
{
}

/// Short of an administrator, a role meets a requirement only if it is the
/// required role.
pub proof fn lemma_role_must_match(actual: UserRole, required: UserRole)
    requires
        actual != UserRole::Admin,
    ensures
        role_satisfies(actual, required) <==> actual == required,
{
}

} // verus!
