use vstd::prelude::*;
use crate::dto::{role_name, AccountRole};
use crate::error::{AppError, BadRequestReason};
use crate::model::AccountModel;

verus! {

/// A new account for `npm` with `role` at `now`, unless the identifier is
/// already registered. Its id is left at zero for the store to assign.
pub fn new_account(npm: String, role: AccountRole, npm_taken: bool, now: i64) -> (r: Result<
    AccountModel,
    AppError,
>)
    ensures
        npm_taken ==> r == Err::<AccountModel, AppError>(
            AppError::BadRequest(BadRequestReason::NpmAlreadyRegistered),
        ),
        !npm_taken ==> r is Ok && r->Ok_0.id == 0 && r->Ok_0.npm == npm && r->Ok_0.role@
            == role_name(role) && r->Ok_0.created_at == now && r->Ok_0.updated_at == now,
{
    if npm_taken {
        return Err(AppError::BadRequest(BadRequestReason::NpmAlreadyRegistered));
    }
    Ok(AccountModel { id: 0, npm, role: role.as_str().to_owned(), created_at: now, updated_at: now })
}

/// An account lookup: found, or the account error.
pub fn account_found(found: Option<AccountModel>) -> (r: Result<AccountModel, AppError>)
    ensures
        match found {
            Some(a) => r == Ok::<AccountModel, AppError>(a),
            None => r == Err::<AccountModel, AppError>(
                AppError::BadRequest(BadRequestReason::AccountNotFound),
            ),
        },
{
    match found {
        Some(a) => Ok(a),
        None => Err(AppError::BadRequest(BadRequestReason::AccountNotFound)),
    }
}

/// Gives the account a new role at `now`.
pub fn set_account_role(account: &mut AccountModel, role: AccountRole, now: i64)
    ensures
        final(account).id == old(account).id,
        final(account).npm == old(account).npm,
        final(account).role@ == role_name(role),
        final(account).created_at == old(account).created_at,
        final(account).updated_at == now,
{
    account.role = role.as_str().to_owned();
    account.updated_at = now;
}

/// Outcome of a delete by id: `missing` when no row was removed.
pub fn deletion_outcome(rows_affected: u64, missing: AppError) -> (r: Result<(), AppError>)
    ensures
        rows_affected == 0 ==> r == Err::<(), AppError>(missing),
        rows_affected != 0 ==> r == Ok::<(), AppError>(()),
{
    if rows_affected == 0 {
        Err(missing)
    } else {
        Ok(())
    }
}

} // verus!
