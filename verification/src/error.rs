//! The failures of the requests.

use vstd::prelude::*;

verus! {

/// Why the admin controller refused.
#[derive(Debug, PartialEq)]
pub enum AdminError {
    /// The store could not give or take the admin record.
    Std(cosmwasm_std::StdError),
    /// The caller is not the admin.
    NotAdmin {},
}

/// Why the hook controller refused.
#[derive(Debug, PartialEq)]
pub enum HookError {
    /// The store could not give or take the hook list.
    Std(cosmwasm_std::StdError),
    /// The admin controller refused the caller.
    Admin(AdminError),
    /// The address is on the list already.
    HookAlreadyRegistered {},
    /// The address is not on the list.
    HookNotRegistered {},
}

/// Why a request failed.
#[derive(Debug, PartialEq)]
pub enum ContractError {
    /// The store's failure: it holds no admin record where the admin is asked
    /// for.
    Std(cosmwasm_std::StdError),
    /// The caller is not the counter's owner where the owner is asked for, or
    /// not the admin where the admin is asked for.
    Unauthorized {},
    /// The admin controller failed: the store holds no admin record.
    Admin(AdminError),
    /// The hook controller refused the address, or failed for want of an
    /// admin record.
    Hook(HookError),
    /// The caller is on the hook list, which bars it from opening games.
    Blacklist {},
    /// The record that the request needs is not there.
    NotFound {},
    /// The pair has a game already.
    AlreadyExists {},
    /// The caller is not the opponent of the game it answers.
    Forbidden {},
    /// An address that the chain refused, or that is too long to be part of a key.
    InvalidInput {},
    /// The counter cannot go further in this direction.
    Overflow {},
}

} // verus!
