//! Financial accounts. An account is owned by a user, or is the system
//! funding account (owner id nil) used to seed balances.

use vstd::prelude::*;

verus! {

/// A financial account owned by a user (or the system funding account).
#[derive(Debug, Clone, Copy, PartialEq, Eq, Structural)]
pub struct Account {
    /// Account primary key (128-bit UUID value).
    pub id: u128,
    /// Owning user id, or the nil UUID (0) for the system funding account.
    pub user_id: u128,
    /// When true, this is the system funding account.
    pub is_system: bool,
}

impl Account {
    /// Creates a regular user account.
    pub fn user_account(id: u128, user_id: u128) -> (r: Account)
        ensures
            r == (Account { id, user_id, is_system: false }),
    {
        Account { id, user_id, is_system: false }
    }

    /// Creates the system funding account, owned by the nil user id.
    pub fn system_funding(id: u128) -> (r: Account)
        ensures
            r == (Account { id, user_id: 0, is_system: true }),
    {
        Account { id, user_id: 0, is_system: true }
    }
}

} // verus!
