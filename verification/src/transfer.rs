//! Transfer record shape and lifecycle status.

use vstd::prelude::*;

verus! {

/// Transfer lifecycle status persisted with the transfer row.
#[derive(Debug, Clone, Copy, PartialEq, Eq, Structural)]
pub enum TransferStatus {
    /// Transfer committed with balanced ledger entries and updated balances.
    Completed,
    /// Transfer explicitly declined; not a successful movement.
    Declined,
}

/// A money transfer between two accounts.
#[derive(Debug, Clone, PartialEq, Eq)]
pub struct Transfer {
    /// Stable transfer identifier.
    pub id: u128,
    /// Debited account.
    pub sender_account_id: u128,
    /// Credited account.
    pub recipient_account_id: u128,
    /// Positive amount in minor units.
    pub amount_minor: i64,
    /// ISO currency code.
    pub currency_code: String,
    /// Optional free-text description supplied by the client.
    pub description: Option<String>,
    /// Lifecycle status.
    pub status: TransferStatus,
}

} // verus!
