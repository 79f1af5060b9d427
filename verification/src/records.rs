//! Records exchanged between the use cases and the storage adapters. Ids
//! are 128-bit UUID values; amounts are integer minor units.

use vstd::prelude::*;
use crate::timestamp::Timestamp;
use crate::transfer::TransferStatus;

verus! {

/// User projection loaded from storage (with the password hash, for
/// credential checks only).
#[derive(Debug, Clone)]
pub struct UserRecord {
    /// Stable user identifier.
    pub id: u128,
    /// Unique public username.
    pub username: String,
    /// Stored password hash. Never logged or returned to clients.
    pub password_hash: String,
}

/// Account balance projection.
#[derive(Debug, Clone)]
pub struct BalanceRecord {
    /// Account that owns this balance row.
    pub account_id: u128,
    /// Available balance in minor units.
    pub balance_minor: i64,
    /// Currency code of the account (e.g. `"USD"`).
    pub currency_code: String,
}

/// Persisted transfer result, also stored for idempotent replay.
#[derive(Debug, Clone)]
pub struct TransferRecord {
    /// Transfer identifier.
    pub id: u128,
    /// Debited account id.
    pub sender_account_id: u128,
    /// Credited account id.
    pub recipient_account_id: u128,
    /// Sending user id.
    pub sender_user_id: u128,
    /// Receiving user id.
    pub recipient_user_id: u128,
    /// Sender username at transfer time.
    pub sender_username: String,
    /// Recipient username at transfer time.
    pub recipient_username: String,
    /// Transferred amount in minor units.
    pub amount_minor: i64,
    /// Currency code of the movement.
    pub currency_code: String,
    /// Optional memo.
    pub description: Option<String>,
    /// Domain status.
    pub status: TransferStatus,
    /// Creation time.
    pub created_at: Timestamp,
}

/// Stored idempotency outcome for a `(sender, key)` pair.
#[derive(Debug, Clone)]
pub struct IdempotencyRecord {
    /// Hex fingerprint of the protected request payload.
    pub fingerprint: String,
    /// Serialized prior response body.
    pub response_body: String,
    /// Status code stored with the response.
    pub status_code: u16,
}

/// One ledger line projected for history.
#[derive(Debug, Clone)]
pub struct LedgerEntryRecord {
    /// Ledger entry id.
    pub id: u128,
    /// Account this line belongs to.
    pub account_id: u128,
    /// Related transfer id.
    pub transfer_id: u128,
    /// Absolute amount in minor units.
    pub amount_minor: i64,
    /// `"debit"` or `"credit"`.
    pub direction: String,
    /// Currency of the entry.
    pub currency_code: String,
    /// When the entry was recorded.
    pub created_at: Timestamp,
}

/// Public feed item describing a completed transfer.
#[derive(Debug, Clone)]
pub struct FeedItem {
    /// Completed transfer id.
    pub transfer_id: u128,
    /// Sender's public username.
    pub sender_username: String,
    /// Recipient's public username.
    pub recipient_username: String,
    /// Amount as a string of integer minor units.
    pub amount_minor: String,
    /// Currency code.
    pub currency: String,
    /// Optional description.
    pub description: Option<String>,
    /// Transfer creation time.
    pub created_at: Timestamp,
}

/// Cursor-paginated page of `T`.
#[derive(Debug, Clone)]
pub struct Page<T> {
    /// Page contents in repository-defined order.
    pub items: Vec<T>,
    /// Opaque cursor for the next page, or `None` when exhausted.
    pub next_cursor: Option<String>,
}

/// Text of an optional string.
pub open spec fn opt_view(o: Option<String>) -> Option<Seq<char>> {
    match o {
        Some(s) => Some(s@),
        None => None,
    }
}

/// Clones an optional string.
pub fn clone_opt(o: &Option<String>) -> (r: Option<String>)
    ensures
        opt_view(r) == opt_view(*o),
{
    match o {
        Some(s) => Some(s.clone()),
        None => None,
    }
}

} // verus!
