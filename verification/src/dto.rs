//! Request and response shapes at the HTTP boundary, and their mapping from
//! the records the use cases return.
//!
//! Amounts travel as decimal text of integer minor units (`"1500"` for
//! 15.00 USD); transfer statuses as the stable words `"COMPLETED"` and
//! `"DECLINED"`.

use vstd::prelude::*;
use crate::decimal::{i64_text, int_text};
use crate::records::{
    clone_opt, opt_view, BalanceRecord, FeedItem, LedgerEntryRecord, Page, TransferRecord,
    UserRecord,
};
use crate::text::owned;
use crate::timestamp::Timestamp;
use crate::transfer::TransferStatus;

verus! {

/// Login credentials submitted by the client. The password is never
/// logged, traced or written to audit metadata.
#[derive(Debug, Clone)]
pub struct LoginRequest {
    /// Account username.
    pub username: String,
    /// Plaintext password, for verification only.
    pub password: String,
}

/// Successful login payload: a bearer token and the identity it carries.
#[derive(Debug, Clone)]
pub struct LoginResponse {
    /// Opaque access token for later authenticated calls.
    pub access_token: String,
    /// Authenticated user id.
    pub user_id: u128,
    /// Authenticated username.
    pub username: String,
}

/// Current-user profile.
#[derive(Debug, Clone)]
pub struct MeResponse {
    /// Authenticated user id.
    pub user_id: u128,
    /// Authenticated username.
    pub username: String,
}

/// One hit of a username search (public identity only).
#[derive(Debug, Clone)]
pub struct UserSearchItem {
    /// Matched user id.
    pub user_id: u128,
    /// Matched username.
    pub username: String,
}

/// Balance of the authenticated user's account.
#[derive(Debug, Clone)]
pub struct BalanceResponse {
    /// Available balance as decimal text of minor units.
    pub balance_minor: String,
    /// Currency code.
    pub currency: String,
}

/// One ledger history line of the authenticated user's account.
#[derive(Debug, Clone)]
pub struct LedgerItemResponse {
    /// Ledger entry id.
    pub entry_id: u128,
    /// Related transfer id.
    pub transfer_id: u128,
    /// Absolute amount as decimal text of minor units.
    pub amount_minor: String,
    /// `"debit"` or `"credit"`.
    pub direction: String,
    /// Currency code.
    pub currency: String,
    /// Entry time.
    pub created_at: Timestamp,
}

/// Client payload for a peer-to-peer transfer. The sender comes from
/// authentication, the idempotency key from a header.
#[derive(Debug, Clone)]
pub struct TransferRequest {
    /// Recipient username.
    pub recipient_username: String,
    /// Amount as decimal text of minor units.
    pub amount_minor: String,
    /// Currency code.
    pub currency: String,
    /// Optional memo.
    pub description: Option<String>,
}

/// Transfer outcome returned after an execution or a replay.
#[derive(Debug, Clone)]
pub struct TransferResponse {
    /// Created (or replayed) transfer id.
    pub transfer_id: u128,
    /// `"COMPLETED"` or `"DECLINED"`.
    pub status: String,
    /// Sender balance in minor units after the transfer.
    pub sender_balance_minor: String,
    /// Currency of the transfer and balance.
    pub currency: String,
    /// Transfer creation time.
    pub created_at: Timestamp,
}

/// Public feed item as sent over HTTP and event streams.
#[derive(Debug, Clone)]
pub struct FeedItemResponse {
    /// Completed transfer id.
    pub transfer_id: u128,
    /// Sender username.
    pub sender_username: String,
    /// Recipient username.
    pub recipient_username: String,
    /// Amount as decimal text of minor units.
    pub amount_minor: String,
    /// Currency code.
    pub currency: String,
    /// Optional description.
    pub description: Option<String>,
    /// Transfer creation time.
    pub created_at: Timestamp,
}

/// Cursor-paginated envelope for list endpoints.
#[derive(Debug, Clone)]
pub struct PageResponse<T> {
    /// Page items.
    pub items: Vec<T>,
    /// Opaque next-page cursor, or `None` at the end.
    pub next_cursor: Option<String>,
}

/// Query parameters of a ledger history page.
#[derive(Debug, Clone)]
pub struct LedgerQuery {
    /// Cursor from a previous page's `next_cursor`.
    pub cursor: Option<String>,
}

/// Query parameters of a feed page.
#[derive(Debug, Clone)]
pub struct FeedQuery {
    /// Cursor from a previous page's `next_cursor`.
    pub cursor: Option<String>,
}

/// Query parameters of a user search.
#[derive(Debug, Clone)]
pub struct UserSearchQuery {
    /// Username prefix to search for.
    pub query: String,
    /// Cursor from a previous page's `next_cursor`.
    pub cursor: Option<String>,
}

/// Stable wire word of a transfer status.
pub open spec fn status_word(s: TransferStatus) -> Seq<char> {
    match s {
        TransferStatus::Completed => "COMPLETED"@,
        TransferStatus::Declined => "DECLINED"@,
    }
}

/// A transfer's wire status is `"COMPLETED"` for a completed transfer and
/// `"DECLINED"` for a declined one, and the two words differ, so a client
/// can always tell the outcomes apart.
pub proof fn law_status_words(a: TransferStatus, b: TransferStatus)
    ensures
        a == TransferStatus::Completed ==> status_word(a) == "COMPLETED"@,
        a == TransferStatus::Declined ==> status_word(a) == "DECLINED"@,
        status_word(a) == status_word(b) ==> a == b,
{
    reveal_strlit("COMPLETED");
    reveal_strlit("DECLINED");
    assert("COMPLETED"@.len() != "DECLINED"@.len());
}

/// `r` is the search hit of user `u`.
pub open spec fn user_item_of(u: UserRecord, r: UserSearchItem) -> bool {
    r.user_id == u.id && r.username@ == u.username@
}

/// `r` is the HTTP form of ledger entry `e`.
pub open spec fn ledger_item_of(e: LedgerEntryRecord, r: LedgerItemResponse) -> bool {
    &&& r.entry_id == e.id
    &&& r.transfer_id == e.transfer_id
    &&& r.amount_minor@ == int_text(e.amount_minor as int)
    &&& r.direction@ == e.direction@
    &&& r.currency@ == e.currency_code@
    &&& r.created_at == e.created_at
}

/// `r` is the HTTP form of feed item `i`.
pub open spec fn feed_item_of(i: FeedItem, r: FeedItemResponse) -> bool {
    &&& r.transfer_id == i.transfer_id
    &&& r.sender_username@ == i.sender_username@
    &&& r.recipient_username@ == i.recipient_username@
    &&& r.amount_minor@ == i.amount_minor@
    &&& r.currency@ == i.currency@
    &&& opt_view(r.description) == opt_view(i.description)
    &&& r.created_at == i.created_at
}

impl UserSearchItem {
    /// Public identity of a stored user (the password hash is dropped).
    pub fn from_record(u: &UserRecord) -> (r: UserSearchItem)
        ensures
            user_item_of(*u, r),
    {
        UserSearchItem { user_id: u.id, username: u.username.clone() }
    }
}

impl BalanceResponse {
    /// HTTP form of a balance: the amount as decimal text.
    pub fn from_record(r: BalanceRecord) -> (out: BalanceResponse)
        ensures
            out.balance_minor@ == int_text(r.balance_minor as int),
            out.currency@ == r.currency_code@,
    {
        BalanceResponse { balance_minor: i64_text(r.balance_minor), currency: r.currency_code }
    }
}

impl LedgerItemResponse {
    /// HTTP form of a ledger entry: the amount as decimal text.
    pub fn from_record(e: &LedgerEntryRecord) -> (r: LedgerItemResponse)
        ensures
            ledger_item_of(*e, r),
    {
        LedgerItemResponse {
            entry_id: e.id,
            transfer_id: e.transfer_id,
            amount_minor: i64_text(e.amount_minor),
            direction: e.direction.clone(),
            currency: e.currency_code.clone(),
            created_at: e.created_at,
        }
    }
}

impl TransferResponse {
    /// HTTP form of a transfer record. The record carries no balance, so
    /// the sender balance reads `"0"` until the caller fills it in.
    pub fn from_record(r: TransferRecord) -> (out: TransferResponse)
        ensures
            out.transfer_id == r.id,
            out.status@ == status_word(r.status),
            r.status == TransferStatus::Completed ==> out.status@ == "COMPLETED"@,
            r.status == TransferStatus::Declined ==> out.status@ == "DECLINED"@,
            out.sender_balance_minor@ == "0"@,
            out.currency@ == r.currency_code@,
            out.created_at == r.created_at,
    {
        let status = match r.status {
            TransferStatus::Completed => owned("COMPLETED"),
            TransferStatus::Declined => owned("DECLINED"),
        };
        TransferResponse {
            transfer_id: r.id,
            status,
            sender_balance_minor: owned("0"),
            currency: r.currency_code,
            created_at: r.created_at,
        }
    }

    /// HTTP form of a transfer record with the sender's current balance.
    pub fn with_sender_balance(r: TransferRecord, sender_balance_minor: i64) -> (out:
        TransferResponse)
        ensures
            out.transfer_id == r.id,
            out.status@ == status_word(r.status),
            r.status == TransferStatus::Completed ==> out.status@ == "COMPLETED"@,
            r.status == TransferStatus::Declined ==> out.status@ == "DECLINED"@,
            out.sender_balance_minor@ == int_text(sender_balance_minor as int),
            out.currency@ == r.currency_code@,
            out.created_at == r.created_at,
    {
        let mut out = TransferResponse::from_record(r);
        out.sender_balance_minor = i64_text(sender_balance_minor);
        out
    }
}

impl FeedItemResponse {
    /// HTTP form of a feed item.
    pub fn from_item(i: &FeedItem) -> (r: FeedItemResponse)
        ensures
            feed_item_of(*i, r),
    {
        FeedItemResponse {
            transfer_id: i.transfer_id,
            sender_username: i.sender_username.clone(),
            recipient_username: i.recipient_username.clone(),
            amount_minor: i.amount_minor.clone(),
            currency: i.currency.clone(),
            description: clone_opt(&i.description),
            created_at: i.created_at,
        }
    }
}

/// The HTTP page of a user search: every hit mapped in order, the cursor
/// kept.
pub fn user_search_page(page: &Page<UserRecord>) -> (r: PageResponse<UserSearchItem>)
    ensures
        r.items@.len() == page.items@.len(),
        forall|k: int| 0 <= k < r.items@.len() ==> user_item_of(page.items@[k], #[trigger] r.items@[k]),
        opt_view(r.next_cursor) == opt_view(page.next_cursor),
{
    let mut items: Vec<UserSearchItem> = Vec::new();
    let mut i: usize = 0;
    while i < page.items.len()
        invariant
            i <= page.items@.len(),
            items@.len() == i,
            forall|k: int| 0 <= k < i ==> user_item_of(page.items@[k], #[trigger] items@[k]),
        decreases page.items@.len() - i,
    {
        items.push(UserSearchItem::from_record(&page.items[i]));
        i += 1;
    }
    PageResponse { items, next_cursor: clone_opt(&page.next_cursor) }
}

/// The HTTP page of a ledger listing: every entry mapped in order, the
/// cursor kept.
pub fn ledger_page(page: &Page<LedgerEntryRecord>) -> (r: PageResponse<LedgerItemResponse>)
    ensures
        r.items@.len() == page.items@.len(),
        forall|k: int|
            0 <= k < r.items@.len() ==> ledger_item_of(page.items@[k], #[trigger] r.items@[k]),
        opt_view(r.next_cursor) == opt_view(page.next_cursor),
{
    let mut items: Vec<LedgerItemResponse> = Vec::new();
    let mut i: usize = 0;
    while i < page.items.len()
        invariant
            i <= page.items@.len(),
            items@.len() == i,
            forall|k: int| 0 <= k < i ==> ledger_item_of(page.items@[k], #[trigger] items@[k]),
        decreases page.items@.len() - i,
    {
        items.push(LedgerItemResponse::from_record(&page.items[i]));
        i += 1;
    }
    PageResponse { items, next_cursor: clone_opt(&page.next_cursor) }
}

/// The HTTP page of a feed listing: every item mapped in order, the cursor
/// kept.
pub fn feed_page(page: &Page<FeedItem>) -> (r: PageResponse<FeedItemResponse>)
    ensures
        r.items@.len() == page.items@.len(),
        forall|k: int| 0 <= k < r.items@.len() ==> feed_item_of(page.items@[k], #[trigger] r.items@[k]),
        opt_view(r.next_cursor) == opt_view(page.next_cursor),
{
    let mut items: Vec<FeedItemResponse> = Vec::new();
    let mut i: usize = 0;
    while i < page.items.len()
        invariant
            i <= page.items@.len(),
            items@.len() == i,
            forall|k: int| 0 <= k < i ==> feed_item_of(page.items@[k], #[trigger] items@[k]),
        decreases page.items@.len() - i,
    {
        items.push(FeedItemResponse::from_item(&page.items[i]));
        i += 1;
    }
    PageResponse { items, next_cursor: clone_opt(&page.next_cursor) }
}

} // verus!
