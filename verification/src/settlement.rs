//! Decisions of the transactional transfer executor.
//!
//! The storage adapter reads rows, takes locks and writes inside one
//! database transaction; every decision in between is made here: request
//! validation, party and account resolution, the idempotency check, the
//! lock order, and the settlement that turns locked balances into the
//! transfer row, its two ledger entries, the new balances and the audit
//! drafts. A refused settlement writes nothing.

use vstd::prelude::*;
use crate::audit::{metadata_view, AuditEventDraft, AuditEventType};
use crate::currency::{currency_code, currency_of_upper, Currency};
use crate::decimal::{i64_text, int_text};
use crate::errors::{invalid_money, invalid_money_error, unsupported_currency, validation, validation_error, DomainError};
use crate::idempotency::{hash_idempotency_key, key_hash_of};
use crate::ids::{uuid_text, uuid_text_of};
use crate::ledger::{account_sum, build_transfer_entries, transfer_pair, LedgerEntryDraft};
use crate::money::Money;
use crate::records::{clone_opt, opt_view, IdempotencyRecord, TransferRecord};
use crate::text::{owned, uppercase_of};
use crate::timestamp::Timestamp;
use crate::transfer::TransferStatus;

verus! {

/// Retries of one transfer after a serialization failure or deadlock.
pub const MAX_SERIALIZATION_RETRIES: u32 = 5;

/// Base delay before a retry, in milliseconds.
pub const BASE_RETRY_DELAY_MS: u64 = 25;

/// Largest delay before a retry (without jitter), in milliseconds.
pub const MAX_RETRY_DELAY_MS: u64 = 250;

/// A user row as the executor reads it.
#[derive(Debug, Clone)]
pub struct UserRow {
    /// User id.
    pub id: u128,
    /// Username.
    pub username: String,
}

/// A balance row as the executor reads it, under its row lock.
#[derive(Debug, Clone)]
pub struct BalanceRow {
    /// Balance in minor units.
    pub balance_minor: i64,
    /// Currency code of the account.
    pub currency_code: String,
}

/// Everything known about one transfer attempt once both parties and both
/// accounts are resolved.
#[derive(Debug, Clone)]
pub struct TransferContext {
    /// Identifier chosen for the new transfer.
    pub transfer_id: u128,
    /// Sending user.
    pub sender_user_id: u128,
    /// Sending user's name.
    pub sender_username: String,
    /// Receiving user.
    pub recipient_user_id: u128,
    /// Receiving user's name.
    pub recipient_username: String,
    /// Debited account.
    pub sender_account_id: u128,
    /// Credited account.
    pub recipient_account_id: u128,
    /// Optional memo.
    pub description: Option<String>,
    /// Request correlation id.
    pub request_id: String,
    /// Trace id.
    pub trace_id: String,
}

/// What the executor writes for an accepted transfer.
#[derive(Debug, Clone)]
pub struct Settlement {
    /// The transfer row (status `Completed`), also the reply and the stored
    /// idempotent response.
    pub record: TransferRecord,
    /// Debit of the sender and credit of the recipient.
    pub entries: [LedgerEntryDraft; 2],
    /// Sender balance after the transfer.
    pub new_sender_balance: i64,
    /// Recipient balance after the transfer.
    pub new_recipient_balance: i64,
    /// The `TransferCompleted` audit draft.
    pub completed_audit: AuditEventDraft,
}

/// Why a settlement was refused, and the audit draft to append, if any.
/// The draft is written outside the transaction that is rolled back, so
/// that the declined attempt stays on record.
#[derive(Debug, Clone)]
pub struct Refusal {
    /// The error returned to the caller.
    pub error: DomainError,
    /// `TransferDeclined` draft, present exactly for insufficient funds.
    pub audit: Option<AuditEventDraft>,
}

/// What the idempotency check inside the transaction decided.
#[derive(Debug, Clone, Copy, PartialEq, Eq, Structural)]
pub enum StoredOutcome {
    /// No stored response: execute the transfer.
    Proceed,
    /// Same key with another payload: refuse with `IdempotencyConflict`.
    Conflict,
    /// Same key and payload: reply with the stored response.
    Replay,
}

/// The balances after moving `amount` from a sender holding `sender` to a
/// recipient holding `recipient`, when the move is allowed and fits.
pub open spec fn settled_balances(sender: int, recipient: int, amount: int) -> Option<(int, int)> {
    if sender < amount || recipient + amount > i64::MAX {
        None
    } else {
        Some((sender - amount, recipient + amount))
    }
}

/// Metadata of the `TransferRequested` audit event, in key order.
pub open spec fn requested_metadata(
    key: Seq<char>,
    fingerprint: Seq<char>,
    recipient_username: Seq<char>,
    amount: int,
    currency: Seq<char>,
    transfer_id: u128,
) -> Seq<(Seq<char>, Seq<char>)> {
    seq![
        ("amount_minor"@, int_text(amount)),
        ("currency_code"@, currency),
        ("fingerprint"@, fingerprint),
        ("idempotency_key"@, key_hash_of(key)),
        ("recipient_username"@, recipient_username),
        ("transfer_id"@, uuid_text_of(transfer_id)),
    ]
}

/// The common fields of an executor audit draft.
pub open spec fn executor_audit(
    a: AuditEventDraft,
    t: AuditEventType,
    ctx: TransferContext,
    transfer_id: Option<u128>,
    now: Timestamp,
) -> bool {
    &&& a.event_type == t
    &&& a.actor_user_id == Some(ctx.sender_user_id)
    &&& a.transfer_id == transfer_id
    &&& a.request_id@ == ctx.request_id@
    &&& a.trace_id@ == ctx.trace_id@
    &&& a.occurred_at == now
}

/// The `TransferDeclined` draft for insufficient funds.
pub open spec fn is_declined_audit(a: AuditEventDraft, ctx: TransferContext, now: Timestamp) -> bool {
    &&& executor_audit(a, AuditEventType::TransferDeclined, ctx, None, now)
    &&& metadata_view(a.metadata@) == seq![
        ("reason"@, "insufficient_funds"@),
        ("transfer_id"@, uuid_text_of(ctx.transfer_id)),
    ]
}

/// The completed transfer row of a settlement.
pub open spec fn is_completed_record(
    rec: TransferRecord,
    ctx: TransferContext,
    money: Money,
    now: Timestamp,
) -> bool {
    &&& rec.id == ctx.transfer_id
    &&& rec.sender_account_id == ctx.sender_account_id
    &&& rec.recipient_account_id == ctx.recipient_account_id
    &&& rec.sender_user_id == ctx.sender_user_id
    &&& rec.recipient_user_id == ctx.recipient_user_id
    &&& rec.sender_username@ == ctx.sender_username@
    &&& rec.recipient_username@ == ctx.recipient_username@
    &&& rec.amount_minor == money.amount()
    &&& rec.currency_code@ == currency_code(money.cur())
    &&& opt_view(rec.description) == opt_view(ctx.description)
    &&& rec.status == TransferStatus::Completed
    &&& rec.created_at == now
}

/// Validates the currency code and amount of a transfer request: the code
/// must name a supported currency (case-insensitively) and the amount must
/// be positive.
pub fn validate_transfer_request(currency_code_text: &str, amount_minor: i64) -> (r: Result<
    Money,
    DomainError,
>)
    ensures
        match currency_of_upper(uppercase_of(currency_code_text@)) {
            None => r matches Err(e) && unsupported_currency(e, uppercase_of(currency_code_text@)),
            Some(c) => if amount_minor > 0 {
                r matches Ok(m) && m.amount() == amount_minor && m.cur() == c
            } else {
                r matches Err(e) && invalid_money(e, "transfer amount must be positive"@)
            },
        },
{
    let currency = Currency::parse(currency_code_text)?;
    Money::transfer_amount(amount_minor, currency)
}

/// Resolves the two parties: the sender must exist, the recipient must
/// exist, and the recipient must not be the sender.
pub fn resolve_parties(
    sender_user_id: u128,
    sender: Option<UserRow>,
    recipient: Option<UserRow>,
) -> (r: Result<(UserRow, UserRow), DomainError>)
    ensures
        match (sender, recipient) {
            (None, _) => r == Err::<(UserRow, UserRow), DomainError>(DomainError::UserNotFound),
            (Some(_), None) => r == Err::<(UserRow, UserRow), DomainError>(
                DomainError::RecipientNotFound,
            ),
            (Some(s), Some(rc)) => if rc.id == sender_user_id {
                r == Err::<(UserRow, UserRow), DomainError>(DomainError::SelfTransfer)
            } else {
                r == Ok::<(UserRow, UserRow), DomainError>((s, rc))
            },
        },
{
    let s = match sender {
        Some(s) => s,
        None => return Err(DomainError::UserNotFound),
    };
    let rc = match recipient {
        Some(rc) => rc,
        None => return Err(DomainError::RecipientNotFound),
    };
    if sender_user_id == rc.id {
        return Err(DomainError::SelfTransfer);
    }
    Ok((s, rc))
}

/// Resolves the two accounts: both must exist and must differ.
pub fn resolve_accounts(sender_account: Option<u128>, recipient_account: Option<u128>) -> (r:
    Result<(u128, u128), DomainError>)
    ensures
        match (sender_account, recipient_account) {
            (Some(a), Some(b)) => if a == b {
                r == Err::<(u128, u128), DomainError>(DomainError::SelfTransfer)
            } else {
                r == Ok::<(u128, u128), DomainError>((a, b))
            },
            _ => r == Err::<(u128, u128), DomainError>(DomainError::AccountNotFound),
        },
{
    let a = match sender_account {
        Some(a) => a,
        None => return Err(DomainError::AccountNotFound),
    };
    let b = match recipient_account {
        Some(b) => b,
        None => return Err(DomainError::AccountNotFound),
    };
    if a == b {
        return Err(DomainError::SelfTransfer);
    }
    Ok((a, b))
}

/// The decision on a stored fingerprint (if any) for a request fingerprint.
pub open spec fn stored_decision(stored: Option<Seq<char>>, fingerprint: Seq<char>) -> StoredOutcome {
    match stored {
        None => StoredOutcome::Proceed,
        Some(f) => if f == fingerprint {
            StoredOutcome::Replay
        } else {
            StoredOutcome::Conflict
        },
    }
}

/// Once a transfer has committed and stored its response under the
/// request's fingerprint, the same request (same sender, key and payload)
/// is replayed: nothing is settled, written or audited again, and the
/// stored record is what is returned (`replay_result` hands back the
/// record read from the stored body unchanged). A request reusing the key
/// with another payload is a conflict.
pub proof fn law_committed_request_replays(fingerprint: Seq<char>, other: Seq<char>)
    requires
        other != fingerprint,
    ensures
        stored_decision(Some(fingerprint), fingerprint) == StoredOutcome::Replay,
        stored_decision(Some(fingerprint), other) == StoredOutcome::Conflict,
        stored_decision(None, fingerprint) == StoredOutcome::Proceed,
{
}

/// Decides on a stored idempotency record for the same sender and key:
/// none stored means proceed, the same fingerprint means replay, any other
/// fingerprint is a conflict.
pub fn check_stored(existing: &Option<IdempotencyRecord>, fingerprint: &str) -> (r: StoredOutcome)
    ensures
        r == stored_decision(
            match existing {
                Some(rec) => Some(rec.fingerprint@),
                None => None,
            },
            fingerprint@,
        ),
        match existing {
            None => r == StoredOutcome::Proceed,
            Some(rec) => if rec.fingerprint@ == fingerprint@ {
                r == StoredOutcome::Replay
            } else {
                r == StoredOutcome::Conflict
            },
        },
{
    match existing {
        None => StoredOutcome::Proceed,
        Some(rec) => {
            let fp = owned(fingerprint);
            if rec.fingerprint == fp {
                StoredOutcome::Replay
            } else {
                StoredOutcome::Conflict
            }
        },
    }
}

/// The reply of a replay: the stored record when its body could be read
/// back, otherwise a `Validation` error.
pub fn replay_result(parsed: Option<TransferRecord>) -> (r: Result<TransferRecord, DomainError>)
    ensures
        match parsed {
            Some(rec) => r == Ok::<TransferRecord, DomainError>(rec),
            None => r matches Err(e) && validation(e, "stored response corrupt"@),
        },
{
    match parsed {
        Some(rec) => Ok(rec),
        None => Err(validation_error("stored response corrupt")),
    }
}

fn entry(key: &str, value: String) -> (r: (String, String))
    ensures
        r.0@ == key@,
        r.1@ == value@,
{
    (owned(key), value)
}

/// Metadata of a requested transfer, in key order (without the transfer
/// id). The idempotency key is recorded only as its log-safe hash, never
/// as given.
pub fn transfer_metadata(
    idempotency_key: &str,
    fingerprint: &str,
    recipient_username: &str,
    amount_minor: i64,
    currency: &str,
) -> (r: Vec<(String, String)>)
    ensures
        metadata_view(r@) == seq![
            ("amount_minor"@, int_text(amount_minor as int)),
            ("currency_code"@, currency@),
            ("fingerprint"@, fingerprint@),
            ("idempotency_key"@, key_hash_of(idempotency_key@)),
            ("recipient_username"@, recipient_username@),
        ],
{
    let mut v: Vec<(String, String)> = Vec::new();
    v.push(entry("amount_minor", i64_text(amount_minor)));
    v.push(entry("currency_code", owned(currency)));
    v.push(entry("fingerprint", owned(fingerprint)));
    v.push(entry("idempotency_key", hash_idempotency_key(idempotency_key)));
    v.push(entry("recipient_username", owned(recipient_username)));
    assert(metadata_view(v@) =~= seq![
        ("amount_minor"@, int_text(amount_minor as int)),
        ("currency_code"@, currency@),
        ("fingerprint"@, fingerprint@),
        ("idempotency_key"@, key_hash_of(idempotency_key@)),
        ("recipient_username"@, recipient_username@),
    ]);
    v
}

/// The `TransferRequested` audit draft appended before the balances are
/// locked.
pub fn requested_audit(
    ctx: &TransferContext,
    money: &Money,
    idempotency_key: &str,
    fingerprint: &str,
    now: Timestamp,
) -> (r: AuditEventDraft)
    ensures
        executor_audit(r, AuditEventType::TransferRequested, *ctx, None, now),
        metadata_view(r.metadata@) == requested_metadata(
            idempotency_key@,
            fingerprint@,
            ctx.recipient_username@,
            money.amount(),
            currency_code(money.cur()),
            ctx.transfer_id,
        ),
{
    let code = money.currency().code();
    let mut metadata = transfer_metadata(
        idempotency_key,
        fingerprint,
        ctx.recipient_username.as_str(),
        money.amount_minor(),
        code,
    );
    let ghost before = metadata@;
    metadata.push(entry("transfer_id", uuid_text(ctx.transfer_id)));
    assert(metadata_view(metadata@) =~= metadata_view(before).push(
        ("transfer_id"@, uuid_text_of(ctx.transfer_id)),
    ));
    AuditEventDraft {
        event_type: AuditEventType::TransferRequested,
        actor_user_id: Some(ctx.sender_user_id),
        transfer_id: None,
        request_id: ctx.request_id.clone(),
        trace_id: ctx.trace_id.clone(),
        metadata,
        occurred_at: now,
    }
}

/// Two account ids in ascending order.
pub open spec fn ascending_pair(a: u128, b: u128) -> (u128, u128) {
    if a < b {
        (a, b)
    } else {
        (b, a)
    }
}

/// The two balance rows in the order they are locked: ascending id, so
/// that concurrent transfers never wait on each other in a cycle.
pub fn lock_order(first_account_id: u128, second_account_id: u128) -> (r: (u128, u128))
    ensures
        r == ascending_pair(first_account_id, second_account_id),
        r.0 <= r.1,
{
    if first_account_id < second_account_id {
        (first_account_id, second_account_id)
    } else {
        (second_account_id, first_account_id)
    }
}

/// Two transfers between the same pair of accounts, in either direction,
/// lock the two balance rows in the same order.
pub proof fn law_lock_order_symmetric(a: u128, b: u128)
    ensures
        ascending_pair(a, b) == ascending_pair(b, a),
        ascending_pair(a, b).0 <= ascending_pair(a, b).1,
{
}

fn declined_audit(ctx: &TransferContext, now: Timestamp) -> (r: AuditEventDraft)
    ensures
        is_declined_audit(r, *ctx, now),
{
    let mut metadata: Vec<(String, String)> = Vec::new();
    metadata.push(entry("reason", owned("insufficient_funds")));
    metadata.push(entry("transfer_id", uuid_text(ctx.transfer_id)));
    assert(metadata_view(metadata@) =~= seq![
        ("reason"@, "insufficient_funds"@),
        ("transfer_id"@, uuid_text_of(ctx.transfer_id)),
    ]);
    AuditEventDraft {
        event_type: AuditEventType::TransferDeclined,
        actor_user_id: Some(ctx.sender_user_id),
        transfer_id: None,
        request_id: ctx.request_id.clone(),
        trace_id: ctx.trace_id.clone(),
        metadata,
        occurred_at: now,
    }
}

fn completed_audit(ctx: &TransferContext, amount_minor: i64, now: Timestamp) -> (r: AuditEventDraft)
    ensures
        executor_audit(r, AuditEventType::TransferCompleted, *ctx, Some(ctx.transfer_id), now),
        metadata_view(r.metadata@) == seq![
            ("amount_minor"@, int_text(amount_minor as int)),
            ("recipient_username"@, ctx.recipient_username@),
        ],
{
    let mut metadata: Vec<(String, String)> = Vec::new();
    metadata.push(entry("amount_minor", i64_text(amount_minor)));
    metadata.push(entry("recipient_username", ctx.recipient_username.clone()));
    assert(metadata_view(metadata@) =~= seq![
        ("amount_minor"@, int_text(amount_minor as int)),
        ("recipient_username"@, ctx.recipient_username@),
    ]);
    AuditEventDraft {
        event_type: AuditEventType::TransferCompleted,
        actor_user_id: Some(ctx.sender_user_id),
        transfer_id: Some(ctx.transfer_id),
        request_id: ctx.request_id.clone(),
        trace_id: ctx.trace_id.clone(),
        metadata,
        occurred_at: now,
    }
}

fn refuse(error: DomainError) -> (r: Refusal)
    ensures
        r.error == error,
        r.audit is None,
{
    Refusal { error, audit: None }
}

/// Settles a transfer against the locked balance rows.
///
/// Refusals, in the order they are checked: a missing sender row
/// (`AccountNotFound`), a sender row in another currency
/// (`UnsupportedCurrency` with the transfer's code), a sender balance below
/// the amount (`InsufficientFunds`, with a declined audit draft), a missing
/// recipient row, a recipient row in another currency, and a recipient
/// balance that would overflow (`InvalidMoney("overflow")`). Otherwise the
/// amount moves from sender to recipient.
pub fn settle(
    ctx: &TransferContext,
    money: &Money,
    sender_balance: Option<BalanceRow>,
    recipient_balance: Option<BalanceRow>,
    now: Timestamp,
) -> (r: Result<Settlement, Refusal>)
    ensures
        money.amount() >= 0,
        match sender_balance {
            None => r matches Err(f) && f.error == DomainError::AccountNotFound && f.audit is None,
            Some(sb) => if sb.currency_code@ != currency_code(money.cur()) {
                r matches Err(f) && unsupported_currency(f.error, currency_code(money.cur()))
                    && f.audit is None
            } else if sb.balance_minor < money.amount() {
                r matches Err(f) && f.error == DomainError::InsufficientFunds && (f.audit matches Some(
                    a,
                ) && is_declined_audit(a, *ctx, now))
            } else {
                match recipient_balance {
                    None => r matches Err(f) && f.error == DomainError::AccountNotFound
                        && f.audit is None,
                    Some(rb) => if rb.currency_code@ != currency_code(money.cur()) {
                        r matches Err(f) && unsupported_currency(
                            f.error,
                            currency_code(money.cur()),
                        ) && f.audit is None
                    } else {
                        match settled_balances(
                            sb.balance_minor as int,
                            rb.balance_minor as int,
                            money.amount(),
                        ) {
                            None => r matches Err(f) && invalid_money(f.error, "overflow"@)
                                && f.audit is None,
                            Some(nb) => r matches Ok(s) && s.new_sender_balance == nb.0
                                && s.new_recipient_balance == nb.1 && s.entries@ == transfer_pair(
                                ctx.transfer_id,
                                ctx.sender_account_id,
                                ctx.recipient_account_id,
                                money.amount() as i64,
                                money.cur(),
                            ) && is_completed_record(s.record, *ctx, *money, now)
                                && executor_audit(
                                s.completed_audit,
                                AuditEventType::TransferCompleted,
                                *ctx,
                                Some(ctx.transfer_id),
                                now,
                            ) && metadata_view(s.completed_audit.metadata@) == seq![
                                ("amount_minor"@, int_text(money.amount())),
                                ("recipient_username"@, ctx.recipient_username@),
                            ],
                        }
                    },
                }
            },
        },
{
    let amount: i64 = money.amount_minor();
    let code = money.currency().code();
    let code_owned = owned(code);
    let sb = match sender_balance {
        Some(sb) => sb,
        None => return Err(refuse(DomainError::AccountNotFound)),
    };
    if sb.currency_code != code_owned {
        return Err(refuse(DomainError::UnsupportedCurrency(code_owned)));
    }
    if sb.balance_minor < amount {
        return Err(
            Refusal { error: DomainError::InsufficientFunds, audit: Some(declined_audit(ctx, now)) },
        );
    }
    let rb = match recipient_balance {
        Some(rb) => rb,
        None => return Err(refuse(DomainError::AccountNotFound)),
    };
    if rb.currency_code != code_owned {
        return Err(refuse(DomainError::UnsupportedCurrency(code_owned)));
    }
    let entries = match build_transfer_entries(
        ctx.transfer_id,
        ctx.sender_account_id,
        ctx.recipient_account_id,
        money,
    ) {
        Ok(entries) => entries,
        Err(e) => return Err(refuse(e)),
    };
    let new_sender = match sb.balance_minor.checked_sub(amount) {
        Some(v) => v,
        None => return Err(refuse(DomainError::NegativeBalance)),
    };
    if new_sender < 0 {
        return Err(refuse(DomainError::NegativeBalance));
    }
    let new_recipient = match rb.balance_minor.checked_add(amount) {
        Some(v) => v,
        None => return Err(refuse(invalid_money_error("overflow"))),
    };
    let record = TransferRecord {
        id: ctx.transfer_id,
        sender_account_id: ctx.sender_account_id,
        recipient_account_id: ctx.recipient_account_id,
        sender_user_id: ctx.sender_user_id,
        recipient_user_id: ctx.recipient_user_id,
        sender_username: ctx.sender_username.clone(),
        recipient_username: ctx.recipient_username.clone(),
        amount_minor: amount,
        currency_code: owned(code),
        description: clone_opt(&ctx.description),
        status: TransferStatus::Completed,
        created_at: now,
    };
    Ok(
        Settlement {
            record,
            entries,
            new_sender_balance: new_sender,
            new_recipient_balance: new_recipient,
            completed_audit: completed_audit(ctx, amount, now),
        },
    )
}

/// A settlement conserves money: the two balances sum to the same total
/// before and after, the sender keeps a non-negative balance, and each
/// balance changes by exactly what the transfer's ledger entries post to
/// that account, so the projection stays reconcilable with the ledger.
pub proof fn law_settlement_conserves_money(
    sender: int,
    recipient: int,
    amount: i64,
    transfer_id: u128,
    sender_account_id: u128,
    recipient_account_id: u128,
    currency: Currency,
)
    requires
        sender_account_id != recipient_account_id,
        settled_balances(sender, recipient, amount as int) is Some,
    ensures
        ({
            let nb = settled_balances(sender, recipient, amount as int).unwrap();
            let pair = transfer_pair(
                transfer_id,
                sender_account_id,
                recipient_account_id,
                amount,
                currency,
            );
            &&& nb.0 + nb.1 == sender + recipient
            &&& (sender >= 0 && amount >= 0 ==> nb.0 >= 0)
            &&& nb.0 == sender + account_sum(sender_account_id, pair)
            &&& nb.1 == recipient + account_sum(recipient_account_id, pair)
        }),
{
    crate::ledger::law_transfer_pair_moves_amount(
        transfer_id,
        sender_account_id,
        recipient_account_id,
        amount,
        currency,
        0,
    );
}

/// A transfer is accepted exactly when the sender can cover it and the
/// recipient's balance does not overflow; it is never accepted into a
/// negative sender balance.
pub proof fn law_settlement_acceptance(sender: int, recipient: int, amount: int)
    ensures
        settled_balances(sender, recipient, amount) is Some <==> (sender >= amount && recipient
            + amount <= i64::MAX),
        settled_balances(sender, recipient, amount) matches Some(nb) ==> nb.0 >= 0 || sender
            < 0,
{
}

/// Whether an error is the executor's mapped serialization failure or
/// deadlock, which it retries.
pub open spec fn retryable(err: DomainError) -> bool {
    err matches DomainError::Validation(msg) && (crate::text::contains_seq(
        msg@,
        "serialization"@,
    ) || crate::text::contains_seq(msg@, "deadlock"@))
}

/// Whether an error is a retryable serialization failure or deadlock.
pub fn is_retryable_domain(err: &DomainError) -> (r: bool)
    ensures
        r == retryable(*err),
{
    match err {
        DomainError::Validation(msg) => crate::text::str_contains(msg.as_str(), "serialization")
            || crate::text::str_contains(msg.as_str(), "deadlock"),
        _ => false,
    }
}

/// Whether a failed attempt is retried: the error is retryable and fewer
/// than `MAX_SERIALIZATION_RETRIES` retries were made.
pub fn should_retry(err: &DomainError, retries_so_far: u32) -> (r: bool)
    ensures
        r == (retryable(*err) && retries_so_far < MAX_SERIALIZATION_RETRIES),
{
    is_retryable_domain(err) && retries_so_far < MAX_SERIALIZATION_RETRIES
}

/// Delay before retry number `attempt`, without jitter: 25 ms doubled once
/// per attempt (at most four doublings), capped at 250 ms.
pub open spec fn backoff_cap(attempt: u32) -> int {
    let k = if attempt < 4 {
        attempt as int
    } else {
        4
    };
    let factor = if k == 0 {
        1int
    } else if k == 1 {
        2int
    } else if k == 2 {
        4int
    } else if k == 3 {
        8int
    } else {
        16int
    };
    if 25 * factor < 250 {
        25 * factor
    } else {
        250
    }
}

/// A uniformly random integer in `0..=max` (`rand::Rng::gen_range` on the
/// thread-local generator). Only the range is promised.
#[verifier::external_body]
fn random_up_to(max: u64) -> (r: u64)
    ensures
        r <= max,
{
    rand::Rng::gen_range(&mut rand::thread_rng(), 0..=max)
}

/// Delay in milliseconds before retry number `attempt`: the capped
/// exponential backoff plus a random jitter of up to half of it.
pub fn jitter_backoff(attempt: u32) -> (r: u64)
    ensures
        backoff_cap(attempt) <= r <= backoff_cap(attempt) + backoff_cap(attempt) / 2,
{
    let k: u32 = if attempt < 4 {
        attempt
    } else {
        4
    };
    let factor: u64 = if k == 0 {
        1
    } else if k == 1 {
        2
    } else if k == 2 {
        4
    } else if k == 3 {
        8
    } else {
        16
    };
    let exp: u64 = BASE_RETRY_DELAY_MS * factor;
    let capped: u64 = if exp < MAX_RETRY_DELAY_MS {
        exp
    } else {
        MAX_RETRY_DELAY_MS
    };
    let jitter: u64 = random_up_to(capped / 2);
    capped + jitter
}

/// The retry decision after a failed attempt, when `attempt` retries were
/// already made: `None` to give up and return the error, or the number of
/// the next retry and the delay in milliseconds to wait before it. Retries
/// never exceed `MAX_SERIALIZATION_RETRIES`.
pub fn after_failure(err: &DomainError, attempt: u32) -> (r: Option<(u32, u64)>)
    ensures
        r is Some <==> (retryable(*err) && attempt < MAX_SERIALIZATION_RETRIES),
        r matches Some(p) ==> {
            &&& p.0 == attempt + 1
            &&& p.0 <= MAX_SERIALIZATION_RETRIES
            &&& backoff_cap(p.0) <= p.1 <= backoff_cap(p.0) + backoff_cap(p.0) / 2
        },
{
    if should_retry(err, attempt) {
        let next: u32 = attempt + 1;
        Some((next, jitter_backoff(next)))
    } else {
        None
    }
}

} // verus!
