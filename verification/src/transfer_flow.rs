//! Decisions of the retry-safe transfer use case.
//!
//! The use case validates the idempotency key, fingerprints the request,
//! looks up a stored response for the sender and key, then either refuses,
//! replays the stored response or runs the transactional executor; after a
//! completed transfer it publishes a feed item. The lookups, the executor
//! and the publication are awaited by the caller; every decision between
//! them is taken here.
//!
//! | Stored record | Fingerprint | Step |
//! | ------------- | ----------- | ---- |
//! | none | — | execute (the amount must parse as `i64`) |
//! | present | same | replay the stored response |
//! | present | different | `IdempotencyConflict` |

use vstd::prelude::*;
use crate::decimal::{i64_parse, i64_text, int_text, parse_i64};
use crate::errors::{invalid_money, DomainError};
use crate::idempotency::{
    fingerprint_of, fingerprint_payload, key_is_valid, request_fingerprint,
    validate_idempotency_key,
};
use crate::ids::{uuid_text, uuid_text_of};
use crate::records::{clone_opt, opt_view, FeedItem, IdempotencyRecord, TransferRecord};
use crate::settlement::{check_stored, StoredOutcome};
use crate::text::owned;
use crate::transfer::TransferStatus;

verus! {

/// The fingerprint of a transfer request made by `sender_user_id`: the
/// sender in UUID text form, the recipient, the amount text, the currency
/// and the description (empty when absent).
pub open spec fn request_fingerprint_of(
    sender_user_id: u128,
    recipient_username: Seq<char>,
    amount_minor: Seq<char>,
    currency: Seq<char>,
    description: Option<Seq<char>>,
) -> Seq<char> {
    fingerprint_of(
        fingerprint_payload(
            uuid_text_of(sender_user_id),
            recipient_username,
            amount_minor,
            currency,
            match description {
                Some(d) => d,
                None => Seq::empty(),
            },
        ),
    )
}

/// Text of an optional string slice.
pub open spec fn opt_text(o: Option<&str>) -> Option<Seq<char>> {
    match o {
        Some(s) => Some(s@),
        None => None,
    }
}

/// First step of a transfer: rejects a malformed idempotency key, else
/// gives the request fingerprint.
pub fn begin_transfer(
    sender_user_id: u128,
    recipient_username: &str,
    amount_minor: &str,
    currency: &str,
    description: Option<&str>,
    idempotency_key: &str,
) -> (r: Result<String, DomainError>)
    ensures
        !key_is_valid(idempotency_key@) ==> r == Err::<String, DomainError>(
            DomainError::InvalidIdempotencyKey,
        ),
        key_is_valid(idempotency_key@) ==> (r matches Ok(fp) && fp@ == request_fingerprint_of(
            sender_user_id,
            recipient_username@,
            amount_minor@,
            currency@,
            opt_text(description),
        )),
{
    if !validate_idempotency_key(idempotency_key) {
        return Err(DomainError::InvalidIdempotencyKey);
    }
    let sender = uuid_text(sender_user_id);
    let empty = owned("");
    let desc: &str = match description {
        Some(d) => d,
        None => empty.as_str(),
    };
    proof {
        reveal_strlit("");
    }
    let fp = request_fingerprint(sender.as_str(), recipient_username, amount_minor, currency, desc);
    Ok(fp)
}

/// What the use case does once the idempotency store has answered.
#[derive(Debug, Clone)]
pub enum TransferStep {
    /// Refuse with this error; no money moves.
    Refuse(DomainError),
    /// Reply with the stored response; the executor is not called.
    Replay,
    /// Run the executor for this amount in minor units.
    Execute(i64),
}

/// The kind of step taken after the lookup, for a stored fingerprint (if
/// any), the request fingerprint and the amount text.
pub open spec fn lookup_step(stored: Option<Seq<char>>, fingerprint: Seq<char>, amount_minor: Seq<
    char,
>) -> Option<Option<i64>> {
    match stored {
        Some(f) => if f == fingerprint {
            None
        } else {
            Some(None)
        },
        None => match i64_parse(amount_minor) {
            Some(n) => Some(Some(n)),
            None => Some(None),
        },
    }
}

/// `r` is the step that `lookup_step` describes: `None` a replay,
/// `Some(Some(n))` an execution of `n`, `Some(None)` a refusal (a conflict
/// when a record is stored, an invalid amount otherwise).
pub open spec fn step_matches(
    stored: Option<Seq<char>>,
    fingerprint: Seq<char>,
    amount_minor: Seq<char>,
    r: TransferStep,
) -> bool {
    match lookup_step(stored, fingerprint, amount_minor) {
        None => r is Replay,
        Some(Some(n)) => r == TransferStep::Execute(n),
        Some(None) => match stored {
            Some(_) => r matches TransferStep::Refuse(e) && e == DomainError::IdempotencyConflict,
            None => r matches TransferStep::Refuse(e) && invalid_money(e, "invalid amount"@),
        },
    }
}

/// Fingerprint of an optional stored record.
pub open spec fn stored_fingerprint(existing: Option<IdempotencyRecord>) -> Option<Seq<char>> {
    match existing {
        Some(rec) => Some(rec.fingerprint@),
        None => None,
    }
}

/// Decides on the stored record for the same sender and key: a different
/// fingerprint is a conflict, the same one a replay; with nothing stored
/// the amount text must parse as an `i64` (else `InvalidMoney("invalid
/// amount")`) and the transfer executes.
pub fn after_lookup(existing: &Option<IdempotencyRecord>, fingerprint: &str, amount_minor: &str) -> (r:
    TransferStep)
    ensures
        step_matches(stored_fingerprint(*existing), fingerprint@, amount_minor@, r),
{
    match check_stored(existing, fingerprint) {
        StoredOutcome::Conflict => TransferStep::Refuse(DomainError::IdempotencyConflict),
        StoredOutcome::Replay => TransferStep::Replay,
        StoredOutcome::Proceed => match parse_i64(amount_minor) {
            Some(n) => TransferStep::Execute(n),
            None => TransferStep::Refuse(DomainError::InvalidMoney(owned("invalid amount"))),
        },
    }
}

/// The feed item published after a transfer: present exactly for a
/// completed transfer, with the amount as decimal text.
pub fn feed_item_for(record: &TransferRecord) -> (r: Option<FeedItem>)
    ensures
        record.status == TransferStatus::Declined ==> r is None,
        record.status == TransferStatus::Completed ==> (r matches Some(item) && {
            &&& item.transfer_id == record.id
            &&& item.sender_username@ == record.sender_username@
            &&& item.recipient_username@ == record.recipient_username@
            &&& item.amount_minor@ == int_text(record.amount_minor as int)
            &&& item.currency@ == record.currency_code@
            &&& opt_view(item.description) == opt_view(record.description)
            &&& item.created_at == record.created_at
        }),
{
    match record.status {
        TransferStatus::Declined => None,
        TransferStatus::Completed => Some(
            FeedItem {
                transfer_id: record.id,
                sender_username: record.sender_username.clone(),
                recipient_username: record.recipient_username.clone(),
                amount_minor: i64_text(record.amount_minor),
                currency: record.currency_code.clone(),
                description: clone_opt(&record.description),
                created_at: record.created_at,
            },
        ),
    }
}

/// Metrics label of a transfer attempt: `"completed"`, `"declined"`, or
/// `"error"` when no record came back.
pub fn transfer_outcome_label(status: Option<TransferStatus>) -> (r: &'static str)
    ensures
        r@ == (match status {
            Some(TransferStatus::Completed) => "completed"@,
            Some(TransferStatus::Declined) => "declined"@,
            None => "error"@,
        }),
{
    match status {
        Some(TransferStatus::Completed) => "completed",
        Some(TransferStatus::Declined) => "declined",
        None => "error",
    }
}

/// A retried request (same sender, key and payload) finds the fingerprint
/// it stored the first time and is replayed: the executor never runs twice
/// for it.
pub proof fn law_retry_is_replayed(
    sender_user_id: u128,
    recipient_username: Seq<char>,
    amount_minor: Seq<char>,
    currency: Seq<char>,
    description: Option<Seq<char>>,
)
    ensures
        ({
            let fp = request_fingerprint_of(
                sender_user_id,
                recipient_username,
                amount_minor,
                currency,
                description,
            );
            lookup_step(Some(fp), fp, amount_minor) is None
        }),
{
}

/// A stored response for the same sender and key whose fingerprint differs
/// from the request's is refused as a conflict, whatever the amount: money
/// never moves for it.
pub proof fn law_changed_payload_conflicts(stored: Seq<char>, fingerprint: Seq<char>, amount_minor: Seq<char>)
    requires
        stored != fingerprint,
    ensures
        lookup_step(Some(stored), fingerprint, amount_minor) == Some(None::<i64>),
{
}

} // verus!
