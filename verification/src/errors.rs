//! Transport-agnostic domain errors for money movement and authentication.

use vstd::prelude::*;
use crate::text::{owned, push_str};

verus! {

/// Domain-level errors, independent of any transport.
///
/// The `String` payloads carry client-safe detail only.
#[derive(Debug, Clone, PartialEq, Eq)]
pub enum DomainError {
    /// Money parsing or arithmetic failed (negative, fractional, overflow).
    InvalidMoney(String),
    /// Currency code outside the supported set, or currencies mismatched.
    UnsupportedCurrency(String),
    /// Sender balance is below the requested transfer amount.
    InsufficientFunds,
    /// Sender and recipient resolve to the same user or account.
    SelfTransfer,
    /// Recipient username does not exist.
    RecipientNotFound,
    /// User id was not found.
    UserNotFound,
    /// Login failed (unknown user or bad password).
    InvalidCredentials,
    /// Idempotency key reused with a different request fingerprint.
    IdempotencyConflict,
    /// Idempotency key missing or malformed.
    InvalidIdempotencyKey,
    /// Referenced transfer does not exist.
    TransferNotFound,
    /// Account missing for a user.
    AccountNotFound,
    /// Ledger entry set does not sum to zero.
    UnbalancedLedger,
    /// Operation would leave a balance negative.
    NegativeBalance,
    /// Generic validation failure, or a mapped transient database failure.
    Validation(String),
}

/// `e` is `InvalidMoney` with message `msg`.
pub open spec fn invalid_money(e: DomainError, msg: Seq<char>) -> bool {
    e matches DomainError::InvalidMoney(m) && m@ == msg
}

/// `e` is `UnsupportedCurrency` with message `msg`.
pub open spec fn unsupported_currency(e: DomainError, msg: Seq<char>) -> bool {
    e matches DomainError::UnsupportedCurrency(m) && m@ == msg
}

/// `e` is `Validation` with message `msg`.
pub open spec fn validation(e: DomainError, msg: Seq<char>) -> bool {
    e matches DomainError::Validation(m) && m@ == msg
}

/// Human-readable text of an error (its `Display` form).
pub open spec fn error_text(e: DomainError) -> Seq<char> {
    match e {
        DomainError::InvalidMoney(m) => "invalid money amount: "@ + m@,
        DomainError::UnsupportedCurrency(m) => "unsupported currency: "@ + m@,
        DomainError::InsufficientFunds => "insufficient funds"@,
        DomainError::SelfTransfer => "cannot transfer to self"@,
        DomainError::RecipientNotFound => "recipient not found"@,
        DomainError::UserNotFound => "user not found"@,
        DomainError::InvalidCredentials => "invalid credentials"@,
        DomainError::IdempotencyConflict => "idempotency conflict"@,
        DomainError::InvalidIdempotencyKey => "invalid idempotency key"@,
        DomainError::TransferNotFound => "transfer not found"@,
        DomainError::AccountNotFound => "account not found"@,
        DomainError::UnbalancedLedger => "ledger entries do not balance"@,
        DomainError::NegativeBalance => "negative balance not allowed"@,
        DomainError::Validation(m) => "validation error: "@ + m@,
    }
}

/// Builds `prefix` followed by `detail`.
fn prefixed(prefix: &str, detail: &String) -> (r: String)
    ensures
        r@ == prefix@ + detail@,
{
    let mut out = owned(prefix);
    push_str(&mut out, detail.as_str());
    out
}

impl DomainError {
    /// The error's human-readable text.
    pub fn message(&self) -> (r: String)
        ensures
            r@ == error_text(*self),
    {
        match self {
            DomainError::InvalidMoney(m) => prefixed("invalid money amount: ", m),
            DomainError::UnsupportedCurrency(m) => prefixed("unsupported currency: ", m),
            DomainError::InsufficientFunds => owned("insufficient funds"),
            DomainError::SelfTransfer => owned("cannot transfer to self"),
            DomainError::RecipientNotFound => owned("recipient not found"),
            DomainError::UserNotFound => owned("user not found"),
            DomainError::InvalidCredentials => owned("invalid credentials"),
            DomainError::IdempotencyConflict => owned("idempotency conflict"),
            DomainError::InvalidIdempotencyKey => owned("invalid idempotency key"),
            DomainError::TransferNotFound => owned("transfer not found"),
            DomainError::AccountNotFound => owned("account not found"),
            DomainError::UnbalancedLedger => owned("ledger entries do not balance"),
            DomainError::NegativeBalance => owned("negative balance not allowed"),
            DomainError::Validation(m) => prefixed("validation error: ", m),
        }
    }
}

/// An `InvalidMoney` error with a fixed message.
pub fn invalid_money_error(msg: &str) -> (e: DomainError)
    ensures
        invalid_money(e, msg@),
{
    DomainError::InvalidMoney(owned(msg))
}

/// A `Validation` error with a fixed message.
pub fn validation_error(msg: &str) -> (e: DomainError)
    ensures
        validation(e, msg@),
{
    DomainError::Validation(owned(msg))
}

} // verus!
