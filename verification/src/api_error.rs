//! Errors at the HTTP boundary: their status codes and client-safe bodies.
//!
//! Client messages never carry passwords, tokens, raw idempotency keys or
//! SQL detail: the database text of a retryable storage failure is dropped
//! from the body.

use vstd::prelude::*;
use crate::errors::{error_text, DomainError};
use crate::text::{has_prefix, owned, push_str, strip_prefix};

verus! {

/// HTTP-layer error with a status mapping.
#[derive(Debug, Clone, PartialEq, Eq)]
pub enum ApiError {
    /// Domain or business error; its status follows the domain mapping.
    Domain(DomainError),
    /// Missing or invalid bearer authentication.
    Unauthorized,
    /// Transfer requested without an `Idempotency-Key` header.
    MissingIdempotencyKey,
    /// Login or transfer rate limit exceeded.
    RateLimited,
    /// Request validation failure at the HTTP boundary.
    Validation(String),
    /// Unexpected internal failure, reported generically.
    Internal,
}

/// Standard JSON error body returned to clients.
#[derive(Debug, Clone)]
pub struct ErrorBody {
    /// Machine-readable error code.
    pub code: String,
    /// Human-readable message safe for clients.
    pub message: String,
}

/// HTTP status of a domain error under the API contract.
pub open spec fn domain_status_code(e: DomainError) -> u16 {
    match e {
        DomainError::InvalidCredentials => 401,
        DomainError::UserNotFound => 404,
        DomainError::RecipientNotFound => 422,
        DomainError::AccountNotFound => 404,
        DomainError::TransferNotFound => 404,
        DomainError::InsufficientFunds => 422,
        DomainError::SelfTransfer => 422,
        DomainError::IdempotencyConflict => 409,
        DomainError::InvalidIdempotencyKey => 400,
        DomainError::InvalidMoney(_) => 400,
        DomainError::UnsupportedCurrency(_) => 400,
        DomainError::Validation(_) => 400,
        DomainError::UnbalancedLedger => 500,
        DomainError::NegativeBalance => 500,
    }
}

/// The status classes of domain errors: business-rule refusals of a
/// transfer (insufficient funds, a transfer to oneself, an unknown
/// recipient) are 422; bad credentials 401; missing users, accounts and
/// transfers 404; a reused idempotency key with another payload 409;
/// malformed input 400; broken ledger integrity 500. Every domain error
/// falls in exactly one class.
pub proof fn law_domain_status_classes(err: DomainError)
    ensures
        ({
            let r = domain_status_code(err);

            &&& (err is InsufficientFunds || err is SelfTransfer || err is RecipientNotFound) <==> r == 422
            &&& err is InvalidCredentials <==> r == 401
            &&& (err is UserNotFound || err is AccountNotFound || err is TransferNotFound) <==> r == 404
            &&& err is IdempotencyConflict <==> r == 409
            &&& (err is InvalidIdempotencyKey || err is InvalidMoney || err is UnsupportedCurrency
                || err is Validation) <==> r == 400
            &&& (err is UnbalancedLedger || err is NegativeBalance) <==> r == 500
        }),
{
}

/// An API error answers with a status among 400, 401, 404, 409, 422, 429
/// and 500; rate limiting alone gives 429, and a missing idempotency key is
/// a client error (400).
pub proof fn law_api_status_codes(e: ApiError)
    ensures
        ({
            let r = api_status_code(e);
            &&& r == 400 || r == 401 || r == 404 || r == 409 || r == 422 || r == 429 || r == 500
            &&& e is RateLimited <==> r == 429
            &&& e is MissingIdempotencyKey ==> r == 400
            &&& e is Unauthorized ==> r == 401
            &&& e is Internal ==> r == 500
        }),
{
}

/// HTTP status of an API error.
pub open spec fn api_status_code(e: ApiError) -> u16 {
    match e {
        ApiError::Domain(d) => domain_status_code(d),
        ApiError::Unauthorized => 401,
        ApiError::MissingIdempotencyKey => 400,
        ApiError::RateLimited => 429,
        ApiError::Validation(_) => 400,
        ApiError::Internal => 500,
    }
}

/// The client-facing message of a validation error: a retryable storage
/// failure (`serialization failure: ` followed by the database's text) is
/// reported without the database's text; any other message is kept.
pub open spec fn client_validation_message(m: Seq<char>) -> Seq<char> {
    if has_prefix(m, "serialization failure: "@) {
        "serialization failure"@
    } else {
        m
    }
}

/// `(code, message)` of the JSON body sent for an API error.
pub open spec fn api_body_of(e: ApiError) -> (Seq<char>, Seq<char>) {
    match e {
        ApiError::Domain(DomainError::InvalidCredentials) => (
            "INVALID_CREDENTIALS"@,
            "Invalid username or password"@,
        ),
        ApiError::Domain(DomainError::InsufficientFunds) => (
            "INSUFFICIENT_FUNDS"@,
            "Insufficient funds"@,
        ),
        ApiError::Domain(DomainError::SelfTransfer) => (
            "SELF_TRANSFER"@,
            "Cannot transfer to yourself"@,
        ),
        ApiError::Domain(DomainError::RecipientNotFound) => (
            "RECIPIENT_NOT_FOUND"@,
            "Recipient not found"@,
        ),
        ApiError::Domain(DomainError::UserNotFound) => ("USER_NOT_FOUND"@, "User not found"@),
        ApiError::Domain(DomainError::AccountNotFound) => (
            "ACCOUNT_NOT_FOUND"@,
            "Account not found"@,
        ),
        ApiError::Domain(DomainError::IdempotencyConflict) => (
            "IDEMPOTENCY_CONFLICT"@,
            "Idempotency key reused with different payload"@,
        ),
        ApiError::Domain(DomainError::InvalidIdempotencyKey) => (
            "INVALID_IDEMPOTENCY_KEY"@,
            "Invalid idempotency key"@,
        ),
        ApiError::Domain(DomainError::InvalidMoney(m)) => ("INVALID_MONEY"@, m@),
        ApiError::Domain(DomainError::UnsupportedCurrency(m)) => ("UNSUPPORTED_CURRENCY"@, m@),
        ApiError::Domain(DomainError::Validation(m)) => (
            "VALIDATION_ERROR"@,
            client_validation_message(m@),
        ),
        ApiError::Domain(_) => ("DOMAIN_ERROR"@, "Request could not be completed"@),
        ApiError::Unauthorized => ("UNAUTHORIZED"@, "Authentication required"@),
        ApiError::MissingIdempotencyKey => (
            "MISSING_IDEMPOTENCY_KEY"@,
            "Idempotency-Key header is required"@,
        ),
        ApiError::RateLimited => ("RATE_LIMITED"@, "Too many requests"@),
        ApiError::Validation(m) => ("VALIDATION_ERROR"@, m@),
        ApiError::Internal => ("INTERNAL_ERROR"@, "Internal server error"@),
    }
}

/// Human-readable text of an API error (its `Display` form).
pub open spec fn api_error_text(e: ApiError) -> Seq<char> {
    match e {
        ApiError::Domain(d) => error_text(d),
        ApiError::Unauthorized => "unauthorized"@,
        ApiError::MissingIdempotencyKey => "missing idempotency key"@,
        ApiError::RateLimited => "rate limit exceeded"@,
        ApiError::Validation(m) => "validation error: "@ + m@,
        ApiError::Internal => "internal server error"@,
    }
}

/// Maps a domain error to the HTTP status used by the API contract.
pub fn domain_status(err: &DomainError) -> (r: u16)
    ensures
        r == domain_status_code(*err),
        (*err is InsufficientFunds || *err is SelfTransfer || *err is RecipientNotFound) <==> r == 422,
        *err is InvalidCredentials <==> r == 401,
        (*err is UserNotFound || *err is AccountNotFound || *err is TransferNotFound) <==> r == 404,
        *err is IdempotencyConflict <==> r == 409,
        (*err is InvalidIdempotencyKey || *err is InvalidMoney || *err is UnsupportedCurrency
            || *err is Validation) <==> r == 400,
        (*err is UnbalancedLedger || *err is NegativeBalance) <==> r == 500,
{
    match err {
        DomainError::InvalidCredentials => 401,
        DomainError::UserNotFound | DomainError::AccountNotFound | DomainError::TransferNotFound => 404,
        DomainError::InsufficientFunds | DomainError::SelfTransfer | DomainError::RecipientNotFound => 422,
        DomainError::IdempotencyConflict => 409,
        DomainError::InvalidIdempotencyKey
        | DomainError::InvalidMoney(_)
        | DomainError::UnsupportedCurrency(_)
        | DomainError::Validation(_) => 400,
        DomainError::UnbalancedLedger | DomainError::NegativeBalance => 500,
    }
}

fn body(code: &str, message: &str) -> (r: ErrorBody)
    ensures
        r.code@ == code@,
        r.message@ == message@,
{
    ErrorBody { code: owned(code), message: owned(message) }
}

fn body_with(code: &str, message: &String) -> (r: ErrorBody)
    ensures
        r.code@ == code@,
        r.message@ == message@,
{
    ErrorBody { code: owned(code), message: message.clone() }
}

/// The client-facing form of a validation message (see
/// `client_validation_message`).
fn client_message(msg: &String) -> (r: String)
    ensures
        r@ == client_validation_message(msg@),
{
    match strip_prefix(msg.as_str(), "serialization failure: ") {
        Some(_) => owned("serialization failure"),
        None => msg.clone(),
    }
}

impl ApiError {
    /// The HTTP status code of this error.
    pub fn status(&self) -> (r: u16)
        ensures
            r == api_status_code(*self),
    {
        match self {
            ApiError::Domain(err) => domain_status(err),
            ApiError::Unauthorized => 401,
            ApiError::MissingIdempotencyKey => 400,
            ApiError::RateLimited => 429,
            ApiError::Validation(_) => 400,
            ApiError::Internal => 500,
        }
    }

    /// The client-safe JSON body of this error.
    pub fn body(&self) -> (r: ErrorBody)
        ensures
            (r.code@, r.message@) == api_body_of(*self),
    {
        match self {
            ApiError::Domain(DomainError::InvalidCredentials) => body(
                "INVALID_CREDENTIALS",
                "Invalid username or password",
            ),
            ApiError::Domain(DomainError::InsufficientFunds) => body(
                "INSUFFICIENT_FUNDS",
                "Insufficient funds",
            ),
            ApiError::Domain(DomainError::SelfTransfer) => body(
                "SELF_TRANSFER",
                "Cannot transfer to yourself",
            ),
            ApiError::Domain(DomainError::RecipientNotFound) => body(
                "RECIPIENT_NOT_FOUND",
                "Recipient not found",
            ),
            ApiError::Domain(DomainError::UserNotFound) => body("USER_NOT_FOUND", "User not found"),
            ApiError::Domain(DomainError::AccountNotFound) => body(
                "ACCOUNT_NOT_FOUND",
                "Account not found",
            ),
            ApiError::Domain(DomainError::IdempotencyConflict) => body(
                "IDEMPOTENCY_CONFLICT",
                "Idempotency key reused with different payload",
            ),
            ApiError::Domain(DomainError::InvalidIdempotencyKey) => body(
                "INVALID_IDEMPOTENCY_KEY",
                "Invalid idempotency key",
            ),
            ApiError::Domain(DomainError::InvalidMoney(msg)) => body_with("INVALID_MONEY", msg),
            ApiError::Domain(DomainError::UnsupportedCurrency(msg)) => body_with(
                "UNSUPPORTED_CURRENCY",
                msg,
            ),
            ApiError::Domain(DomainError::Validation(msg)) => body_with(
                "VALIDATION_ERROR",
                &client_message(msg),
            ),
            ApiError::Domain(_) => body("DOMAIN_ERROR", "Request could not be completed"),
            ApiError::Unauthorized => body("UNAUTHORIZED", "Authentication required"),
            ApiError::MissingIdempotencyKey => body(
                "MISSING_IDEMPOTENCY_KEY",
                "Idempotency-Key header is required",
            ),
            ApiError::RateLimited => body("RATE_LIMITED", "Too many requests"),
            ApiError::Validation(msg) => body_with("VALIDATION_ERROR", msg),
            ApiError::Internal => body("INTERNAL_ERROR", "Internal server error"),
        }
    }

    /// The error's human-readable text.
    pub fn message(&self) -> (r: String)
        ensures
            r@ == api_error_text(*self),
    {
        match self {
            ApiError::Domain(err) => err.message(),
            ApiError::Unauthorized => owned("unauthorized"),
            ApiError::MissingIdempotencyKey => owned("missing idempotency key"),
            ApiError::RateLimited => owned("rate limit exceeded"),
            ApiError::Validation(m) => {
                let mut out = owned("validation error: ");
                push_str(&mut out, m.as_str());
                out
            },
            ApiError::Internal => owned("internal server error"),
        }
    }
}

} // verus!
