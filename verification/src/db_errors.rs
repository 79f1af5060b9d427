//! Mapping of database failures to domain errors, so that no storage error
//! type crosses into the use cases. The storage adapter describes a failure
//! by its kind and two texts; the decisions are made here.

use vstd::prelude::*;
use crate::errors::{validation, validation_error, DomainError};
use crate::text::{contains_seq, lowercase_of, owned, push_str, str_contains, to_lowercase};

verus! {

/// Kind of a database failure.
#[derive(Debug, Clone, Copy, PartialEq, Eq, Structural)]
pub enum DbErrorKind {
    /// A query failed at runtime.
    Query,
    /// A statement execution failed at runtime.
    Exec,
    /// A connection could not be acquired or failed.
    Conn,
    /// A record expected by the operation was not found.
    RecordNotFound,
    /// Any other failure.
    Other,
}

/// A database failure as plain values.
#[derive(Debug, Clone)]
pub struct DbError {
    /// Kind of failure.
    pub kind: DbErrorKind,
    /// Text of the underlying runtime error (for query, exec and connection
    /// failures).
    pub detail: String,
    /// Full display text of the failure.
    pub display: String,
}

/// Whether the lower-cased runtime text names a serialization failure or a
/// deadlock. Query and exec failures also accept the wording
/// "serialization failure"; connection failures do not.
pub open spec fn retryable_db(err: DbError) -> bool {
    let msg = lowercase_of(err.detail@);
    match err.kind {
        DbErrorKind::Query | DbErrorKind::Exec => contains_seq(msg, "could not serialize access"@)
            || contains_seq(msg, "deadlock detected"@) || contains_seq(
            msg,
            "serialization failure"@,
        ),
        DbErrorKind::Conn => contains_seq(msg, "could not serialize access"@) || contains_seq(
            msg,
            "deadlock detected"@,
        ),
        _ => false,
    }
}

/// A database failure whose text reports a deadlock or a serialization
/// conflict is retried: for query, exec and connection failures a detail
/// text holding "deadlock detected" or "could not serialize access" (in
/// any case) is retryable, and for query and exec failures so is
/// "serialization failure"; a missing record, or a failure of another
/// kind, never is.
pub proof fn law_deadlocks_are_retried(err: DbError)
    ensures
        (err.kind == DbErrorKind::Query || err.kind == DbErrorKind::Exec || err.kind
            == DbErrorKind::Conn) && (contains_seq(lowercase_of(err.detail@), "deadlock detected"@)
            || contains_seq(lowercase_of(err.detail@), "could not serialize access"@))
            ==> retryable_db(err),
        (err.kind == DbErrorKind::Query || err.kind == DbErrorKind::Exec) && contains_seq(
            lowercase_of(err.detail@),
            "serialization failure"@,
        ) ==> retryable_db(err),
        (err.kind == DbErrorKind::RecordNotFound || err.kind == DbErrorKind::Other) ==> !retryable_db(
            err,
        ),
{
}

/// Whether the failure is the non-negative balance check constraint.
pub open spec fn balance_constraint(err: DbError) -> bool {
    contains_seq(lowercase_of(err.display@), "chk_account_balances_non_negative"@)
}

/// The generic mapping of a failure: a missing record or an opaque failure,
/// without database detail.
pub open spec fn generic_db_error(e: DomainError, err: DbError) -> bool {
    if err.kind == DbErrorKind::RecordNotFound {
        validation(e, "record not found"@)
    } else {
        validation(e, "database operation failed"@)
    }
}

/// Returns true when the failure is retryable (serialization wording or
/// deadlock).
pub fn is_retryable_db_error(err: &DbError) -> (r: bool)
    ensures
        r == retryable_db(*err),
        ((*err).kind == DbErrorKind::Query || (*err).kind == DbErrorKind::Exec || (*err).kind
            == DbErrorKind::Conn) && (contains_seq(lowercase_of((*err).detail@), "deadlock detected"@)
            || contains_seq(lowercase_of((*err).detail@), "could not serialize access"@)) ==> r,
        ((*err).kind == DbErrorKind::Query || (*err).kind == DbErrorKind::Exec) && contains_seq(
            lowercase_of((*err).detail@),
            "serialization failure"@,
        ) ==> r,
        ((*err).kind == DbErrorKind::RecordNotFound || (*err).kind == DbErrorKind::Other) ==> !r,
{
    match err.kind {
        DbErrorKind::Query | DbErrorKind::Exec => {
            let msg = to_lowercase(err.detail.as_str());
            str_contains(msg.as_str(), "could not serialize access") || str_contains(
                msg.as_str(),
                "deadlock detected",
            ) || str_contains(msg.as_str(), "serialization failure")
        },
        DbErrorKind::Conn => {
            let msg = to_lowercase(err.detail.as_str());
            str_contains(msg.as_str(), "could not serialize access") || str_contains(
                msg.as_str(),
                "deadlock detected",
            )
        },
        _ => false,
    }
}

/// Maps a failure to a client-safe domain error.
pub fn map_db_err(err: &DbError) -> (r: DomainError)
    ensures
        generic_db_error(r, *err),
{
    if err.kind == DbErrorKind::RecordNotFound {
        return validation_error("record not found");
    }
    validation_error("database operation failed")
}

/// Maps the balance check-constraint violation to `NegativeBalance`.
pub fn map_balance_constraint(err: &DbError) -> (r: Option<DomainError>)
    ensures
        balance_constraint(*err) ==> r == Some(DomainError::NegativeBalance),
        !balance_constraint(*err) ==> r is None,
{
    let msg = to_lowercase(err.display.as_str());
    if str_contains(msg.as_str(), "chk_account_balances_non_negative") {
        return Some(DomainError::NegativeBalance);
    }
    None
}

fn serialization_failure(err: &DbError) -> (r: DomainError)
    ensures
        validation(r, "serialization failure: "@ + err.display@),
{
    let mut msg = owned("serialization failure: ");
    push_str(&mut msg, err.display.as_str());
    DomainError::Validation(msg)
}

/// Maps a failure that happened while starting the transaction: retryable
/// failures become `Validation("serialization failure: …")` so the retry
/// loop recognises them; others take the generic mapping.
pub fn map_begin_err(err: &DbError) -> (r: DomainError)
    ensures
        retryable_db(*err) ==> validation(r, "serialization failure: "@ + err.display@),
        !retryable_db(*err) ==> generic_db_error(r, *err),
{
    if is_retryable_db_error(err) {
        return serialization_failure(err);
    }
    map_db_err(err)
}

/// Maps a failure inside the transfer transaction: retryable failures
/// first, then the balance constraint, then the generic mapping.
pub fn map_txn_err(err: &DbError) -> (r: DomainError)
    ensures
        (err.kind == DbErrorKind::Query || err.kind == DbErrorKind::Exec || err.kind
            == DbErrorKind::Conn) && contains_seq(lowercase_of(err.detail@), "deadlock detected"@)
            ==> validation(r, "serialization failure: "@ + err.display@),
        retryable_db(*err) ==> validation(r, "serialization failure: "@ + err.display@),
        !retryable_db(*err) && balance_constraint(*err) ==> r == DomainError::NegativeBalance,
        !retryable_db(*err) && !balance_constraint(*err) ==> generic_db_error(r, *err),
{
    if is_retryable_db_error(err) {
        return serialization_failure(err);
    }
    if let Some(mapped) = map_balance_constraint(err) {
        return mapped;
    }
    map_db_err(err)
}

/// Maps a failure of a balance update: the balance constraint if it is one,
/// otherwise as any failure inside the transaction.
pub fn map_balance_update_err(err: &DbError) -> (r: DomainError)
    ensures
        balance_constraint(*err) ==> r == DomainError::NegativeBalance,
        !balance_constraint(*err) && retryable_db(*err) ==> validation(
            r,
            "serialization failure: "@ + err.display@,
        ),
        !balance_constraint(*err) && !retryable_db(*err) ==> generic_db_error(r, *err),
{
    match map_balance_constraint(err) {
        Some(mapped) => mapped,
        None => map_txn_err(err),
    }
}

} // verus!
