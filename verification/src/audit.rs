//! Append-only audit event drafts for security and financial operations.
//! Metadata holds non-sensitive details only.

use vstd::prelude::*;
use crate::timestamp::Timestamp;

verus! {

/// Audit event types for the append-only audit log.
#[derive(Debug, Clone, Copy, PartialEq, Eq, Structural)]
pub enum AuditEventType {
    /// Successful password authentication.
    LoginSuccess,
    /// Failed authentication attempt.
    LoginFailure,
    /// Transfer accepted into transactional execution.
    TransferRequested,
    /// Transfer committed with ledger and balance updates.
    TransferCompleted,
    /// Transfer declined without committing money movement.
    TransferDeclined,
    /// Idempotent replay returned a stored response.
    IdempotencyReplay,
    /// Idempotency key reused with a conflicting fingerprint.
    IdempotencyConflict,
    /// Authorization failed at a protected boundary.
    AuthorizationFailure,
    /// Unexpected financial operation failure.
    FinancialOperationFailure,
}

/// Stable snake_case name of an event type.
pub open spec fn event_type_text(t: AuditEventType) -> Seq<char> {
    match t {
        AuditEventType::LoginSuccess => "login_success"@,
        AuditEventType::LoginFailure => "login_failure"@,
        AuditEventType::TransferRequested => "transfer_requested"@,
        AuditEventType::TransferCompleted => "transfer_completed"@,
        AuditEventType::TransferDeclined => "transfer_declined"@,
        AuditEventType::IdempotencyReplay => "idempotency_replay"@,
        AuditEventType::IdempotencyConflict => "idempotency_conflict"@,
        AuditEventType::AuthorizationFailure => "authorization_failure"@,
        AuditEventType::FinancialOperationFailure => "financial_operation_failure"@,
    }
}

/// Every event type is stored under its own snake_case name: the names are
/// the ones below, and no two event types share one.
pub proof fn law_event_type_names(a: AuditEventType, b: AuditEventType)
    ensures
        a == AuditEventType::LoginSuccess ==> event_type_text(a) == "login_success"@,
        a == AuditEventType::LoginFailure ==> event_type_text(a) == "login_failure"@,
        a == AuditEventType::TransferRequested ==> event_type_text(a) == "transfer_requested"@,
        a == AuditEventType::TransferCompleted ==> event_type_text(a) == "transfer_completed"@,
        a == AuditEventType::TransferDeclined ==> event_type_text(a) == "transfer_declined"@,
        a == AuditEventType::IdempotencyReplay ==> event_type_text(a) == "idempotency_replay"@,
        a == AuditEventType::IdempotencyConflict ==> event_type_text(a) == "idempotency_conflict"@,
        a == AuditEventType::AuthorizationFailure ==> event_type_text(a)
            == "authorization_failure"@,
        a == AuditEventType::FinancialOperationFailure ==> event_type_text(a)
            == "financial_operation_failure"@,
        event_type_text(a) == event_type_text(b) ==> a == b,
{
    reveal_strlit("login_success");
    reveal_strlit("login_failure");
    reveal_strlit("transfer_requested");
    reveal_strlit("transfer_completed");
    reveal_strlit("transfer_declined");
    reveal_strlit("idempotency_replay");
    reveal_strlit("idempotency_conflict");
    reveal_strlit("authorization_failure");
    reveal_strlit("financial_operation_failure");
    if event_type_text(a) == event_type_text(b) && a != b {
        let ta = event_type_text(a);
        let tb = event_type_text(b);
        assert(ta.len() == tb.len());
        assert(ta[0] == tb[0]);
        assert(ta[6] == tb[6]);
        assert(ta[9] == tb[9]);
        assert(ta[12] == tb[12]);
    }
}

impl AuditEventType {
    /// Stable snake_case string persisted as the event type.
    pub fn as_str(&self) -> (r: &'static str)
        ensures
            r@ == event_type_text(*self),
    {
        match self {
            AuditEventType::LoginSuccess => "login_success",
            AuditEventType::LoginFailure => "login_failure",
            AuditEventType::TransferRequested => "transfer_requested",
            AuditEventType::TransferCompleted => "transfer_completed",
            AuditEventType::TransferDeclined => "transfer_declined",
            AuditEventType::IdempotencyReplay => "idempotency_replay",
            AuditEventType::IdempotencyConflict => "idempotency_conflict",
            AuditEventType::AuthorizationFailure => "authorization_failure",
            AuditEventType::FinancialOperationFailure => "financial_operation_failure",
        }
    }
}

/// Draft audit event before persistence. The metadata entries are listed in
/// ascending key order, each key once (the order of a `BTreeMap`).
#[derive(Debug, Clone)]
pub struct AuditEventDraft {
    /// Event classification.
    pub event_type: AuditEventType,
    /// Acting user when known.
    pub actor_user_id: Option<u128>,
    /// Related transfer when applicable.
    pub transfer_id: Option<u128>,
    /// Request correlation id.
    pub request_id: String,
    /// Distributed trace id.
    pub trace_id: String,
    /// Non-sensitive key/value details, in ascending key order.
    pub metadata: Vec<(String, String)>,
    /// Event timestamp (UTC).
    pub occurred_at: Timestamp,
}

/// The metadata of a draft as text pairs.
pub open spec fn metadata_view(m: Seq<(String, String)>) -> Seq<(Seq<char>, Seq<char>)> {
    m.map_values(|p: (String, String)| (p.0@, p.1@))
}

} // verus!
