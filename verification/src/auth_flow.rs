//! Decisions of the login and current-user use cases.
//!
//! An unknown username and a wrong password give the same
//! `InvalidCredentials`, so a caller cannot tell them apart. A failed login
//! is audited with the username only, a successful one with the acting
//! user; the password never reaches an audit record.

use vstd::prelude::*;
use crate::audit::{metadata_view, AuditEventDraft, AuditEventType};
use crate::errors::DomainError;
use crate::records::UserRecord;
use crate::text::owned;
use crate::timestamp::Timestamp;

verus! {

/// The outcome of a login: no such user, or a password that does not
/// check, is `InvalidCredentials`; otherwise the issued token with the
/// user's id and name.
pub open spec fn login_outcome(user: Option<UserRecord>, password_ok: bool, token: String) -> Result<
    (String, u128, String),
    DomainError,
> {
    match user {
        None => Err(DomainError::InvalidCredentials),
        Some(u) => if password_ok {
            Ok((token, u.id, u.username))
        } else {
            Err(DomainError::InvalidCredentials)
        },
    }
}

/// An unknown username and a wrong password for a known user give the same
/// answer, so a caller cannot tell which usernames exist.
pub proof fn law_failed_logins_look_alike(user: UserRecord, password_ok: bool, token: String)
    ensures
        login_outcome(None, password_ok, token) == login_outcome(Some(user), false, token),
        login_outcome(None, password_ok, token) is Err,
{
}

/// The user a login goes on with; an unknown username is
/// `InvalidCredentials`.
pub fn credentials_user(found: Option<UserRecord>) -> (r: Result<UserRecord, DomainError>)
    ensures
        match found {
            Some(u) => r == Ok::<UserRecord, DomainError>(u),
            None => r == Err::<UserRecord, DomainError>(DomainError::InvalidCredentials),
        },
        found is None ==> forall|ok: bool, t: String|
            #![trigger login_outcome(found, ok, t)]
            Err::<(String, u128, String), DomainError>(r->Err_0) == login_outcome(found, ok, t),
{
    match found {
        Some(u) => Ok(u),
        None => Err(DomainError::InvalidCredentials),
    }
}

/// `a` is the `LoginFailure` draft of a login attempt for `username`: no
/// actor, no transfer, the username as the only metadata entry.
pub open spec fn login_failure_draft(
    a: AuditEventDraft,
    username: Seq<char>,
    request_id: Seq<char>,
    trace_id: Seq<char>,
    occurred_at: Timestamp,
) -> bool {
    &&& a.event_type == AuditEventType::LoginFailure
    &&& a.actor_user_id is None
    &&& a.transfer_id is None
    &&& a.request_id@ == request_id
    &&& a.trace_id@ == trace_id
    &&& metadata_view(a.metadata@) == seq![("username"@, username)]
    &&& a.occurred_at == occurred_at
}

/// The audit draft of a login whose password check gave `valid`:
/// `LoginSuccess` with the user as actor and no metadata, or
/// `LoginFailure` with no actor and the submitted username as the only
/// metadata entry.
pub fn login_audit(
    valid: bool,
    user_id: u128,
    username: &str,
    request_id: &str,
    trace_id: &str,
    occurred_at: Timestamp,
) -> (r: AuditEventDraft)
    ensures
        r.event_type == (if valid {
            AuditEventType::LoginSuccess
        } else {
            AuditEventType::LoginFailure
        }),
        r.actor_user_id == (if valid {
            Some(user_id)
        } else {
            None
        }),
        r.transfer_id is None,
        r.request_id@ == request_id@,
        r.trace_id@ == trace_id@,
        metadata_view(r.metadata@) == (if valid {
            Seq::<(Seq<char>, Seq<char>)>::empty()
        } else {
            seq![("username"@, username@)]
        }),
        r.occurred_at == occurred_at,
        !valid ==> login_failure_draft(r, username@, request_id@, trace_id@, occurred_at),
{
    let mut metadata: Vec<(String, String)> = Vec::new();
    if !valid {
        metadata.push((owned("username"), owned(username)));
    }
    assert(metadata_view(metadata@) =~= (if valid {
        Seq::<(Seq<char>, Seq<char>)>::empty()
    } else {
        seq![("username"@, username@)]
    }));
    AuditEventDraft {
        event_type: if valid {
            AuditEventType::LoginSuccess
        } else {
            AuditEventType::LoginFailure
        },
        actor_user_id: if valid {
            Some(user_id)
        } else {
            None
        },
        transfer_id: None,
        request_id: owned(request_id),
        trace_id: owned(trace_id),
        metadata,
        occurred_at,
    }
}

/// The refusal of a login for a username that does not exist:
/// `InvalidCredentials` and the same `LoginFailure` draft a wrong password
/// gives, so that both failures are audited alike.
pub fn unknown_user_refusal(
    username: &str,
    request_id: &str,
    trace_id: &str,
    occurred_at: Timestamp,
) -> (r: (DomainError, AuditEventDraft))
    ensures
        r.0 == DomainError::InvalidCredentials,
        login_failure_draft(r.1, username@, request_id@, trace_id@, occurred_at),
{
    (DomainError::InvalidCredentials, login_audit(false, 0, username, request_id, trace_id, occurred_at))
}

/// The reply to a login after the password check: `InvalidCredentials`
/// when it failed, else the issued token with the user's id and name.
pub fn login_reply(valid: bool, token: String, user: UserRecord) -> (r: Result<
    (String, u128, String),
    DomainError,
>)
    ensures
        !valid ==> r == Err::<(String, u128, String), DomainError>(DomainError::InvalidCredentials),
        valid ==> r == Ok::<(String, u128, String), DomainError>((token, user.id, user.username)),
        r == login_outcome(Some(user), valid, token),
{
    if !valid {
        return Err(DomainError::InvalidCredentials);
    }
    Ok((token, user.id, user.username))
}

/// The profile of the authenticated subject; an id that no longer resolves
/// is `UserNotFound`.
pub fn profile_of(found: Option<UserRecord>) -> (r: Result<(u128, String), DomainError>)
    ensures
        match found {
            Some(u) => r == Ok::<(u128, String), DomainError>((u.id, u.username)),
            None => r == Err::<(u128, String), DomainError>(DomainError::UserNotFound),
        },
{
    match found {
        Some(u) => Ok((u.id, u.username)),
        None => Err(DomainError::UserNotFound),
    }
}

/// Metrics label of a login attempt: `"success"` for a login that went
/// through, `"failure"` for invalid credentials, none for other errors.
pub fn login_attempt_label(result: &Result<(String, u128, String), DomainError>) -> (r: Option<
    &'static str,
>)
    ensures
        match result {
            Ok(_) => r matches Some(l) && l@ == "success"@,
            Err(DomainError::InvalidCredentials) => r matches Some(l) && l@ == "failure"@,
            Err(_) => r is None,
        },
{
    match result {
        Ok(_) => Some("success"),
        Err(DomainError::InvalidCredentials) => Some("failure"),
        Err(_) => None,
    }
}

} // verus!
