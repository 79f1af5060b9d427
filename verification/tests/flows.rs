use ficus::audit::AuditEventType;
use ficus::auth_flow::{
    credentials_user, login_attempt_label, login_audit, login_reply, profile_of, unknown_user_refusal,
};
use ficus::idempotency::hash_idempotency_key;
use ficus::currency::Currency;
use ficus::errors::DomainError;
use ficus::money::Money;
use ficus::records::{IdempotencyRecord, TransferRecord, UserRecord};
use ficus::settlement::{
    after_failure, check_stored, is_retryable_domain, jitter_backoff, lock_order, replay_result,
    requested_audit, resolve_accounts, resolve_parties, settle, should_retry, transfer_metadata,
    validate_transfer_request, BalanceRow, StoredOutcome, TransferContext, UserRow,
};
use ficus::timestamp::Timestamp;
use ficus::transfer::TransferStatus;
use ficus::transfer_flow::{after_lookup, begin_transfer, feed_item_for, transfer_outcome_label, TransferStep};
use ficus::user_flow::{require_account, validate_search_query};

const SENDER: u128 = 0x550e8400_e29b_41d4_a716_446655440000;

fn record(status: TransferStatus) -> TransferRecord {
    TransferRecord {
        id: 77,
        sender_account_id: 1,
        recipient_account_id: 2,
        sender_user_id: SENDER,
        recipient_user_id: 5,
        sender_username: "alice".to_string(),
        recipient_username: "bob".to_string(),
        amount_minor: 1500,
        currency_code: "USD".to_string(),
        description: Some("lunch".to_string()),
        status,
        created_at: Timestamp { secs: 1_700_000_000, nanos: 0 },
    }
}

fn context() -> TransferContext {
    TransferContext {
        transfer_id: 77,
        sender_user_id: SENDER,
        sender_username: "alice".to_string(),
        recipient_user_id: 5,
        recipient_username: "bob".to_string(),
        sender_account_id: 1,
        recipient_account_id: 2,
        description: None,
        request_id: "req-1".to_string(),
        trace_id: "trace-1".to_string(),
    }
}

fn usd_row(balance: i64) -> BalanceRow {
    BalanceRow { balance_minor: balance, currency_code: "USD".to_string() }
}

#[test]
fn begin_transfer_rejects_bad_key() {
    assert_eq!(
        begin_transfer(SENDER, "bob", "1500", "USD", None, "bad"),
        Err(DomainError::InvalidIdempotencyKey)
    );
}

#[test]
fn begin_transfer_fingerprints_sender_uuid_text() {
    let fp = begin_transfer(SENDER, "bob", "1500", "USD", None, "retry-key-0001").unwrap();
    assert_eq!(fp, "b3422298c55271d6fb574d074590424f25e4635e167dd6bed868ea1a2e7152e8");
    let with_desc = begin_transfer(SENDER, "bob", "1500", "USD", Some("x"), "retry-key-0001").unwrap();
    assert_ne!(fp, with_desc);
}

#[test]
fn lookup_conflict_replay_and_execute() {
    let fp = "abc";
    let same = Some(IdempotencyRecord {
        fingerprint: "abc".to_string(),
        response_body: "{}".to_string(),
        status_code: 200,
    });
    let other = Some(IdempotencyRecord {
        fingerprint: "xyz".to_string(),
        response_body: "{}".to_string(),
        status_code: 200,
    });
    assert!(matches!(after_lookup(&same, fp, "not a number"), TransferStep::Replay));
    assert!(matches!(
        after_lookup(&other, fp, "10"),
        TransferStep::Refuse(DomainError::IdempotencyConflict)
    ));
    assert!(matches!(after_lookup(&None, fp, "1500"), TransferStep::Execute(1500)));
    assert!(matches!(after_lookup(&None, fp, "-3"), TransferStep::Execute(-3)));
    match after_lookup(&None, fp, "1.5") {
        TransferStep::Refuse(e) => assert_eq!(e, DomainError::InvalidMoney("invalid amount".to_string())),
        _ => panic!("expected a refusal"),
    }
    assert_eq!(check_stored(&None, fp), StoredOutcome::Proceed);
    assert_eq!(check_stored(&same, fp), StoredOutcome::Replay);
    assert_eq!(check_stored(&other, fp), StoredOutcome::Conflict);
}

#[test]
fn feed_item_only_for_completed() {
    assert!(feed_item_for(&record(TransferStatus::Declined)).is_none());
    let item = feed_item_for(&record(TransferStatus::Completed)).unwrap();
    assert_eq!(item.transfer_id, 77);
    assert_eq!(item.amount_minor, "1500");
    assert_eq!(item.sender_username, "alice");
    assert_eq!(item.description.as_deref(), Some("lunch"));
    assert_eq!(transfer_outcome_label(Some(TransferStatus::Completed)), "completed");
    assert_eq!(transfer_outcome_label(Some(TransferStatus::Declined)), "declined");
    assert_eq!(transfer_outcome_label(None), "error");
}

#[test]
fn replay_result_corrupt_body() {
    assert_eq!(
        replay_result(None).unwrap_err(),
        DomainError::Validation("stored response corrupt".to_string())
    );
    assert_eq!(replay_result(Some(record(TransferStatus::Completed))).unwrap().id, 77);
}

#[test]
fn login_decisions() {
    assert_eq!(credentials_user(None).unwrap_err(), DomainError::InvalidCredentials);
    let user = UserRecord { id: 9, username: "alice".to_string(), password_hash: "h".to_string() };
    assert_eq!(credentials_user(Some(user.clone())).unwrap().id, 9);
    assert_eq!(
        login_reply(false, "tok".to_string(), user.clone()),
        Err(DomainError::InvalidCredentials)
    );
    assert_eq!(
        login_reply(true, "tok".to_string(), user.clone()).unwrap(),
        ("tok".to_string(), 9, "alice".to_string())
    );
    assert_eq!(profile_of(None), Err(DomainError::UserNotFound));
    assert_eq!(profile_of(Some(user)).unwrap(), (9, "alice".to_string()));
}

#[test]
fn login_audit_drafts() {
    let now = Timestamp { secs: 10, nanos: 0 };
    let fail = login_audit(false, 9, "alice", "r", "t", now);
    assert_eq!(fail.event_type, AuditEventType::LoginFailure);
    assert_eq!(fail.actor_user_id, None);
    assert_eq!(fail.metadata, vec![("username".to_string(), "alice".to_string())]);
    let ok = login_audit(true, 9, "alice", "r", "t", now);
    assert_eq!(ok.event_type, AuditEventType::LoginSuccess);
    assert_eq!(ok.actor_user_id, Some(9));
    assert!(ok.metadata.is_empty());
    assert_eq!(ok.request_id, "r");
    assert_eq!(ok.trace_id, "t");
}

#[test]
fn login_labels() {
    assert_eq!(login_attempt_label(&Ok(("t".to_string(), 1, "a".to_string()))), Some("success"));
    assert_eq!(login_attempt_label(&Err(DomainError::InvalidCredentials)), Some("failure"));
    assert_eq!(login_attempt_label(&Err(DomainError::UserNotFound)), None);
}

#[test]
fn search_query_bounds() {
    assert!(validate_search_query("al").is_ok());
    assert_eq!(
        validate_search_query("   "),
        Err(DomainError::Validation("query must be 1-32 characters".to_string()))
    );
    assert!(validate_search_query(&"a".repeat(32)).is_ok());
    assert!(validate_search_query(&"a".repeat(33)).is_err());
    assert!(validate_search_query(&"é".repeat(17)).is_ok());
    assert!(validate_search_query(&"é".repeat(32)).is_ok());
    assert!(validate_search_query(&"é".repeat(33)).is_err());
    assert_eq!(require_account(None), Err(DomainError::AccountNotFound));
    assert_eq!(require_account(Some(4)), Ok(4));
}

#[test]
fn transfer_request_validation() {
    assert_eq!(validate_transfer_request("usd", 10).unwrap().amount_minor(), 10);
    assert_eq!(
        validate_transfer_request("gbp", 10).unwrap_err(),
        DomainError::UnsupportedCurrency("GBP".to_string())
    );
    assert_eq!(
        validate_transfer_request("USD", 0).unwrap_err(),
        DomainError::InvalidMoney("transfer amount must be positive".to_string())
    );
}

#[test]
fn party_and_account_resolution() {
    let alice = UserRow { id: SENDER, username: "alice".to_string() };
    let bob = UserRow { id: 5, username: "bob".to_string() };
    assert_eq!(resolve_parties(SENDER, None, Some(bob.clone())).unwrap_err(), DomainError::UserNotFound);
    assert_eq!(resolve_parties(SENDER, Some(alice.clone()), None).unwrap_err(), DomainError::RecipientNotFound);
    assert_eq!(
        resolve_parties(SENDER, Some(alice.clone()), Some(alice.clone())).unwrap_err(),
        DomainError::SelfTransfer
    );
    assert_eq!(resolve_parties(SENDER, Some(alice), Some(bob)).unwrap().1.id, 5);
    assert_eq!(resolve_accounts(Some(1), None), Err(DomainError::AccountNotFound));
    assert_eq!(resolve_accounts(Some(1), Some(1)), Err(DomainError::SelfTransfer));
    assert_eq!(resolve_accounts(Some(1), Some(2)), Ok((1, 2)));
    assert_eq!(lock_order(9, 3), (3, 9));
    assert_eq!(lock_order(3, 9), (3, 9));
}

#[test]
fn settlement_moves_money_and_conserves_total() {
    let ctx = context();
    let money = Money::transfer_amount(300, Currency::Usd).unwrap();
    let now = Timestamp { secs: 1_700_000_000, nanos: 5 };
    let s = settle(&ctx, &money, Some(usd_row(1000)), Some(usd_row(50)), now).unwrap();
    assert_eq!(s.new_sender_balance, 700);
    assert_eq!(s.new_recipient_balance, 350);
    assert_eq!(s.new_sender_balance + s.new_recipient_balance, 1050);
    assert_eq!(s.record.status, TransferStatus::Completed);
    assert_eq!(s.record.amount_minor, 300);
    assert_eq!(s.entries[0].account_id, 1);
    assert_eq!(s.entries[1].account_id, 2);
    assert_eq!(s.completed_audit.event_type, AuditEventType::TransferCompleted);
    assert_eq!(s.completed_audit.transfer_id, Some(77));
}

#[test]
fn settlement_refusals() {
    let ctx = context();
    let money = Money::transfer_amount(300, Currency::Usd).unwrap();
    let now = Timestamp { secs: 1, nanos: 0 };
    let f = settle(&ctx, &money, Some(usd_row(100)), Some(usd_row(0)), now).unwrap_err();
    assert_eq!(f.error, DomainError::InsufficientFunds);
    let audit = f.audit.unwrap();
    assert_eq!(audit.event_type, AuditEventType::TransferDeclined);
    assert_eq!(audit.metadata[0], ("reason".to_string(), "insufficient_funds".to_string()));
    let f = settle(&ctx, &money, None, Some(usd_row(0)), now).unwrap_err();
    assert_eq!(f.error, DomainError::AccountNotFound);
    assert!(f.audit.is_none());
    let eur = BalanceRow { balance_minor: 1000, currency_code: "EUR".to_string() };
    let f = settle(&ctx, &money, Some(eur), Some(usd_row(0)), now).unwrap_err();
    assert_eq!(f.error, DomainError::UnsupportedCurrency("USD".to_string()));
    let f = settle(&ctx, &money, Some(usd_row(1000)), Some(usd_row(i64::MAX)), now).unwrap_err();
    assert_eq!(f.error, DomainError::InvalidMoney("overflow".to_string()));
}

#[test]
fn requested_audit_metadata_in_key_order() {
    let ctx = context();
    let money = Money::transfer_amount(300, Currency::Usd).unwrap();
    let a = requested_audit(&ctx, &money, "key-0001x", "fp", Timestamp { secs: 1, nanos: 0 });
    assert_eq!(a.event_type, AuditEventType::TransferRequested);
    let keys: Vec<&str> = a.metadata.iter().map(|(k, _)| k.as_str()).collect();
    assert_eq!(
        keys,
        vec!["amount_minor", "currency_code", "fingerprint", "idempotency_key", "recipient_username", "transfer_id"]
    );
    assert_eq!(a.metadata[5].1, "00000000-0000-0000-0000-00000000004d");
    assert_eq!(a.metadata[3].1, hash_idempotency_key("key-0001x"));
    let m = transfer_metadata("retry-key-01", "f", "bob", 100, "USD");
    assert_eq!(m[0], ("amount_minor".to_string(), "100".to_string()));
    assert_eq!(m[1].1, "USD");
    assert_eq!(m[2].1, "f");
    assert_eq!(m[3], ("idempotency_key".to_string(), hash_idempotency_key("retry-key-01")));
    assert_eq!(m[4].1, "bob");
    assert!(m.iter().all(|(_, v)| v != "retry-key-01"));
}

#[test]
fn retry_policy() {
    let ser = DomainError::Validation("serialization failure: x".to_string());
    let dead = DomainError::Validation("deadlock detected".to_string());
    assert!(is_retryable_domain(&ser));
    assert!(is_retryable_domain(&dead));
    assert!(!is_retryable_domain(&DomainError::InsufficientFunds));
    assert!(should_retry(&ser, 4));
    assert!(!should_retry(&ser, 5));
    assert_eq!(after_failure(&ser, 5), None);
    assert_eq!(after_failure(&DomainError::SelfTransfer, 0), None);
    let (next, delay) = after_failure(&ser, 0).unwrap();
    assert_eq!(next, 1);
    assert!((50..=75).contains(&delay));
    for _ in 0..20 {
        let d = jitter_backoff(0);
        assert!((25..=37).contains(&d));
        let d = jitter_backoff(9);
        assert!((250..=375).contains(&d));
    }
}

#[test]
fn unknown_user_login_is_audited_like_a_wrong_password() {
    let now = Timestamp { secs: 10, nanos: 0 };
    let (err, draft) = unknown_user_refusal("ghost", "r", "t", now);
    assert_eq!(err, DomainError::InvalidCredentials);
    let wrong = login_audit(false, 9, "ghost", "r", "t", now);
    assert_eq!(draft.event_type, AuditEventType::LoginFailure);
    assert_eq!(draft.actor_user_id, None);
    assert_eq!(draft.metadata, vec![("username".to_string(), "ghost".to_string())]);
    assert_eq!(draft.metadata, wrong.metadata);
    assert_eq!(draft.actor_user_id, wrong.actor_user_id);
}
