use std::time::{Duration, SystemTime, UNIX_EPOCH};

use ficus::api_error::{domain_status, ApiError};
use ficus::db_errors::{is_retryable_db_error, map_balance_constraint, map_db_err, map_txn_err, DbError, DbErrorKind};
use ficus::dto::{feed_page, BalanceResponse, TransferResponse, UserSearchItem};
use ficus::errors::DomainError;
use ficus::feed::feed_channel_capacity;
use ficus::health::{live, ready};
use ficus::http_config::{cors_allowed_origins, docs_enabled};
use ficus::mapper::{
    decode_cursor, decode_user_cursor, encode_cursor, encode_user_cursor, status_code_column,
    take_page, transfer_status_from_db, transfer_status_to_db, username_prefix_pattern,
};
use ficus::rate_limit::{login_rate_key, transfer_rate_key, RateLimiter, SlidingWindow};
use ficus::records::{BalanceRecord, FeedItem, Page, TransferRecord, UserRecord};
use ficus::request_guard::{
    client_ip, correlation_id, extract_bearer_token, idempotency_key_header, require_metrics_auth,
    MetricsRejection, RequestContext,
};
use ficus::sql::{advisory_lock_sql, notify_sql};
use ficus::timestamp::Timestamp;
use ficus::transfer::TransferStatus;

#[test]
fn transfer_status_round_trip() {
    assert_eq!(
        transfer_status_from_db(transfer_status_to_db(TransferStatus::Completed)).unwrap(),
        TransferStatus::Completed
    );
    assert_eq!(
        transfer_status_from_db(transfer_status_to_db(TransferStatus::Declined)).unwrap(),
        TransferStatus::Declined
    );
}

#[test]
fn cursor_round_trip() {
    let id = uuid::Uuid::new_v4().as_u128();
    let now = SystemTime::now().duration_since(UNIX_EPOCH).unwrap();
    let ts = Timestamp { secs: now.as_secs() as i64, nanos: now.subsec_nanos() };
    let cursor = encode_cursor(ts, id).unwrap();
    let (decoded_ts, decoded_id) = decode_cursor(&cursor).unwrap();
    assert_eq!(decoded_id, id);
    assert_eq!(decoded_ts.secs, ts.secs);
}

#[test]
fn cursor_known_text_and_errors() {
    let ts = Timestamp { secs: 1_700_000_000, nanos: 5 };
    let c = encode_cursor(ts, 1).unwrap();
    assert_eq!(c, "2023-11-14T22:13:20.000000005+00:00|00000000-0000-0000-0000-000000000001");
    assert_eq!(decode_cursor(&c).unwrap(), (ts, 1));
    assert_eq!(decode_cursor("nobar"), Err(DomainError::Validation("invalid cursor".to_string())));
    assert_eq!(
        decode_cursor("yesterday|00000000-0000-0000-0000-000000000001"),
        Err(DomainError::Validation("invalid cursor timestamp".to_string()))
    );
    assert_eq!(
        decode_cursor("2023-11-14T22:13:20+00:00|zzz"),
        Err(DomainError::Validation("invalid cursor id".to_string()))
    );
    assert_eq!(
        transfer_status_from_db("pending"),
        Err(DomainError::Validation("unknown transfer status: pending".to_string()))
    );
}

#[test]
fn user_cursor_round_trip_and_pattern() {
    let c = encode_user_cursor("alice", 2);
    assert_eq!(c, "alice|00000000-0000-0000-0000-000000000002");
    assert_eq!(decode_user_cursor(&c).unwrap(), ("alice".to_string(), 2));
    assert_eq!(username_prefix_pattern("al"), "al%");
    assert_eq!(username_prefix_pattern("a_b%c\\"), "a\\_b\\%c\\\\%");
}

#[test]
fn page_splitting() {
    let (items, more) = take_page(vec![1, 2, 3], 2);
    assert_eq!(items, vec![1, 2]);
    assert!(more);
    let (items, more) = take_page(vec![1, 2], 2);
    assert_eq!(items, vec![1, 2]);
    assert!(!more);
    assert_eq!(status_code_column(200), 200);
    assert_eq!(status_code_column(65535), -1);
}

#[test]
fn sql_statements_escape_quotes() {
    assert_eq!(
        notify_sql("it's"),
        "NOTIFY ficus_feed_events, 'it''s'"
    );
    assert_eq!(
        advisory_lock_sql(1, "k'1"),
        "SELECT pg_advisory_xact_lock(hashtext('00000000-0000-0000-0000-000000000001:k''1'))"
    );
}

#[test]
fn database_error_mapping() {
    let ser = DbError {
        kind: DbErrorKind::Query,
        detail: "ERROR: Could not serialize access due to concurrent update".to_string(),
        display: "Query Error: could not serialize access".to_string(),
    };
    assert!(is_retryable_db_error(&ser));
    assert_eq!(
        map_txn_err(&ser),
        DomainError::Validation("serialization failure: Query Error: could not serialize access".to_string())
    );
    let chk = DbError {
        kind: DbErrorKind::Exec,
        detail: "violates check".to_string(),
        display: "violates CHK_ACCOUNT_BALANCES_NON_NEGATIVE".to_string(),
    };
    assert_eq!(map_balance_constraint(&chk), Some(DomainError::NegativeBalance));
    assert_eq!(map_txn_err(&chk), DomainError::NegativeBalance);
    let missing = DbError { kind: DbErrorKind::RecordNotFound, detail: String::new(), display: String::new() };
    assert_eq!(map_db_err(&missing), DomainError::Validation("record not found".to_string()));
    let other = DbError { kind: DbErrorKind::Conn, detail: "serialization failure".to_string(), display: String::new() };
    assert!(!is_retryable_db_error(&other));
    assert_eq!(map_db_err(&other), DomainError::Validation("database operation failed".to_string()));
}

#[test]
fn api_error_status_and_body() {
    assert_eq!(ApiError::Domain(DomainError::InvalidCredentials).status(), 401);
    assert_eq!(ApiError::Domain(DomainError::IdempotencyConflict).status(), 409);
    assert_eq!(ApiError::Domain(DomainError::SelfTransfer).status(), 422);
    assert_eq!(ApiError::Domain(DomainError::NegativeBalance).status(), 500);
    assert_eq!(ApiError::RateLimited.status(), 429);
    assert_eq!(ApiError::MissingIdempotencyKey.status(), 400);
    assert_eq!(domain_status(&DomainError::TransferNotFound), 404);
    assert_eq!(domain_status(&DomainError::RecipientNotFound), 422);
    assert_eq!(ApiError::Domain(DomainError::RecipientNotFound).status(), 422);
    let b = ApiError::Domain(DomainError::InvalidMoney("invalid amount".to_string())).body();
    assert_eq!(b.code, "INVALID_MONEY");
    assert_eq!(b.message, "invalid amount");
    let b = ApiError::Domain(DomainError::UnbalancedLedger).body();
    assert_eq!(b.code, "DOMAIN_ERROR");
    assert_eq!(b.message, "Request could not be completed");
    let b = ApiError::MissingIdempotencyKey.body();
    assert_eq!(b.code, "MISSING_IDEMPOTENCY_KEY");
    assert_eq!(ApiError::Internal.body().message, "Internal server error");
    let leak = ApiError::Domain(DomainError::Validation(
        "serialization failure: Query Error: could not serialize access".to_string(),
    ))
    .body();
    assert_eq!((leak.code.as_str(), leak.message.as_str()), ("VALIDATION_ERROR", "serialization failure"));
    assert_eq!(
        ApiError::Domain(DomainError::Validation("query must be 1-32 characters".to_string())).body().message,
        "query must be 1-32 characters"
    );
    assert_eq!(ApiError::Validation("x".to_string()).message(), "validation error: x");
    assert_eq!(ApiError::Unauthorized.message(), "unauthorized");
}

#[test]
fn bearer_token_extraction() {
    assert_eq!(extract_bearer_token(Some("Bearer abc")).unwrap(), "abc");
    assert_eq!(extract_bearer_token(Some("bearer abc")).unwrap(), "abc");
    assert_eq!(extract_bearer_token(Some("Bearer ")), Err(ApiError::Unauthorized));
    assert_eq!(extract_bearer_token(Some("Basic abc")), Err(ApiError::Unauthorized));
    assert_eq!(extract_bearer_token(Some("BEARER abc")).unwrap(), "abc");
    assert_eq!(extract_bearer_token(Some("bEaReR t")).unwrap(), "t");
    assert_eq!(extract_bearer_token(Some("Bearerabc")), Err(ApiError::Unauthorized));
    assert_eq!(extract_bearer_token(None), Err(ApiError::Unauthorized));
}

#[test]
fn metrics_guard_policy() {
    assert_eq!(require_metrics_auth(None, "development", None), Ok(()));
    assert_eq!(require_metrics_auth(None, "test", None), Ok(()));
    assert_eq!(require_metrics_auth(None, "production", None), Err(MetricsRejection::Disabled));
    assert_eq!(require_metrics_auth(Some("s3"), "development", None), Err(MetricsRejection::Denied));
    assert_eq!(require_metrics_auth(Some("s3"), "production", Some("Bearer s3")), Ok(()));
    assert_eq!(
        require_metrics_auth(Some("s3"), "production", Some("bearer s3")),
        Err(MetricsRejection::Denied)
    );
    assert_eq!(MetricsRejection::Disabled.status(), 404);
    assert_eq!(MetricsRejection::Disabled.message(), "metrics endpoint disabled in this environment");
    assert_eq!(MetricsRejection::Denied.status(), 401);
    assert_eq!(MetricsRejection::Denied.message(), "metrics access denied");
}

#[test]
fn client_address_resolution() {
    assert_eq!(client_ip(true, Some(" 10.0.0.1 , 10.0.0.2"), Some("9.9.9.9"), None), "10.0.0.1");
    assert_eq!(client_ip(true, Some("  ,x"), Some("9.9.9.9"), None), "9.9.9.9");
    assert_eq!(client_ip(true, None, Some("9.9.9.9"), Some("1.2.3.4".to_string())), "9.9.9.9");
    assert_eq!(client_ip(false, Some("10.0.0.1"), None, Some("1.2.3.4".to_string())), "1.2.3.4");
    assert_eq!(client_ip(true, None, None, None), "unknown");
}

#[test]
fn idempotency_header_and_correlation() {
    assert_eq!(idempotency_key_header(Some("  k-1  ")).unwrap(), "k-1");
    assert_eq!(idempotency_key_header(Some("   ")), Err(ApiError::MissingIdempotencyKey));
    assert_eq!(idempotency_key_header(None), Err(ApiError::MissingIdempotencyKey));
    assert_eq!(correlation_id(Some("abc")), "abc");
    let generated = correlation_id(Some(""));
    assert_eq!(generated.len(), 36);
    assert_ne!(generated, correlation_id(None));
    let ctx = RequestContext::from_headers(Some("r1"), None);
    assert_eq!(ctx.request_id, "r1");
    assert_eq!(ctx.trace_id.len(), 36);
}

#[test]
fn response_shapes() {
    let b = BalanceResponse::from_record(BalanceRecord {
        account_id: 1,
        balance_minor: -20,
        currency_code: "USD".to_string(),
    });
    assert_eq!(b.balance_minor, "-20");
    let rec = TransferRecord {
        id: 3,
        sender_account_id: 1,
        recipient_account_id: 2,
        sender_user_id: 4,
        recipient_user_id: 5,
        sender_username: "a".to_string(),
        recipient_username: "b".to_string(),
        amount_minor: 10,
        currency_code: "USD".to_string(),
        description: None,
        status: TransferStatus::Declined,
        created_at: Timestamp { secs: 0, nanos: 0 },
    };
    let r = TransferResponse::from_record(rec.clone());
    assert_eq!(r.status, "DECLINED");
    assert_eq!(r.sender_balance_minor, "0");
    let r = TransferResponse::with_sender_balance(rec, 990);
    assert_eq!(r.sender_balance_minor, "990");
    let u = UserSearchItem::from_record(&UserRecord {
        id: 8,
        username: "zoe".to_string(),
        password_hash: "secret".to_string(),
    });
    assert_eq!((u.user_id, u.username.as_str()), (8, "zoe"));
    let item = FeedItem {
        transfer_id: 1,
        sender_username: "a".to_string(),
        recipient_username: "b".to_string(),
        amount_minor: "5".to_string(),
        currency: "USD".to_string(),
        description: Some("d".to_string()),
        created_at: Timestamp { secs: 0, nanos: 0 },
    };
    let page = feed_page(&Page { items: vec![item], next_cursor: Some("c".to_string()) });
    assert_eq!(page.items.len(), 1);
    assert_eq!(page.items[0].amount_minor, "5");
    assert_eq!(page.next_cursor.as_deref(), Some("c"));
}

#[test]
fn health_probes() {
    assert_eq!(live().status, "ok");
    assert_eq!(ready(None).0, 200);
    assert_eq!(ready(Some(true)).1.status, "ok");
    let (code, body) = ready(Some(false));
    assert_eq!((code, body.status), (503, "not_ready"));
}

#[test]
fn router_settings() {
    assert_eq!(feed_channel_capacity(1), 16);
    assert_eq!(feed_channel_capacity(64), 64);
    assert_eq!(
        cors_allowed_origins(&vec!["https://a.example".to_string(), "bad\norigin".to_string()]),
        vec!["https://a.example".to_string()]
    );
    assert_eq!(cors_allowed_origins(&vec!["bad\u{7f}".to_string()]), vec!["http://localhost".to_string()]);
    assert_eq!(cors_allowed_origins(&vec![]), vec!["http://localhost".to_string()]);
    assert!(docs_enabled("development"));
    assert!(docs_enabled("test"));
    assert!(!docs_enabled("production"));
}

#[test]
fn rate_limiter_refuses_over_quota() {
    let limiter = RateLimiter::new(2, Duration::from_secs(60));
    assert!(limiter.check("login:1.2.3.4").is_ok());
    assert!(limiter.check("login:1.2.3.4").is_ok());
    assert_eq!(limiter.check("login:1.2.3.4"), Err(ApiError::RateLimited));
    assert!(limiter.check("login:5.6.7.8").is_ok());
    let shared = limiter.clone();
    assert_eq!(shared.check("login:5.6.7.8").is_ok(), true);
    assert_eq!(shared.check("login:5.6.7.8"), Err(ApiError::RateLimited));
    assert_eq!(login_rate_key("1.2.3.4"), "login:1.2.3.4");
    assert_eq!(transfer_rate_key(Some(1), "p"), "transfer:00000000-0000-0000-0000-000000000001");
    assert_eq!(transfer_rate_key(None, "1.2.3.4"), "transfer:1.2.3.4");
}

#[test]
fn sliding_window_drops_old_requests() {
    let mut w = SlidingWindow::default();
    assert!(w.record_request(0, 100, 1));
    assert!(!w.record_request(50, 100, 1));
    assert_eq!(w.stamps, vec![0]);
    assert!(w.record_request(100, 100, 1));
    assert_eq!(w.stamps, vec![100]);
}

#[test]
fn rate_limiter_zero_quota_refuses_all() {
    let limiter = RateLimiter::new(0, Duration::from_secs(60));
    assert_eq!(limiter.check("login:1.2.3.4"), Err(ApiError::RateLimited));
    assert_eq!(limiter.check("login:9.9.9.9"), Err(ApiError::RateLimited));
}
