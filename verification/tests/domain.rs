use std::str::FromStr;

use ficus::account::Account;
use ficus::audit::AuditEventType;
use ficus::currency::Currency;
use ficus::decimal::{i64_text, parse_i64, u64_text};
use ficus::errors::DomainError;
use ficus::idempotency::{hash_idempotency_key, request_fingerprint, validate_idempotency_key};
use ficus::mapper::{decode_user_cursor, encode_user_cursor};
use ficus::ledger::{build_transfer_entries, reconstruct_balance, validate_balanced, LedgerDirection, LedgerEntryDraft};
use ficus::money::Money;
use ficus::user::User;

#[test]
fn parses_usd() {
    assert_eq!(Currency::from_str("usd").unwrap(), Currency::Usd);
}

#[test]
fn accepts_uuid_key() {
    assert!(validate_idempotency_key("550e8400-e29b-41d4-a716-446655440000"));
}

#[test]
fn rejects_empty_key() {
    assert!(!validate_idempotency_key(""));
}

#[test]
fn fingerprint_changes_with_payload() {
    let a = request_fingerprint("u1", "bob", "100", "USD", "lunch");
    let b = request_fingerprint("u1", "bob", "200", "USD", "lunch");
    assert_ne!(a, b);
}

#[test]
fn transfer_entries_balance() {
    let amount = Money::transfer_amount(100, Currency::Usd).unwrap();
    let tid = 0x1111u128;
    let sender = 0x2222u128;
    let recipient = 0x3333u128;
    let entries = build_transfer_entries(tid, sender, recipient, &amount).unwrap();
    assert_eq!(entries[0].direction, LedgerDirection::Debit);
    assert_eq!(entries[1].direction, LedgerDirection::Credit);
    validate_balanced(&entries).unwrap();
}

#[test]
fn transfer_amount_rejects_zero() {
    assert!(Money::transfer_amount(0, Currency::Usd).is_err());
}

#[test]
fn currency_rejects_unknown_code_with_upper_case_form() {
    assert_eq!(
        Currency::from_str("eur"),
        Err(DomainError::UnsupportedCurrency("EUR".to_string()))
    );
    assert_eq!(Currency::Usd.code(), "USD");
    assert_eq!(Currency::Usd.to_string(), "USD");
}

#[test]
fn money_from_minor_rejects_negative() {
    assert_eq!(
        Money::from_minor(-1, Currency::Usd).unwrap_err(),
        DomainError::InvalidMoney("amount cannot be negative".to_string())
    );
    let m = Money::from_minor(0, Currency::Usd).unwrap();
    assert_eq!(m.amount_minor(), 0);
    assert_eq!(m.currency(), Currency::Usd);
}

#[test]
fn money_transfer_amount_messages() {
    assert_eq!(
        Money::transfer_amount(-5, Currency::Usd).unwrap_err(),
        DomainError::InvalidMoney("transfer amount must be positive".to_string())
    );
    assert_eq!(Money::transfer_amount(7, Currency::Usd).unwrap().amount_minor(), 7);
}

#[test]
fn money_parse_minor_outcomes() {
    assert_eq!(Money::parse_minor(" 1500 ", Currency::Usd).unwrap().amount_minor(), 1500);
    assert_eq!(
        Money::parse_minor("   ", Currency::Usd).unwrap_err(),
        DomainError::InvalidMoney("empty amount".to_string())
    );
    assert_eq!(
        Money::parse_minor("-5", Currency::Usd).unwrap_err(),
        DomainError::InvalidMoney("negative amount".to_string())
    );
    assert_eq!(
        Money::parse_minor("1.50", Currency::Usd).unwrap_err(),
        DomainError::InvalidMoney("fractional minor units not allowed".to_string())
    );
    assert_eq!(
        Money::parse_minor("12abc", Currency::Usd).unwrap_err(),
        DomainError::InvalidMoney("invalid amount: 12abc".to_string())
    );
    assert_eq!(Money::parse_minor("+42", Currency::Usd).unwrap().amount_minor(), 42);
    assert!(Money::parse_minor("9223372036854775808", Currency::Usd).is_err());
    assert_eq!(
        Money::parse_minor("9223372036854775807", Currency::Usd).unwrap().amount_minor(),
        i64::MAX
    );
}

#[test]
fn money_fractional_inputs_always_rejected() {
    for input in [".5", "-.5", "0.0", "12.34", "-3.0", "999.1"] {
        assert!(Money::parse_minor(input, Currency::Usd).is_err(), "{input}");
    }
}

#[test]
fn money_arithmetic_and_laws() {
    let a = Money::from_minor(700, Currency::Usd).unwrap();
    let b = Money::from_minor(300, Currency::Usd).unwrap();
    let sum = a.checked_add(&b).unwrap();
    assert_eq!(sum.amount_minor(), 1000);
    let back = sum.checked_sub(&b).unwrap();
    assert_eq!(back.amount_minor(), 700);
    assert_eq!(b.checked_add(&a).unwrap().amount_minor(), 1000);
    assert_eq!(
        b.checked_sub(&a).unwrap_err(),
        DomainError::InvalidMoney("amount cannot be negative".to_string())
    );
    let max = Money::from_minor(i64::MAX, Currency::Usd).unwrap();
    assert_eq!(
        max.checked_add(&b).unwrap_err(),
        DomainError::InvalidMoney("overflow".to_string())
    );
    assert_eq!(Money::zero(Currency::Usd).amount_minor(), 0);
    assert_eq!(a.to_string(), "700 USD");
    assert_eq!(Money::from_str("25").unwrap().amount_minor(), 25);
}

#[test]
fn ledger_pair_shape_and_reconstruction() {
    let amount = Money::transfer_amount(250, Currency::Usd).unwrap();
    let entries = build_transfer_entries(9, 1, 2, &amount).unwrap();
    assert_eq!(entries[0].account_id, 1);
    assert_eq!(entries[1].account_id, 2);
    assert_eq!(entries[0].amount_minor, 250);
    assert_eq!(entries[0].signed_amount(), -250);
    assert_eq!(entries[1].signed_amount(), 250);
    assert_eq!(reconstruct_balance(1, &entries), -250);
    assert_eq!(reconstruct_balance(2, &entries), 250);
    assert_eq!(reconstruct_balance(3, &entries), 0);
}

#[test]
fn ledger_entries_balance_for_many_amounts() {
    for amount in [1i64, 2, 99, 10_000, 9_999_999] {
        let money = Money::transfer_amount(amount, Currency::Usd).unwrap();
        let entries = build_transfer_entries(5, 6, 7, &money).unwrap();
        assert!(validate_balanced(&entries).is_ok());
    }
}

#[test]
fn ledger_rejects_unbalanced_entries() {
    let debit = LedgerEntryDraft {
        account_id: 1,
        transfer_id: 9,
        amount_minor: 100,
        direction: LedgerDirection::Debit,
        currency: Currency::Usd,
    };
    let credit = LedgerEntryDraft { account_id: 2, amount_minor: 90, direction: LedgerDirection::Credit, ..debit };
    assert_eq!(validate_balanced(&[debit, credit]), Err(DomainError::UnbalancedLedger));
    assert_eq!(validate_balanced(&[]), Ok(()));
}

#[test]
fn idempotency_key_rules() {
    assert!(validate_idempotency_key("  abcdEFGH-123_x  "));
    assert!(!validate_idempotency_key("short"));
    assert!(!validate_idempotency_key("has space inside"));
    assert!(!validate_idempotency_key(&"a".repeat(129)));
    assert!(validate_idempotency_key(&"a".repeat(128)));
    assert!(validate_idempotency_key("{550e8400-e29b-41d4-a716-446655440000}"));
    assert!(validate_idempotency_key("550e8400e29b41d4a716446655440000"));
}

#[test]
fn fingerprint_known_value() {
    assert_eq!(
        request_fingerprint("u1", "bob", "100", "USD", "lunch"),
        "28b98517b847fd5987695d2feff392af79b20c217000de5d6e5525b5cc5f578c"
    );
    assert_eq!(hash_idempotency_key("key-12345"), "39833c5d17a1f1d9");
}

#[test]
fn uuid_text_round_trip_values() {
    let id = 0x550e8400_e29b_41d4_a716_446655440000u128;
    let cursor = encode_user_cursor("u", id);
    assert_eq!(cursor, "u|550e8400-e29b-41d4-a716-446655440000");
    assert_eq!(decode_user_cursor(&cursor).unwrap().1, id);
    assert_eq!(decode_user_cursor(&encode_user_cursor("v", 1)).unwrap().1, 1);
    assert_eq!(
        decode_user_cursor("u|urn:uuid:550e8400-e29b-41d4-a716-446655440000").unwrap().1,
        id
    );
    assert_eq!(
        decode_user_cursor("u|not-a-uuid"),
        Err(DomainError::Validation("invalid cursor id".to_string()))
    );
}

#[test]
fn decimal_text_round_trip_values() {
    for n in [0i64, 7, -7, 1500, i64::MAX, i64::MIN] {
        assert_eq!(i64_text(n), n.to_string());
        assert_eq!(parse_i64(&i64_text(n)), Some(n));
    }
    assert_eq!(u64_text(u64::MAX), u64::MAX.to_string());
    assert_eq!(parse_i64("-"), None);
    assert_eq!(parse_i64(""), None);
}

#[test]
fn audit_event_names() {
    assert_eq!(AuditEventType::LoginSuccess.as_str(), "login_success");
    assert_eq!(AuditEventType::FinancialOperationFailure.as_str(), "financial_operation_failure");
    assert_eq!(AuditEventType::TransferDeclined.as_str(), "transfer_declined");
}

#[test]
fn domain_error_messages() {
    assert_eq!(DomainError::InsufficientFunds.message(), "insufficient funds");
    assert_eq!(
        DomainError::InvalidMoney("overflow".to_string()).message(),
        "invalid money amount: overflow"
    );
    assert_eq!(
        DomainError::Validation("bad".to_string()).message(),
        "validation error: bad"
    );
}

#[test]
fn accounts_and_users() {
    let a = Account::user_account(1, 2);
    assert_eq!(a.user_id, 2);
    assert!(!a.is_system);
    let f = Account::system_funding(3);
    assert_eq!(f.user_id, 0);
    assert!(f.is_system);
    let u = User::new(4, "alice");
    assert_eq!(u.username, "alice");
}

#[test]
fn documented_money_examples() {
    let amount = Money::transfer_amount(1250, Currency::Usd).unwrap();
    assert_eq!(amount.amount_minor(), 1250);
    assert_eq!(amount.currency().code(), "USD");
    assert!(Money::from_minor(0, Currency::Usd).is_ok());
    assert!(Money::from_minor(-1, Currency::Usd).is_err());
    assert!(Money::transfer_amount(1, Currency::Usd).is_ok());
    assert_eq!(Money::parse_minor("1250", Currency::Usd).unwrap().amount_minor(), 1250);
    assert!(Money::parse_minor("12.50", Currency::Usd).is_err());
    let a = Money::from_minor(500, Currency::Usd).unwrap();
    let b = Money::from_minor(200, Currency::Usd).unwrap();
    assert_eq!(a.checked_sub(&b).unwrap().amount_minor(), 300);
    let a = Money::from_minor(100, Currency::Usd).unwrap();
    let b = Money::from_minor(50, Currency::Usd).unwrap();
    assert_eq!(a.checked_add(&b).unwrap().amount_minor(), 150);
}

#[test]
fn documented_ledger_examples() {
    let debit = LedgerEntryDraft {
        account_id: 0,
        transfer_id: 0,
        amount_minor: 100,
        direction: LedgerDirection::Debit,
        currency: Currency::Usd,
    };
    assert_eq!(debit.signed_amount(), -100);
    let amount = Money::transfer_amount(250, Currency::Usd).unwrap();
    let entries = build_transfer_entries(0, 1, 2, &amount).unwrap();
    assert_eq!(entries[0].direction, LedgerDirection::Debit);
    assert_eq!(entries[1].direction, LedgerDirection::Credit);
    validate_balanced(&entries).unwrap();
    let pair = [
        LedgerEntryDraft { amount_minor: 10, ..debit },
        LedgerEntryDraft { amount_minor: 10, direction: LedgerDirection::Credit, ..debit },
    ];
    assert!(validate_balanced(&pair).is_ok());
    assert_eq!(Currency::from_str("usd").unwrap(), Currency::Usd);
    assert_eq!(Currency::Usd.code(), "USD");
}

#[test]
fn parse_minor_reads_decimal_text() {
    for n in [0i64, 1, 42, 1500, i64::MAX] {
        assert_eq!(Money::parse_minor(&n.to_string(), Currency::Usd).unwrap().amount_minor(), n);
    }
}

#[test]
fn reconstruction_is_additive() {
    let m1 = Money::transfer_amount(100, Currency::Usd).unwrap();
    let m2 = Money::transfer_amount(40, Currency::Usd).unwrap();
    let a = build_transfer_entries(1, 10, 20, &m1).unwrap();
    let b = build_transfer_entries(2, 20, 30, &m2).unwrap();
    let all = [a[0], a[1], b[0], b[1]];
    for acct in [10u128, 20, 30, 40] {
        assert_eq!(
            reconstruct_balance(acct, &all),
            reconstruct_balance(acct, &a) + reconstruct_balance(acct, &b)
        );
    }
    assert_eq!(reconstruct_balance(20, &all), 60);
    assert!(validate_balanced(&all).is_ok());
}

#[test]
fn reconstruction_reads_only_the_account() {
    let other = LedgerEntryDraft {
        account_id: 99,
        transfer_id: 1,
        amount_minor: i64::MIN,
        direction: LedgerDirection::Debit,
        currency: Currency::Usd,
    };
    let mine = LedgerEntryDraft { account_id: 5, amount_minor: 30, direction: LedgerDirection::Credit, ..other };
    assert_eq!(reconstruct_balance(5, &[other, mine, other]), 30);
}
