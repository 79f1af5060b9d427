//! Mapping between stored rows and the records of the use cases:
//! transfer status names, pagination cursors, row-to-record mapping and
//! page splitting.

use vstd::prelude::*;
use crate::decimal::{i64_text, int_text};
use crate::errors::{validation, validation_error, DomainError};
use crate::ids::{parse_uuid, uuid_parse, uuid_text, uuid_text_of};
use crate::records::{
    BalanceRecord, FeedItem, IdempotencyRecord, LedgerEntryRecord, TransferRecord, UserRecord,
};
use crate::text::{chars_of, owned, push_char, push_str, split_once_char, split_once_seq};
use crate::timestamp::Timestamp;
use crate::transfer::TransferStatus;

verus! {

/// Stored name of a transfer status.
pub open spec fn status_text(s: TransferStatus) -> Seq<char> {
    match s {
        TransferStatus::Completed => "completed"@,
        TransferStatus::Declined => "declined"@,
    }
}

/// RFC 3339 text of an instant as `chrono` writes it
/// (`DateTime::<Utc>::to_rfc3339`), or `None` when `chrono` cannot
/// represent the instant. Named by its result.
pub uninterp spec fn rfc3339_format(secs: i64, nanos: u32) -> Option<Seq<char>>;

/// The instant an RFC 3339 text denotes, as `chrono` parses it
/// (`DateTime::parse_from_rfc3339`), in Unix seconds and nanoseconds.
/// Named by its result.
pub uninterp spec fn rfc3339_parse(s: Seq<char>) -> Option<(i64, u32)>;

/// First second of year 0 (`0000-01-01T00:00:00Z`) in Unix seconds.
pub const FIRST_FOUR_DIGIT_YEAR_SECS: i64 = -62167219200;

/// Last second of year 9999 (`9999-12-31T23:59:59Z`) in Unix seconds.
pub const LAST_FOUR_DIGIT_YEAR_SECS: i64 = 253402300799;

/// `DateTime::<Utc>::from_timestamp` followed by `to_rfc3339`: the RFC 3339
/// text of an instant, `None` when `chrono` cannot represent it. The text
/// is made of digits, `-`, `+`, `T`, `:` and `.` only, so it holds no `|`;
/// for years 0 to 9999 (four-digit years, the ones RFC 3339 allows) the
/// parser reads it back to the same instant, leap seconds included.
#[verifier::external_body]
fn rfc3339_text(secs: i64, nanos: u32) -> (r: Option<String>)
    ensures
        match r {
            Some(s) => rfc3339_format(secs, nanos) == Some(s@),
            None => rfc3339_format(secs, nanos) is None,
        },
        r matches Some(s) ==> !s@.contains('|'),
        r matches Some(s) ==> (FIRST_FOUR_DIGIT_YEAR_SECS <= secs <= LAST_FOUR_DIGIT_YEAR_SECS
            ==> rfc3339_parse(s@) == Some((secs, nanos))),
{
    match chrono::DateTime::from_timestamp(secs, nanos) {
        Some(d) => Some(d.to_rfc3339()),
        None => None,
    }
}

/// `DateTime::parse_from_rfc3339`: the instant of an RFC 3339 text in Unix
/// seconds and nanoseconds, `None` when the text is not RFC 3339.
#[verifier::external_body]
fn parse_rfc3339(s: &str) -> (r: Option<(i64, u32)>)
    ensures
        r == rfc3339_parse(s@),
{
    match chrono::DateTime::parse_from_rfc3339(s) {
        Ok(d) => Some((d.timestamp(), d.timestamp_subsec_nanos())),
        Err(_) => None,
    }
}

/// Text of a time/id pagination cursor: `{rfc3339}|{uuid}`.
pub open spec fn cursor_text(created_at: Timestamp, id: u128) -> Option<Seq<char>> {
    match rfc3339_format(created_at.secs, created_at.nanos) {
        Some(ts) => Some(ts + seq!['|'] + uuid_text_of(id)),
        None => None,
    }
}

/// What `decode_cursor` gives for a text: the instant and id, or the
/// message of the `Validation` error.
pub open spec fn cursor_decoding(s: Seq<char>) -> Result<(i64, u32, u128), Seq<char>> {
    match split_once_seq(s, '|') {
        None => Err("invalid cursor"@),
        Some(parts) => match rfc3339_parse(parts.0) {
            None => Err("invalid cursor timestamp"@),
            Some(t) => match uuid_parse(parts.1) {
                None => Err("invalid cursor id"@),
                Some(id) => Ok((t.0, t.1, id)),
            },
        },
    }
}

/// What the user-search cursor decodes to: the username and id, or the
/// message of the `Validation` error.
pub open spec fn user_cursor_decoding(s: Seq<char>) -> Result<(Seq<char>, u128), Seq<char>> {
    match split_once_seq(s, '|') {
        None => Err("invalid cursor"@),
        Some(parts) => match uuid_parse(parts.1) {
            None => Err("invalid cursor id"@),
            Some(id) => Ok((parts.0, id)),
        },
    }
}

/// Maps a transfer status to its stored name.
pub fn transfer_status_to_db(status: TransferStatus) -> (r: &'static str)
    ensures
        r@ == status_text(status),
{
    match status {
        TransferStatus::Completed => "completed",
        TransferStatus::Declined => "declined",
    }
}

/// The status a stored name denotes, if any.
pub open spec fn status_of_text(t: Seq<char>) -> Option<TransferStatus> {
    if t == status_text(TransferStatus::Completed) {
        Some(TransferStatus::Completed)
    } else if t == status_text(TransferStatus::Declined) {
        Some(TransferStatus::Declined)
    } else {
        None
    }
}

/// Maps a stored status name back to the status; unknown names are a
/// `Validation` error that names the value.
pub fn transfer_status_from_db(value: &str) -> (r: Result<TransferStatus, DomainError>)
    ensures
        match status_of_text(value@) {
            Some(st) => r == Ok::<TransferStatus, DomainError>(st),
            None => r matches Err(e) && validation(e, "unknown transfer status: "@ + value@),
        },
{
    let v = owned(value);
    if v == owned("completed") {
        return Ok(TransferStatus::Completed);
    }
    if v == owned("declined") {
        return Ok(TransferStatus::Declined);
    }
    let mut msg = owned("unknown transfer status: ");
    push_str(&mut msg, value);
    Err(DomainError::Validation(msg))
}

/// A status survives the trip through its stored name.
pub proof fn law_status_round_trip(s: TransferStatus)
    ensures
        status_of_text(status_text(s)) == Some(s),
{
    reveal_strlit("completed");
    reveal_strlit("declined");
    assert("completed"@.len() != "declined"@.len());
}

/// `str::split_once` at a separator placed after a text that does not hold
/// it gives back the two sides.
pub proof fn lemma_split_at_separator(a: Seq<char>, b: Seq<char>, c: char)
    requires
        !a.contains(c),
    ensures
        split_once_seq(a + seq![c] + b, c) == Some((a, b)),
{
    let s = a + seq![c] + b;
    assert forall|j: int| 0 <= j < a.len() implies s[j] != c by {
        assert(s[j] == a[j]);
    }
    crate::text::lemma_first_index_is(s, c, a.len() as int);
    assert(s.subrange(0, a.len() as int) =~= a);
    assert(s.subrange(a.len() as int + 1, s.len() as int) =~= b);
}

/// Encodes a pagination cursor `{rfc3339}|{uuid}`; `None` only for an
/// instant that `chrono` cannot represent. For years 0 to 9999 the cursor
/// decodes back to the same instant and id.
pub fn encode_cursor(created_at: Timestamp, id: u128) -> (r: Option<String>)
    ensures
        match cursor_text(created_at, id) {
            Some(t) => r matches Some(c) && c@ == t,
            None => r is None,
        },
        r matches Some(c) ==> (FIRST_FOUR_DIGIT_YEAR_SECS <= created_at.secs
            <= LAST_FOUR_DIGIT_YEAR_SECS ==> cursor_decoding(c@) == Ok::<
            (i64, u32, u128),
            Seq<char>,
        >((created_at.secs, created_at.nanos, id))),
{
    match rfc3339_text(created_at.secs, created_at.nanos) {
        Some(mut out) => {
            let ghost ts = out@;
            push_char(&mut out, '|');
            push_str(&mut out, uuid_text(id).as_str());
            assert(out@ =~= ts + seq!['|'] + uuid_text_of(id));
            proof {
                lemma_split_at_separator(ts, uuid_text_of(id), '|');
                crate::ids::law_uuid_text_round_trip(id);
            }
            Some(out)
        },
        None => None,
    }
}

/// Decodes a pagination cursor into instant and id. Malformed cursors, bad
/// timestamps and bad ids are `Validation` errors.
pub fn decode_cursor(cursor: &str) -> (r: Result<(Timestamp, u128), DomainError>)
    ensures
        match cursor_decoding(cursor@) {
            Ok(v) => r matches Ok(p) && p.0.secs == v.0 && p.0.nanos == v.1 && p.1 == v.2,
            Err(msg) => r matches Err(e) && validation(e, msg),
        },
{
    let (ts, id) = match split_once_char(cursor, '|') {
        Some(parts) => parts,
        None => return Err(validation_error("invalid cursor")),
    };
    let t = match parse_rfc3339(ts.as_str()) {
        Some(t) => t,
        None => return Err(validation_error("invalid cursor timestamp")),
    };
    let id = match parse_uuid(id.as_str()) {
        Some(id) => id,
        None => return Err(validation_error("invalid cursor id")),
    };
    Ok((Timestamp { secs: t.0, nanos: t.1 }, id))
}

/// Encodes the user-search cursor `{username}|{uuid}`.
/// A username without `|` decodes back from its cursor.
pub fn encode_user_cursor(username: &str, id: u128) -> (r: String)
    ensures
        r@ == username@ + seq!['|'] + uuid_text_of(id),
        !username@.contains('|') ==> user_cursor_decoding(r@) == Ok::<(Seq<char>, u128), Seq<char>>(
            (username@, id),
        ),
{
    let mut out = owned(username);
    push_char(&mut out, '|');
    push_str(&mut out, uuid_text(id).as_str());
    assert(out@ =~= username@ + seq!['|'] + uuid_text_of(id));
    proof {
        if !username@.contains('|') {
            lemma_split_at_separator(username@, uuid_text_of(id), '|');
            crate::ids::law_uuid_text_round_trip(id);
        }
    }
    out
}

/// Decodes the user-search cursor into username and id.
pub fn decode_user_cursor(cursor: &str) -> (r: Result<(String, u128), DomainError>)
    ensures
        match user_cursor_decoding(cursor@) {
            Ok(v) => r matches Ok(p) && p.0@ == v.0 && p.1 == v.1,
            Err(msg) => r matches Err(e) && validation(e, msg),
        },
{
    let (name, id) = match split_once_char(cursor, '|') {
        Some(parts) => parts,
        None => return Err(validation_error("invalid cursor")),
    };
    let id = match parse_uuid(id.as_str()) {
        Some(id) => id,
        None => return Err(validation_error("invalid cursor id")),
    };
    Ok((name, id))
}

/// A user row as stored.
#[derive(Debug, Clone)]
pub struct UserModel {
    /// User id.
    pub id: u128,
    /// Username.
    pub username: String,
    /// Password hash.
    pub password_hash: String,
}

/// A balance row as stored.
#[derive(Debug, Clone)]
pub struct BalanceModel {
    /// Account id.
    pub account_id: u128,
    /// Balance in minor units.
    pub balance_minor: i64,
    /// Currency code.
    pub currency_code: String,
}

/// A transfer row as stored.
#[derive(Debug, Clone)]
pub struct TransferModel {
    /// Transfer id.
    pub id: u128,
    /// Debited account.
    pub sender_account_id: u128,
    /// Credited account.
    pub recipient_account_id: u128,
    /// Sending user.
    pub sender_user_id: u128,
    /// Receiving user.
    pub recipient_user_id: u128,
    /// Amount in minor units.
    pub amount_minor: i64,
    /// Currency code.
    pub currency_code: String,
    /// Optional memo.
    pub description: Option<String>,
    /// Stored status name.
    pub status: String,
    /// Creation time.
    pub created_at: Timestamp,
}

/// A ledger row as stored.
#[derive(Debug, Clone)]
pub struct LedgerEntryModel {
    /// Entry id.
    pub id: u128,
    /// Account id.
    pub account_id: u128,
    /// Transfer id.
    pub transfer_id: u128,
    /// Amount in minor units.
    pub amount_minor: i64,
    /// Direction name.
    pub direction: String,
    /// Currency code.
    pub currency_code: String,
    /// Creation time.
    pub created_at: Timestamp,
}

/// An idempotency row as stored.
#[derive(Debug, Clone)]
pub struct IdempotencyModel {
    /// Request fingerprint.
    pub fingerprint: String,
    /// Stored response body.
    pub response_body: String,
    /// Stored status code (a `SMALLINT` column).
    pub status_code: i16,
}

/// Maps a user row to a record (password hash included).
pub fn user_to_record(model: UserModel) -> (r: UserRecord)
    ensures
        r.id == model.id,
        r.username == model.username,
        r.password_hash == model.password_hash,
{
    UserRecord { id: model.id, username: model.username, password_hash: model.password_hash }
}

/// Maps a balance row to a record.
pub fn balance_to_record(model: BalanceModel) -> (r: BalanceRecord)
    ensures
        r.account_id == model.account_id,
        r.balance_minor == model.balance_minor,
        r.currency_code == model.currency_code,
{
    BalanceRecord {
        account_id: model.account_id,
        balance_minor: model.balance_minor,
        currency_code: model.currency_code,
    }
}

/// Maps a transfer row and the two usernames to a record; an unknown stored
/// status is a `Validation` error.
pub fn transfer_to_record(model: TransferModel, sender_username: String, recipient_username: String) -> (r:
    Result<TransferRecord, DomainError>)
    ensures
        status_of_text(model.status@) is Some ==> (r matches Ok(rec) && rec.id == model.id && rec.sender_account_id
            == model.sender_account_id && rec.recipient_account_id == model.recipient_account_id
            && rec.sender_user_id == model.sender_user_id && rec.recipient_user_id
            == model.recipient_user_id && rec.sender_username == sender_username
            && rec.recipient_username == recipient_username && rec.amount_minor
            == model.amount_minor && rec.currency_code == model.currency_code && rec.description
            == model.description && status_of_text(model.status@) == Some(rec.status) && rec.created_at
            == model.created_at),
        status_of_text(model.status@) is None ==> (r matches Err(e) && validation(e, "unknown transfer status: "@ + model.status@)),
{
    let status = transfer_status_from_db(model.status.as_str())?;
    Ok(
        TransferRecord {
            id: model.id,
            sender_account_id: model.sender_account_id,
            recipient_account_id: model.recipient_account_id,
            sender_user_id: model.sender_user_id,
            recipient_user_id: model.recipient_user_id,
            sender_username,
            recipient_username,
            amount_minor: model.amount_minor,
            currency_code: model.currency_code,
            description: model.description,
            status,
            created_at: model.created_at,
        },
    )
}

/// Maps a transfer row and the two usernames to a public feed item, the
/// amount as decimal text.
pub fn transfer_to_feed_item(
    model: TransferModel,
    sender_username: String,
    recipient_username: String,
) -> (r: FeedItem)
    ensures
        r.transfer_id == model.id,
        r.sender_username == sender_username,
        r.recipient_username == recipient_username,
        r.amount_minor@ == int_text(model.amount_minor as int),
        r.currency == model.currency_code,
        r.description == model.description,
        r.created_at == model.created_at,
{
    FeedItem {
        transfer_id: model.id,
        sender_username,
        recipient_username,
        amount_minor: i64_text(model.amount_minor),
        currency: model.currency_code,
        description: model.description,
        created_at: model.created_at,
    }
}

/// Maps a ledger row to a record.
pub fn ledger_entry_to_record(model: LedgerEntryModel) -> (r: LedgerEntryRecord)
    ensures
        r.id == model.id,
        r.account_id == model.account_id,
        r.transfer_id == model.transfer_id,
        r.amount_minor == model.amount_minor,
        r.direction == model.direction,
        r.currency_code == model.currency_code,
        r.created_at == model.created_at,
{
    LedgerEntryRecord {
        id: model.id,
        account_id: model.account_id,
        transfer_id: model.transfer_id,
        amount_minor: model.amount_minor,
        direction: model.direction,
        currency_code: model.currency_code,
        created_at: model.created_at,
    }
}

/// Maps an idempotency row to a record; the status code is reinterpreted
/// as unsigned (`as u16`).
pub fn idempotency_to_record(model: IdempotencyModel) -> (r: IdempotencyRecord)
    ensures
        r.fingerprint == model.fingerprint,
        r.response_body == model.response_body,
        r.status_code == (if model.status_code >= 0 {
            model.status_code as int
        } else {
            model.status_code + 65536
        }),
{
    let code: u16 = if model.status_code >= 0 {
        model.status_code as u16
    } else {
        (model.status_code as i32 + 65536) as u16
    };
    IdempotencyRecord {
        fingerprint: model.fingerprint,
        response_body: model.response_body,
        status_code: code,
    }
}

/// The `SMALLINT` column value stored for a response status code: the code
/// itself up to 32767, larger codes wrapped into the negative range (as an
/// `as i16` cast does).
pub fn status_code_column(status_code: u16) -> (r: i16)
    ensures
        r == (if status_code <= 32767 {
            status_code as int
        } else {
            status_code - 65536
        }),
{
    if status_code <= 32767 {
        status_code as i16
    } else {
        (status_code as i32 - 65536) as i16
    }
}

/// A status code stored and read back is the same code.
pub proof fn law_status_code_column_round_trip(status_code: u16)
    ensures
        ({
            let stored: int = if status_code <= 32767 {
                status_code as int
            } else {
                status_code - 65536
            };
            (if stored >= 0 {
                stored
            } else {
                stored + 65536
            }) == status_code
        }),
{
}

/// Splits the rows of a `limit + 1` query into the page (at most `limit`
/// rows, in order) and whether more rows follow.
pub fn take_page<T>(rows: Vec<T>, limit: u64) -> (r: (Vec<T>, bool))
    ensures
        r.1 == (rows@.len() > limit as usize),
        r.0@ == rows@.take(if r.1 {
            limit as usize as int
        } else {
            rows@.len() as int
        }),
{
    let lim: usize = limit as usize;
    let has_more = rows.len() > lim;
    let mut items = rows;
    if has_more {
        items.truncate(lim);
    }
    assert(has_more || items@ =~= rows@.take(rows@.len() as int));
    (items, has_more)
}

/// A page never holds more than the limit, and it reports more rows exactly
/// when the query returned more than the limit.
pub proof fn law_page_bounds(len: nat, limit: u64, has_more: bool, page_len: nat)
    requires
        has_more == (len > limit as usize),
        page_len == (if has_more {
            limit as usize as nat
        } else {
            len
        }),
    ensures
        page_len <= limit as usize,
        page_len <= len,
        !has_more ==> page_len == len,
{
}

/// Sort key of a listed row: creation time (Unix seconds, nanoseconds) and
/// id, the order of the keyset pagination.
pub open spec fn key_before(a: (i64, u32, u128), b: (i64, u32, u128)) -> bool {
    a.0 < b.0 || (a.0 == b.0 && (a.1 < b.1 || (a.1 == b.1 && a.2 < b.2)))
}

/// Rows listed newest first: every key comes strictly after the next one.
pub open spec fn newest_first(rows: Seq<(i64, u32, u128)>) -> bool {
    forall|i: int, j: int| 0 <= i < j < rows.len() ==> key_before(#[trigger] rows[j], #[trigger] rows[i])
}

/// The predicate of the page query behind a cursor: rows strictly before
/// the cursor's key (`created_at < t OR (created_at = t AND id < id)`).
pub open spec fn before_cursor(c: (i64, u32, u128)) -> spec_fn((i64, u32, u128)) -> bool {
    |r: (i64, u32, u128)| key_before(r, c)
}

/// The rows a page query reads, newest first: all of them without a
/// cursor, else those strictly before the cursor's key.
pub open spec fn rows_after(rows: Seq<(i64, u32, u128)>, cursor: Option<(i64, u32, u128)>) -> Seq<
    (i64, u32, u128),
> {
    match cursor {
        None => rows,
        Some(c) => rows.filter(before_cursor(c)),
    }
}

/// The keys listed by following next-page cursors from `cursor`, for at
/// most `fuel` pages. Each page reads `limit + 1` rows, keeps the first
/// `limit` (`take_page`), and, when more follow, continues from the key of
/// its last row (`next_feed_cursor`, `next_ledger_cursor`).
pub open spec fn walk_pages(
    rows: Seq<(i64, u32, u128)>,
    cursor: Option<(i64, u32, u128)>,
    limit: nat,
    fuel: nat,
) -> Seq<(i64, u32, u128)>
    decreases fuel,
{
    if fuel == 0 {
        Seq::empty()
    } else {
        let q = rows_after(rows, cursor);
        if q.len() > limit {
            if limit == 0 {
                Seq::empty()
            } else {
                q.take(limit as int) + walk_pages(rows, Some(q[limit - 1]), limit, (fuel - 1) as nat)
            }
        } else {
            q
        }
    }
}

proof fn lemma_prefix_filter(rows: Seq<(i64, u32, u128)>, k: int, n: int)
    requires
        newest_first(rows),
        0 < k <= rows.len(),
        0 <= n <= rows.len(),
    ensures
        rows.take(n).filter(before_cursor(rows[k - 1])) == (if n <= k {
            Seq::<(i64, u32, u128)>::empty()
        } else {
            rows.subrange(k, n)
        }),
    decreases n,
{
    let p = before_cursor(rows[k - 1]);
    if n == 0 {
        reveal(Seq::filter);
        assert(rows.take(0) =~= Seq::<(i64, u32, u128)>::empty());
    } else {
        lemma_prefix_filter(rows, k, n - 1);
        assert(rows.take(n) =~= rows.take(n - 1).push(rows[n - 1]));
        rows.take(n - 1).lemma_filter_push(rows[n - 1], p);
        if n - 1 < k - 1 {
            assert(key_before(rows[k - 1], rows[n - 1]));
            assert(!p(rows[n - 1]));
        } else if n - 1 == k - 1 {
            assert(!p(rows[n - 1]));
        } else {
            assert(key_before(rows[n - 1], rows[k - 1]));
            assert(p(rows[n - 1]));
            if n - 1 == k {
                assert(rows.subrange(k, n) =~= seq![rows[n - 1]]);
                assert(Seq::<(i64, u32, u128)>::empty().push(rows[n - 1]) =~= seq![rows[n - 1]]);
            } else {
                assert(rows.subrange(k, n) =~= rows.subrange(k, n - 1).push(rows[n - 1]));
            }
        }
    }
}

/// Behind the cursor of the `k`-th row, the page query reads exactly the
/// rows listed after it.
pub proof fn lemma_rows_after_cursor(rows: Seq<(i64, u32, u128)>, k: int)
    requires
        newest_first(rows),
        0 < k <= rows.len(),
    ensures
        rows_after(rows, Some(rows[k - 1])) == rows.subrange(k, rows.len() as int),
{
    lemma_prefix_filter(rows, k, rows.len() as int);
    assert(rows.take(rows.len() as int) =~= rows);
    if rows.len() as int <= k {
        assert(rows.subrange(k, rows.len() as int) =~= Seq::<(i64, u32, u128)>::empty());
    }
}

proof fn lemma_walk_from(rows: Seq<(i64, u32, u128)>, k: int, limit: nat, fuel: nat)
    requires
        newest_first(rows),
        0 <= k <= rows.len(),
        limit >= 1,
        fuel >= rows.len() - k + 1,
    ensures
        walk_pages(rows, if k == 0 { None } else { Some(rows[k - 1]) }, limit, fuel) == rows.subrange(
            k,
            rows.len() as int,
        ),
    decreases fuel,
{
    let cursor = if k == 0 { None } else { Some(rows[k - 1]) };
    let q = rows_after(rows, cursor);
    if k == 0 {
        assert(rows.subrange(0, rows.len() as int) =~= rows);
    } else {
        lemma_rows_after_cursor(rows, k);
    }
    assert(q == rows.subrange(k, rows.len() as int));
    if q.len() > limit {
        let k2 = k + limit;
        assert(q[limit - 1] == rows[k2 - 1]);
        lemma_walk_from(rows, k2, limit, (fuel - 1) as nat);
        assert(q.take(limit as int) + rows.subrange(k2, rows.len() as int) =~= q);
    }
}

/// Following next-page cursors from the first page lists every row exactly
/// once, newest first, for any page size of at least one row.
pub proof fn law_pages_list_every_row_once(rows: Seq<(i64, u32, u128)>, limit: nat)
    requires
        newest_first(rows),
        limit >= 1,
    ensures
        walk_pages(rows, None, limit, rows.len() + 1) == rows,
{
    lemma_walk_from(rows, 0, limit, rows.len() + 1);
    assert(rows.subrange(0, rows.len() as int) =~= rows);
}

/// The next-page cursor of a ledger page: that of its last entry, when more
/// entries follow.
pub fn next_ledger_cursor(items: &Vec<LedgerEntryRecord>, has_more: bool) -> (r: Option<String>)
    ensures
        !has_more || items@.len() == 0 ==> r is None,
        has_more && items@.len() > 0 ==> match cursor_text(
            items@.last().created_at,
            items@.last().id,
        ) {
            Some(t) => r matches Some(c) && c@ == t,
            None => r is None,
        },
{
    if has_more && items.len() > 0 {
        let last = &items[items.len() - 1];
        encode_cursor(last.created_at, last.id)
    } else {
        None
    }
}

/// The next-page cursor of a feed page: that of its last item, when more
/// items follow.
pub fn next_feed_cursor(items: &Vec<FeedItem>, has_more: bool) -> (r: Option<String>)
    ensures
        !has_more || items@.len() == 0 ==> r is None,
        has_more && items@.len() > 0 ==> match cursor_text(
            items@.last().created_at,
            items@.last().transfer_id,
        ) {
            Some(t) => r matches Some(c) && c@ == t,
            None => r is None,
        },
{
    if has_more && items.len() > 0 {
        let last = &items[items.len() - 1];
        encode_cursor(last.created_at, last.transfer_id)
    } else {
        None
    }
}

/// The next-page cursor of a user-search page: `{username}|{id}` of its
/// last user, when more users follow.
pub fn next_user_cursor(items: &Vec<UserRecord>, has_more: bool) -> (r: Option<String>)
    ensures
        !has_more || items@.len() == 0 ==> r is None,
        has_more && items@.len() > 0 ==> (r matches Some(c) && c@ == items@.last().username@
            + seq!['|'] + uuid_text_of(items@.last().id)),
{
    if has_more && items.len() > 0 {
        let last = &items[items.len() - 1];
        Some(encode_user_cursor(last.username.as_str(), last.id))
    } else {
        None
    }
}

/// The escaped form of one character inside a `LIKE` pattern: the
/// wildcards `%` and `_` and the escape character `\` are preceded by `\`.
pub open spec fn like_piece(c: char) -> Seq<char> {
    if c == '%' || c == '_' || c == '\\' {
        seq!['\\', c]
    } else {
        seq![c]
    }
}

/// `s` with every `LIKE` wildcard and escape character escaped.
pub open spec fn like_escape(s: Seq<char>) -> Seq<char>
    decreases s.len(),
{
    if s.len() == 0 {
        Seq::empty()
    } else {
        like_escape(s.drop_last()) + like_piece(s.last())
    }
}

/// The literal prefix that a `LIKE` pattern of the form
/// `literal characters, then one trailing %` matches, with `\` escaping
/// the next character; `None` for any other pattern (a `_`, a `%` before
/// the end, a dangling `\`, or no trailing `%`).
pub open spec fn like_prefix_of(p: Seq<char>) -> Option<Seq<char>>
    decreases p.len(),
{
    if p.len() == 0 {
        None
    } else if p[0] == '%' {
        if p.len() == 1 {
            Some(Seq::empty())
        } else {
            None
        }
    } else if p[0] == '_' {
        None
    } else if p[0] == '\\' {
        if p.len() >= 2 {
            match like_prefix_of(p.subrange(2, p.len() as int)) {
                Some(rest) => Some(seq![p[1]] + rest),
                None => None,
            }
        } else {
            None
        }
    } else {
        match like_prefix_of(p.subrange(1, p.len() as int)) {
            Some(rest) => Some(seq![p[0]] + rest),
            None => None,
        }
    }
}

proof fn lemma_like_concat(a: Seq<char>, b: Seq<char>)
    ensures
        like_escape(a + b) == like_escape(a) + like_escape(b),
    decreases b.len(),
{
    if b.len() == 0 {
        assert(a + b =~= a);
        assert(like_escape(b) =~= Seq::<char>::empty());
        assert(like_escape(a) + like_escape(b) =~= like_escape(a));
    } else {
        lemma_like_concat(a, b.drop_last());
        assert((a + b).drop_last() =~= a + b.drop_last());
        assert((a + b).last() == b.last());
        assert(like_escape(a) + like_escape(b) =~= like_escape(a) + like_escape(b.drop_last())
            + like_piece(b.last()));
    }
}

proof fn lemma_like_front(s: Seq<char>)
    requires
        s.len() > 0,
    ensures
        like_escape(s) == like_piece(s[0]) + like_escape(s.subrange(1, s.len() as int)),
{
    let head = seq![s[0]];
    let tail = s.subrange(1, s.len() as int);
    assert(s =~= head + tail);
    lemma_like_concat(head, tail);
    assert(head.drop_last() =~= Seq::<char>::empty());
    assert(like_escape(head.drop_last()) == Seq::<char>::empty());
    assert(head.last() == s[0]);
    assert(like_escape(head) =~= like_piece(s[0]));
}

/// The search pattern of a query matches exactly the usernames that begin
/// with the query, whatever `%`, `_` or `\` it holds.
pub proof fn law_prefix_pattern_matches_prefix(query: Seq<char>)
    ensures
        like_prefix_of(like_escape(query) + seq!['%']) == Some(query),
    decreases query.len(),
{
    let p = like_escape(query) + seq!['%'];
    if query.len() == 0 {
        assert(like_escape(query) =~= Seq::<char>::empty());
        assert(p =~= seq!['%']);
        assert(query =~= Seq::<char>::empty());
    } else {
        let tail = query.subrange(1, query.len() as int);
        lemma_like_front(query);
        law_prefix_pattern_matches_prefix(tail);
        let c = query[0];
        if c == '%' || c == '_' || c == '\\' {
            assert(p.subrange(2, p.len() as int) =~= like_escape(tail) + seq!['%']);
        } else {
            assert(p.subrange(1, p.len() as int) =~= like_escape(tail) + seq!['%']);
        }
        assert(seq![c] + tail =~= query);
    }
}

/// The pattern of a username prefix search: the query with its `LIKE`
/// wildcards and escape character escaped, then `%`.
pub fn username_prefix_pattern(query: &str) -> (r: String)
    ensures
        r@ == like_escape(query@) + seq!['%'],
{
    let cs = chars_of(query);
    let mut out = String::new();
    let mut i: usize = 0;
    while i < cs.len()
        invariant
            i <= cs@.len(),
            cs@ == query@,
            out@ == like_escape(cs@.take(i as int)),
        decreases cs@.len() - i,
    {
        let c = cs[i];
        proof {
            assert(cs@.take(i + 1).drop_last() =~= cs@.take(i as int));
            assert(cs@.take(i + 1).last() == c);
        }
        if c == '%' || c == '_' || c == '\\' {
            push_char(&mut out, '\\');
        }
        push_char(&mut out, c);
        assert(out@ =~= like_escape(cs@.take(i + 1)));
        i += 1;
    }
    assert(cs@.take(cs@.len() as int) =~= cs@);
    push_char(&mut out, '%');
    out
}

} // verus!
