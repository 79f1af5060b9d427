//! Idempotency key validation and request fingerprinting.
//!
//! A key is a client-supplied retry token scoped to the sending user. With a
//! fingerprint of the payload it tells a safe retry (same key, same
//! fingerprint) from a conflict (same key, different fingerprint).

use vstd::prelude::*;
use vstd::utf8::encode_utf8;
use sha2::Digest;
use crate::ids::{parse_uuid, uuid_parse};
use crate::text::{chars_of, owned, push_str, string_from_chars, trim_bounds, trim_seq};

verus! {

/// SHA-256 digest of a byte string, named by its result.
pub uninterp spec fn sha256_of(data: Seq<u8>) -> Seq<u8>;

/// Lower-case hex character of a nibble `0..16`.
pub open spec fn hex_char_lower(n: u8) -> char {
    if n < 10 {
        (n + 48) as char
    } else {
        (n + 87) as char
    }
}

/// Lower-case hexadecimal text of a byte string, two characters per byte.
pub open spec fn hex_lower(data: Seq<u8>) -> Seq<char>
    decreases data.len(),
{
    if data.len() == 0 {
        Seq::empty()
    } else {
        hex_lower(data.drop_last()).push(hex_char_lower(data.last() / 16)).push(
            hex_char_lower(data.last() % 16),
        )
    }
}

/// `Sha256::digest` of the `sha2` crate: the 32-byte SHA-256 digest of the
/// data. The digest function itself is not restated; its length is.
#[verifier::external_body]
fn sha256_digest(data: &[u8]) -> (r: Vec<u8>)
    ensures
        r@ == sha256_of(data@),
        r@.len() == 32,
{
    sha2::Sha256::digest(data).to_vec()
}

/// `hex::encode`: lower-case hexadecimal text, high nibble first.
#[verifier::external_body]
fn hex_encode(data: &[u8]) -> (r: String)
    ensures
        r@ == hex_lower(data@),
{
    hex::encode(data)
}

/// UTF-8 byte length of a text, as `str::len` reports it.
pub open spec fn byte_len(s: Seq<char>) -> usize {
    encode_utf8(s).len() as usize
}

/// ASCII letter or digit, `-` or `_`.
pub open spec fn is_key_char(c: char) -> bool {
    let u = c as u32;
    (48 <= u <= 57) || (65 <= u <= 90) || (97 <= u <= 122) || c == '-' || c == '_'
}

/// Whether `key` is an acceptable idempotency key: once trimmed it is
/// non-empty and at most 128 bytes, and it is either a UUID or 8 or more
/// bytes of ASCII letters, digits, `-` and `_`.
pub open spec fn key_is_valid(key: Seq<char>) -> bool {
    let t = trim_seq(key);
    if t.len() == 0 || byte_len(t) > 128 {
        false
    } else if uuid_parse(t) is Some {
        true
    } else {
        (forall|i: int| 0 <= i < t.len() ==> is_key_char(#[trigger] t[i])) && byte_len(t) >= 8
    }
}

/// The text that a request fingerprint hashes: the five fields joined by `|`.
pub open spec fn fingerprint_payload(
    sender_user_id: Seq<char>,
    recipient_username: Seq<char>,
    amount_minor: Seq<char>,
    currency: Seq<char>,
    description: Seq<char>,
) -> Seq<char> {
    sender_user_id + seq!['|'] + recipient_username + seq!['|'] + amount_minor + seq!['|']
        + currency + seq!['|'] + description
}

/// The fingerprint of a payload text: hex of its SHA-256 digest.
pub open spec fn fingerprint_of(payload: Seq<char>) -> Seq<char> {
    hex_lower(sha256_of(encode_utf8(payload)))
}

/// The log-safe form of a key: hex of the first 8 bytes of its SHA-256 digest.
pub open spec fn key_hash_of(key: Seq<char>) -> Seq<char> {
    hex_lower(sha256_of(encode_utf8(key)).take(8))
}

proof fn lemma_hex_lower_len(data: Seq<u8>)
    ensures
        hex_lower(data).len() == 2 * data.len(),
    decreases data.len(),
{
    if data.len() > 0 {
        lemma_hex_lower_len(data.drop_last());
    }
}

/// Validates an idempotency key format (UUID or safe opaque identifier).
pub fn validate_idempotency_key(key: &str) -> (r: bool)
    ensures
        r == key_is_valid(key@),
{
    let cs = chars_of(key);
    let (a, b) = trim_bounds(&cs);
    let trimmed = string_from_chars(&cs, a, b);
    let t = trimmed.as_str();
    if a == b || t.len() > 128 {
        return false;
    }
    if parse_uuid(t).is_some() {
        return true;
    }
    let mut i = a;
    while i < b
        invariant
            a <= i <= b <= cs@.len(),
            a < b,
            trimmed@ == cs@.subrange(a as int, b as int),
            trimmed@ == trim_seq(key@),
            byte_len(trimmed@) <= 128,
            uuid_parse(trimmed@) is None,
            forall|j: int| a <= j < i ==> is_key_char(#[trigger] cs@[j]),
        decreases b - i,
    {
        let c = cs[i];
        let u = c as u32;
        if !((48 <= u && u <= 57) || (65 <= u && u <= 90) || (97 <= u && u <= 122) || c == '-'
            || c == '_') {
            assert(trimmed@[i - a] == c);
            return false;
        }
        i += 1;
    }
    proof {
        assert forall|j: int| 0 <= j < trimmed@.len() implies is_key_char(#[trigger] trimmed@[j]) by {
            assert(trimmed@[j] == cs@[a + j]);
        }
    }
    t.len() >= 8
}

/// Computes the SHA-256 hex fingerprint of a transfer request: sender user
/// id, recipient username, amount text, currency code and description,
/// joined by `|`.
pub fn request_fingerprint(
    sender_user_id: &str,
    recipient_username: &str,
    amount_minor: &str,
    currency: &str,
    description: &str,
) -> (r: String)
    ensures
        r@ == fingerprint_of(
            fingerprint_payload(
                sender_user_id@,
                recipient_username@,
                amount_minor@,
                currency@,
                description@,
            ),
        ),
        r@.len() == 64,
{
    let mut payload = owned(sender_user_id);
    crate::text::push_char(&mut payload, '|');
    push_str(&mut payload, recipient_username);
    crate::text::push_char(&mut payload, '|');
    push_str(&mut payload, amount_minor);
    crate::text::push_char(&mut payload, '|');
    push_str(&mut payload, currency);
    crate::text::push_char(&mut payload, '|');
    push_str(&mut payload, description);
    assert(payload@ =~= fingerprint_payload(
        sender_user_id@,
        recipient_username@,
        amount_minor@,
        currency@,
        description@,
    ));
    let digest = sha256_digest(payload.as_str().as_bytes());
    proof {
        lemma_hex_lower_len(digest@);
    }
    hex_encode(digest.as_slice())
}

/// Hashes an idempotency key for log correlation: the first 8 bytes of its
/// SHA-256 digest as 16 hex characters.
pub fn hash_idempotency_key(key: &str) -> (r: String)
    ensures
        r@ == key_hash_of(key@),
        r@.len() == 16,
{
    let digest = sha256_digest(key.as_bytes());
    let mut head: Vec<u8> = Vec::new();
    let mut i: usize = 0;
    while i < 8
        invariant
            i <= 8,
            digest@.len() == 32,
            head@ == digest@.take(i as int),
        decreases 8 - i,
    {
        head.push(digest[i]);
        assert(digest@.take(i + 1) =~= digest@.take(i as int).push(digest@[i as int]));
        i += 1;
    }
    proof {
        lemma_hex_lower_len(head@);
    }
    hex_encode(head.as_slice())
}

} // verus!
