//! Identifiers. The library holds a UUID as its 128-bit big-endian value
//! (`Uuid::as_u128`); text forms go through the `uuid` crate.

use vstd::prelude::*;

verus! {

/// Value of a hexadecimal digit (either case), or -1 for any other character.
pub open spec fn hex_digit_value(c: char) -> int {
    let u = c as u32;
    if 48 <= u <= 57 {
        u - 48
    } else if 97 <= u <= 102 {
        u - 87
    } else if 65 <= u <= 70 {
        u - 55
    } else {
        -1
    }
}

/// True when every character is a hexadecimal digit.
pub open spec fn all_hex(s: Seq<char>) -> bool {
    forall|i: int| 0 <= i < s.len() ==> hex_digit_value(#[trigger] s[i]) >= 0
}

/// Big-endian value of a run of hexadecimal digits.
pub open spec fn hex_run_value(s: Seq<char>) -> int
    decreases s.len(),
{
    if s.len() == 0 {
        0
    } else {
        hex_run_value(s.drop_last()) * 16 + hex_digit_value(s.last())
    }
}

/// Value of exactly 32 hexadecimal digits.
pub open spec fn simple_value(s: Seq<char>) -> Option<u128> {
    if s.len() == 32 && all_hex(s) {
        Some(hex_run_value(s) as u128)
    } else {
        None
    }
}

/// The 32 digits of an 8-4-4-4-12 hyphenated text.
pub open spec fn hyphenated_digits(s: Seq<char>) -> Seq<char> {
    s.subrange(0, 8) + s.subrange(9, 13) + s.subrange(14, 18) + s.subrange(19, 23) + s.subrange(
        24,
        36,
    )
}

/// Value of an 8-4-4-4-12 hyphenated text.
pub open spec fn hyphenated_value(s: Seq<char>) -> Option<u128> {
    if s.len() == 36 && s[8] == '-' && s[13] == '-' && s[18] == '-' && s[23] == '-' {
        simple_value(hyphenated_digits(s))
    } else {
        None
    }
}

/// ASCII lower-case form of a character.
pub open spec fn ascii_lower(c: char) -> char {
    if 65 <= c as u32 <= 90 {
        ((c as u32) + 32) as char
    } else {
        c
    }
}

/// True when `s` is `urn:uuid:` in any ASCII case.
pub open spec fn is_urn_prefix(s: Seq<char>) -> bool {
    s.len() == 9 && ascii_lower(s[0]) == 'u' && ascii_lower(s[1]) == 'r' && ascii_lower(s[2])
        == 'n' && s[3] == ':' && ascii_lower(s[4]) == 'u' && ascii_lower(s[5]) == 'u'
        && ascii_lower(s[6]) == 'i' && ascii_lower(s[7]) == 'd' && s[8] == ':'
}

/// What `Uuid::parse_str` accepts, and the value it yields: 32 hex digits,
/// the hyphenated form, the hyphenated form in braces, or the hyphenated
/// form after a `urn:uuid:` prefix. Hex digits may be of either case.
pub open spec fn uuid_parse(s: Seq<char>) -> Option<u128> {
    if s.len() == 32 {
        simple_value(s)
    } else if s.len() == 36 {
        hyphenated_value(s)
    } else if s.len() == 38 && s[0] == '{' && s[37] == '}' {
        hyphenated_value(s.subrange(1, 37))
    } else if s.len() == 45 && is_urn_prefix(s.subrange(0, 9)) {
        hyphenated_value(s.subrange(9, 45))
    } else {
        None
    }
}

/// Lower-case hex character of a digit `0..16`.
pub open spec fn lower_hex_char(d: int) -> char {
    if d < 10 {
        (d + 48) as char
    } else {
        (d + 87) as char
    }
}

/// The last `k` hexadecimal digits of `n`, lower case, with leading zeros.
pub open spec fn hex_fixed(n: nat, k: nat) -> Seq<char>
    decreases k,
{
    if k == 0 {
        Seq::empty()
    } else {
        hex_fixed(n / 16, (k - 1) as nat).push(lower_hex_char((n % 16) as int))
    }
}

/// Hyphenated lower-case text of a UUID (its `Display` form).
pub open spec fn uuid_text_of(id: u128) -> Seq<char> {
    let h = hex_fixed(id as nat, 32);
    h.subrange(0, 8) + seq!['-'] + h.subrange(8, 12) + seq!['-'] + h.subrange(12, 16) + seq!['-']
        + h.subrange(16, 20) + seq!['-'] + h.subrange(20, 32)
}

/// `16` to the power `k`.
pub open spec fn hex_span(k: nat) -> nat
    decreases k,
{
    if k == 0 {
        1
    } else {
        16 * hex_span((k - 1) as nat)
    }
}

proof fn lemma_hex_char_value(d: int)
    requires
        0 <= d < 16,
    ensures
        hex_digit_value(lower_hex_char(d)) == d,
{
}

proof fn lemma_hex_fixed(n: nat, k: nat)
    ensures
        hex_fixed(n, k).len() == k,
        all_hex(hex_fixed(n, k)),
        hex_span(k) > 0,
        hex_run_value(hex_fixed(n, k)) == n % hex_span(k),
    decreases k,
{
    if k > 0 {
        let m = hex_span((k - 1) as nat);
        lemma_hex_fixed(n / 16, (k - 1) as nat);
        let prev = hex_fixed(n / 16, (k - 1) as nat);
        let c = lower_hex_char((n % 16) as int);
        lemma_hex_char_value((n % 16) as int);
        let h = hex_fixed(n, k);
        assert(h == prev.push(c));
        assert(h.drop_last() =~= prev);
        assert forall|i: int| 0 <= i < h.len() implies hex_digit_value(#[trigger] h[i]) >= 0 by {
            if i < prev.len() {
                assert(h[i] == prev[i]);
            }
        }
        vstd::arithmetic::div_mod::lemma_mod_breakdown(n as int, 16, m as int);
    }
}

/// The text form of a UUID parses back to the same UUID.
pub proof fn law_uuid_text_round_trip(id: u128)
    ensures
        uuid_parse(uuid_text_of(id)) == Some(id),
{
    let h = hex_fixed(id as nat, 32);
    lemma_hex_fixed(id as nat, 32);
    assert(hex_span(32) == 0x1_0000_0000_0000_0000_0000_0000_0000_0000) by {
        reveal_with_fuel(hex_span, 33);
    }
    let t = uuid_text_of(id);
    assert(t.len() == 36);
    assert(t[8] == '-' && t[13] == '-' && t[18] == '-' && t[23] == '-');
    assert(hyphenated_digits(t) =~= h);
}

/// `Uuid::parse_str`: accepts the four textual forms of a UUID and gives
/// its value; any other text is rejected.
#[verifier::external_body]
pub(crate) fn parse_uuid(s: &str) -> (r: Option<u128>)
    ensures
        r == uuid_parse(s@),
{
    uuid::Uuid::parse_str(s).ok().map(|u| u.as_u128())
}

/// The `Display` form of a UUID (`Uuid::to_string`): hyphenated, lower case.
#[verifier::external_body]
pub(crate) fn uuid_text(id: u128) -> (r: String)
    ensures
        r@ == uuid_text_of(id),
{
    uuid::Uuid::from_u128(id).to_string()
}

/// `Uuid::new_v4`: a random version-4 UUID, as its 128-bit value. Its
/// random bits are not stated; every outcome carries version 4 and the
/// RFC 4122 variant.
#[verifier::external_body]
pub(crate) fn new_random_uuid() -> (r: u128)
    ensures
        (r >> 76u128) & 0xfu128 == 4,
        (r >> 62u128) & 0x3u128 == 2,
{
    uuid::Uuid::new_v4().as_u128()
}

} // verus!
