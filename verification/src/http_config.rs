//! Settings of the HTTP router that follow from configuration: which CORS
//! origins are allowed and whether the API documentation is served.

use vstd::prelude::*;
use vstd::utf8::encode_utf8;
use crate::text::owned;

verus! {

/// Largest accepted request body, in bytes.
pub const MAX_BODY_BYTES: usize = 1048576;

/// Length of the login and transfer rate-limit windows, in seconds.
pub const RATE_LIMIT_WINDOW_SECS: u64 = 60;

/// Default page size of list endpoints.
pub const DEFAULT_PAGE_SIZE: u64 = 20;

/// A byte allowed in an HTTP header value: visible ASCII, space, tab, or
/// any byte from 128 up.
pub open spec fn header_value_byte(b: u8) -> bool {
    (b >= 32 && b != 127) || b == 9
}

/// Whether a text is accepted as an HTTP header value.
pub open spec fn header_value_ok(s: Seq<char>) -> bool {
    forall|i: int| 0 <= i < encode_utf8(s).len() ==> header_value_byte(#[trigger] encode_utf8(s)[i])
}

/// The configured origins that are valid header values, in order.
pub open spec fn valid_origins(origins: Seq<Seq<char>>) -> Seq<Seq<char>> {
    origins.filter(|o: Seq<char>| header_value_ok(o))
}

/// The texts of a list of strings.
pub open spec fn texts(v: Seq<String>) -> Seq<Seq<char>> {
    v.map_values(|s: String| s@)
}

/// `HeaderValue::from_str(..).is_ok()` of the `http` crate (through
/// `axum::http`): a text is a header value when every byte of its UTF-8
/// form is a tab or at least 32 and not 127.
#[verifier::external_body]
fn is_header_value(s: &str) -> (r: bool)
    ensures
        r == header_value_ok(s@),
{
    axum::http::HeaderValue::from_str(s).is_ok()
}

/// The origins a CORS policy allows: the configured ones that are valid
/// header values, or `http://localhost` when none is.
pub fn cors_allowed_origins(origins: &Vec<String>) -> (r: Vec<String>)
    ensures
        texts(r@) == (if valid_origins(texts(origins@)).len() == 0 {
            seq!["http://localhost"@]
        } else {
            valid_origins(texts(origins@))
        }),
{
    let ghost pred = |o: Seq<char>| header_value_ok(o);
    let mut kept: Vec<String> = Vec::new();
    let mut i: usize = 0;
    while i < origins.len()
        invariant
            i <= origins@.len(),
            pred == (|o: Seq<char>| header_value_ok(o)),
            texts(kept@) == texts(origins@).take(i as int).filter(pred),
        decreases origins@.len() - i,
    {
        let o = &origins[i];
        let ok = is_header_value(o.as_str());
        proof {
            let t = texts(origins@);
            assert(t.take(i + 1) =~= t.take(i as int).push(o@));
            t.take(i as int).lemma_filter_push(o@, pred);
        }
        let ghost before = kept@;
        if ok {
            kept.push(o.clone());
            assert(texts(kept@) =~= texts(before).push(o@));
        }
        i += 1;
    }
    proof {
        assert(texts(origins@).take(origins@.len() as int) =~= texts(origins@));
    }
    if kept.len() == 0 {
        let mut fallback: Vec<String> = Vec::new();
        fallback.push(owned("http://localhost"));
        assert(texts(fallback@) =~= seq!["http://localhost"@]);
        return fallback;
    }
    kept
}

/// Whether the API documentation is served: only in `development` and
/// `test`.
pub fn docs_enabled(environment: &str) -> (r: bool)
    ensures
        r == (environment@ == "development"@ || environment@ == "test"@),
{
    let env = owned(environment);
    env == owned("development") || env == owned("test")
}

} // verus!
