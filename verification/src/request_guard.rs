//! Decisions taken on request headers before a handler runs: bearer
//! tokens, access to the metrics endpoint, the client address used for rate
//! limiting, the idempotency header and the correlation ids.

use vstd::prelude::*;
use crate::api_error::ApiError;
use crate::ids::{new_random_uuid, uuid_text, uuid_text_of};
use crate::text::{
    chars_of, find_char, owned, split_once_seq, string_from_chars, strip_prefix,
    strip_prefix_seq, trim, trim_bounds, trim_seq,
};

verus! {

/// `c` is `upper` or `lower`.
pub open spec fn either_case(c: char, upper: char, lower: char) -> bool {
    c == upper || c == lower
}

/// The value starts with the scheme word `Bearer`, in any mix of upper
/// and lower case, followed by a space.
pub open spec fn bearer_scheme(value: Seq<char>) -> bool {
    &&& value.len() >= 7
    &&& either_case(value[0], 'B', 'b')
    &&& either_case(value[1], 'E', 'e')
    &&& either_case(value[2], 'A', 'a')
    &&& either_case(value[3], 'R', 'r')
    &&& either_case(value[4], 'E', 'e')
    &&& either_case(value[5], 'R', 'r')
    &&& value[6] == ' '
}

/// The token of an `Authorization` value: what follows the scheme word
/// `Bearer` (compared case-insensitively) and one space.
pub open spec fn bearer_token_of(value: Seq<char>) -> Option<Seq<char>> {
    if bearer_scheme(value) {
        Some(value.subrange(7, value.len() as int))
    } else {
        None
    }
}

/// Outcome of reading a bearer token from an optional `Authorization` value:
/// the non-empty token, or `None` for an unauthorized request.
pub open spec fn bearer_outcome(header: Option<Seq<char>>) -> Option<Seq<char>> {
    match header {
        None => None,
        Some(v) => match bearer_token_of(v) {
            Some(t) => if t.len() > 0 {
                Some(t)
            } else {
                None
            },
            None => None,
        },
    }
}

/// Text of an optional string slice.
pub open spec fn opt_str(o: Option<&str>) -> Option<Seq<char>> {
    match o {
        Some(s) => Some(s@),
        None => None,
    }
}

/// Reads `Authorization: Bearer <token>`, the scheme word compared
/// case-insensitively. A missing header, another scheme or an empty token
/// is `Unauthorized`.
pub fn extract_bearer_token(authorization: Option<&str>) -> (r: Result<String, ApiError>)
    ensures
        match bearer_outcome(opt_str(authorization)) {
            Some(t) => r matches Ok(s) && s@ == t,
            None => r == Err::<String, ApiError>(ApiError::Unauthorized),
        },
{
    let value = match authorization {
        Some(v) => v,
        None => return Err(ApiError::Unauthorized),
    };
    let cs = chars_of(value);
    if cs.len() < 7 || !(cs[0] == 'B' || cs[0] == 'b') || !(cs[1] == 'E' || cs[1] == 'e') || !(
    cs[2] == 'A' || cs[2] == 'a') || !(cs[3] == 'R' || cs[3] == 'r') || !(cs[4] == 'E' || cs[4]
        == 'e') || !(cs[5] == 'R' || cs[5] == 'r') || cs[6] != ' ' {
        return Err(ApiError::Unauthorized);
    }
    let token = string_from_chars(&cs, 7, cs.len());
    if token.as_str().is_empty() {
        return Err(ApiError::Unauthorized);
    }
    Ok(token)
}

/// Whether `/metrics` must authenticate: a token is configured, or the
/// environment is neither `development` nor `test`.
pub open spec fn metrics_auth_required(token_configured: bool, environment: Seq<char>) -> bool {
    token_configured || !(environment == "development"@ || environment == "test"@)
}

/// Why a metrics scrape was turned away.
#[derive(Debug, Clone, Copy, PartialEq, Eq, Structural)]
pub enum MetricsRejection {
    /// No token configured outside development and test: the endpoint is
    /// disabled (404).
    Disabled,
    /// The presented bearer token does not match (401).
    Denied,
}

/// Outcome of the metrics guard: `None` lets the scrape through.
pub open spec fn metrics_outcome(
    token: Option<Seq<char>>,
    environment: Seq<char>,
    authorization: Option<Seq<char>>,
) -> Option<MetricsRejection> {
    if !metrics_auth_required(token is Some, environment) {
        None
    } else {
        match token {
            None => Some(MetricsRejection::Disabled),
            Some(expected) => {
                let authorized = match authorization {
                    Some(v) => strip_prefix_seq(v, "Bearer "@) == Some(expected),
                    None => false,
                };
                if authorized {
                    None
                } else {
                    Some(MetricsRejection::Denied)
                }
            },
        }
    }
}

/// Whether `/metrics` must authenticate for this configuration.
pub fn metrics_endpoint_requires_auth(token_configured: bool, environment: &str) -> (r: bool)
    ensures
        r == metrics_auth_required(token_configured, environment@),
{
    let env = owned(environment);
    let dev = owned("development");
    let test = owned("test");
    token_configured || !(env == dev || env == test)
}

impl MetricsRejection {
    /// HTTP status of the rejection.
    pub fn status(&self) -> (r: u16)
        ensures
            r == (match *self {
                MetricsRejection::Disabled => 404u16,
                MetricsRejection::Denied => 401u16,
            }),
    {
        match self {
            MetricsRejection::Disabled => 404,
            MetricsRejection::Denied => 401,
        }
    }

    /// Plain-text body of the rejection.
    pub fn message(&self) -> (r: &'static str)
        ensures
            r@ == (match *self {
                MetricsRejection::Disabled => "metrics endpoint disabled in this environment"@,
                MetricsRejection::Denied => "metrics access denied"@,
            }),
    {
        match self {
            MetricsRejection::Disabled => "metrics endpoint disabled in this environment",
            MetricsRejection::Denied => "metrics access denied",
        }
    }
}

/// Guards the Prometheus scrape endpoint. Open in `development` and `test`
/// when no token is configured; otherwise a configured token must be
/// presented as `Bearer <token>`, and without one the endpoint is disabled.
pub fn require_metrics_auth(
    metrics_auth_token: Option<&str>,
    environment: &str,
    authorization: Option<&str>,
) -> (r: Result<(), MetricsRejection>)
    ensures
        match metrics_outcome(opt_str(metrics_auth_token), environment@, opt_str(authorization)) {
            None => r is Ok,
            Some(rej) => r == Err::<(), MetricsRejection>(rej),
        },
{
    if !metrics_endpoint_requires_auth(metrics_auth_token.is_some(), environment) {
        return Ok(());
    }
    let expected = match metrics_auth_token {
        Some(t) => t,
        None => return Err(MetricsRejection::Disabled),
    };
    let authorized = match authorization {
        Some(v) => match strip_prefix(v, "Bearer ") {
            Some(t) => t == owned(expected),
            None => false,
        },
        None => false,
    };
    if authorized {
        Ok(())
    } else {
        Err(MetricsRejection::Denied)
    }
}

/// The first hop of an `X-Forwarded-For` list: the text before the first
/// comma, or all of it.
pub open spec fn first_hop(list: Seq<char>) -> Seq<char> {
    match split_once_seq(list, ',') {
        Some(p) => p.0,
        None => list,
    }
}

/// Address named by trusted proxy headers: the trimmed first forwarded hop
/// when non-empty, else the `X-Real-Ip` value as given.
pub open spec fn proxied_ip(forwarded_for: Option<Seq<char>>, real_ip: Option<Seq<char>>) -> Option<
    Seq<char>,
> {
    match forwarded_for {
        Some(f) => if trim_seq(first_hop(f)).len() > 0 {
            Some(trim_seq(first_hop(f)))
        } else {
            real_ip
        },
        None => real_ip,
    }
}

/// The client address used as a rate-limit key.
pub open spec fn client_ip_of(
    trust_proxy_headers: bool,
    forwarded_for: Option<Seq<char>>,
    real_ip: Option<Seq<char>>,
    peer_ip: Option<Seq<char>>,
) -> Seq<char> {
    let proxied = if trust_proxy_headers {
        proxied_ip(forwarded_for, real_ip)
    } else {
        None
    };
    match proxied {
        Some(ip) => ip,
        None => match peer_ip {
            Some(p) => p,
            None => "unknown"@,
        },
    }
}

/// Whose address keys the rate limit. When proxy headers are not trusted,
/// or no proxy header names an address, it is the socket peer's address
/// when known, and `"unknown"` only when no peer address is known either.
/// With trusted headers, a non-blank first `X-Forwarded-For` hop wins over
/// everything, and otherwise an `X-Real-Ip` value wins over the peer.
pub proof fn law_client_address_sources(
    trust_proxy_headers: bool,
    forwarded_for: Option<Seq<char>>,
    real_ip: Option<Seq<char>>,
    peer_ip: Option<Seq<char>>,
)
    ensures
        (!trust_proxy_headers || (forwarded_for is None && real_ip is None)) ==> client_ip_of(
            trust_proxy_headers,
            forwarded_for,
            real_ip,
            peer_ip,
        ) == (match peer_ip {
            Some(p) => p,
            None => "unknown"@,
        }),
        trust_proxy_headers && (forwarded_for matches Some(f) && trim_seq(first_hop(f)).len() > 0)
            ==> client_ip_of(trust_proxy_headers, forwarded_for, real_ip, peer_ip) == trim_seq(
            first_hop(forwarded_for->0),
        ),
        trust_proxy_headers && forwarded_for is None && real_ip is Some ==> client_ip_of(
            trust_proxy_headers,
            forwarded_for,
            real_ip,
            peer_ip,
        ) == real_ip->0,
{
}

fn first_hop_trimmed(list: &str) -> (r: String)
    ensures
        r@ == trim_seq(first_hop(list@)),
{
    let cs = chars_of(list);
    let end = match find_char(&cs, ',') {
        Some(i) => {
            proof {
                crate::text::lemma_first_index_is(cs@, ',', i as int);
            }
            i
        },
        None => {
            proof {
                crate::text::lemma_first_index_is(cs@, ',', cs@.len() as int);
                assert(cs@.subrange(0, cs@.len() as int) =~= cs@);
            }
            cs.len()
        },
    };
    let hop = string_from_chars(&cs, 0, end);
    trim(hop.as_str())
}

/// Resolves the client address for rate-limit keys. With trusted proxy
/// headers the first `X-Forwarded-For` hop wins, then `X-Real-Ip`;
/// otherwise, or when neither names one, the socket peer address, or
/// `"unknown"`.
pub fn client_ip(
    trust_proxy_headers: bool,
    forwarded_for: Option<&str>,
    real_ip: Option<&str>,
    peer_ip: Option<String>,
) -> (r: String)
    ensures
        r@ == client_ip_of(
            trust_proxy_headers,
            opt_str(forwarded_for),
            opt_str(real_ip),
            match peer_ip {
                Some(p) => Some(p@),
                None => None,
            },
        ),
        (!trust_proxy_headers || (forwarded_for is None && real_ip is None)) ==> r@ == (
        match peer_ip {
            Some(p) => p@,
            None => "unknown"@,
        }),
        trust_proxy_headers && forwarded_for is None ==> (real_ip matches Some(ip) ==> r@ == ip@),
{
    if trust_proxy_headers {
        let from_forwarded = match forwarded_for {
            Some(f) => {
                let hop = first_hop_trimmed(f);
                if !hop.as_str().is_empty() {
                    Some(hop)
                } else {
                    None
                }
            },
            None => None,
        };
        match from_forwarded {
            Some(ip) => return ip,
            None => match real_ip {
                Some(ip) => return owned(ip),
                None => {},
            },
        }
    }
    match peer_ip {
        Some(p) => p,
        None => owned("unknown"),
    }
}

/// The `Idempotency-Key` header value, trimmed; a missing or blank header is
/// `MissingIdempotencyKey`.
pub fn idempotency_key_header(value: Option<&str>) -> (r: Result<String, ApiError>)
    ensures
        match value {
            Some(v) => if trim_seq(v@).len() > 0 {
                r matches Ok(k) && k@ == trim_seq(v@)
            } else {
                r == Err::<String, ApiError>(ApiError::MissingIdempotencyKey)
            },
            None => r == Err::<String, ApiError>(ApiError::MissingIdempotencyKey),
        },
{
    match value {
        Some(v) => {
            let cs = chars_of(v);
            let (a, b) = trim_bounds(&cs);
            if a == b {
                return Err(ApiError::MissingIdempotencyKey);
            }
            Ok(string_from_chars(&cs, a, b))
        },
        None => Err(ApiError::MissingIdempotencyKey),
    }
}

/// Per-request correlation identifiers propagated to handlers and responses.
#[derive(Debug, Clone)]
pub struct RequestContext {
    /// Unique id for this HTTP request.
    pub request_id: String,
    /// Distributed-trace style id.
    pub trace_id: String,
}

/// A correlation id taken from a header: the header when present and
/// non-empty, else a freshly generated UUID in hyphenated form.
pub open spec fn correlation_id_ok(header: Option<Seq<char>>, id: Seq<char>) -> bool {
    match header {
        Some(h) => if h.len() > 0 {
            id == h
        } else {
            exists|u: u128| id == uuid_text_of(u)
        },
        None => exists|u: u128| id == uuid_text_of(u),
    }
}

/// Takes an inbound correlation id, or generates a random UUID when the
/// header is missing or empty.
pub fn correlation_id(header: Option<&str>) -> (r: String)
    ensures
        correlation_id_ok(opt_str(header), r@),
{
    match header {
        Some(h) => {
            if !h.is_empty() {
                return owned(h);
            }
        },
        None => {},
    }
    let id: u128 = new_random_uuid();
    let r = uuid_text(id);
    assert(r@ == uuid_text_of(id));
    r
}

impl RequestContext {
    /// Resolves the request and trace ids from the `x-request-id` and
    /// `x-trace-id` header values.
    pub fn from_headers(request_id: Option<&str>, trace_id: Option<&str>) -> (r: RequestContext)
        ensures
            correlation_id_ok(opt_str(request_id), r.request_id@),
            correlation_id_ok(opt_str(trace_id), r.trace_id@),
    {
        RequestContext { request_id: correlation_id(request_id), trace_id: correlation_id(trace_id) }
    }
}

} // verus!
