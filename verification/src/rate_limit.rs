//! Sliding-window rate limiting for logins and transfers.
//!
//! Each key keeps the times of its admitted requests. A request is admitted
//! when fewer than `max_requests` of them fall within the last `window`;
//! the limiter is process-local.

use vstd::prelude::*;
use std::sync::Arc;
use std::time::{Duration, Instant};
use dashmap::DashMap;
use dashmap::mapref::one::RefMut;
use crate::api_error::ApiError;
use crate::ids::uuid_text;
use crate::text::{owned, push_str};

verus! {

#[verifier::external_type_specification]
#[verifier::external_body]
#[verifier::reject_recursive_types(K)]
#[verifier::reject_recursive_types(V)]
#[verifier::reject_recursive_types(S)]
pub struct ExDashMap<K, V, S>(DashMap<K, V, S>);

#[verifier::external_type_specification]
#[verifier::external_body]
#[verifier::reject_recursive_types(K)]
#[verifier::reject_recursive_types(V)]
pub struct ExRefMut<'a, K, V>(RefMut<'a, K, V>);

#[verifier::external_type_specification]
#[verifier::external_body]
pub struct ExInstant(Instant);

/// Whether a request admitted at `t` still counts at `now` for a window of
/// length `window` (all in nanoseconds): it is later than `now - window`.
pub open spec fn in_window(t: u64, now: u64, window: u64) -> bool {
    t + window > now
}

/// The admission times of one key that still count at `now`.
pub open spec fn live_stamps(stamps: Seq<u64>, now: u64, window: u64) -> Seq<u64> {
    stamps.filter(|t: u64| in_window(t, now, window))
}

/// Admission times of the requests of one key, in nanoseconds since the
/// limiter was created, oldest first.
#[derive(Debug, Clone)]
pub struct SlidingWindow {
    /// Times of the admitted requests still kept.
    pub stamps: Vec<u64>,
}

impl Default for SlidingWindow {
    fn default() -> (r: SlidingWindow)
        ensures
            r.stamps@ == Seq::<u64>::empty(),
    {
        SlidingWindow { stamps: Vec::new() }
    }
}

impl SlidingWindow {
    /// Drops the times that fell out of the window, then admits the request
    /// at `now` when fewer than `max_requests` remain, recording `now`.
    /// Returns whether it was admitted.
    pub fn record_request(&mut self, now: u64, window: u64, max_requests: u32) -> (admitted: bool)
        ensures
            admitted == (live_stamps(old(self).stamps@, now, window).len() < max_requests),
            final(self).stamps@ == (if admitted {
                live_stamps(old(self).stamps@, now, window).push(now)
            } else {
                live_stamps(old(self).stamps@, now, window)
            }),
    {
        let ghost pred = |t: u64| in_window(t, now, window);
        let mut kept: Vec<u64> = Vec::new();
        let mut i: usize = 0;
        while i < self.stamps.len()
            invariant
                i <= self.stamps@.len(),
                self.stamps@ == old(self).stamps@,
                pred == (|t: u64| in_window(t, now, window)),
                kept@ == self.stamps@.take(i as int).filter(pred),
            decreases self.stamps@.len() - i,
        {
            let t: u64 = self.stamps[i];
            let keep = if now >= window {
                t > now - window
            } else {
                true
            };
            proof {
                let s = self.stamps@;
                assert(s.take(i + 1) =~= s.take(i as int).push(t));
                s.take(i as int).lemma_filter_push(t, pred);
            }
            if keep {
                kept.push(t);
            }
            i += 1;
        }
        proof {
            assert(self.stamps@.take(self.stamps@.len() as int) =~= self.stamps@);
        }
        let admitted = kept.len() < max_requests as usize;
        if admitted {
            kept.push(now);
        }
        self.stamps = kept;
        admitted
    }
}

/// With a fixed window and quota, a key never holds more admission times
/// than its quota: admitting keeps the count within `max_requests`.
pub proof fn law_window_within_quota(stamps: Seq<u64>, now: u64, window: u64, max_requests: u32)
    requires
        stamps.len() <= max_requests,
    ensures
        ({
            let live = live_stamps(stamps, now, window);
            let after = if live.len() < max_requests {
                live.push(now)
            } else {
                live
            };
            after.len() <= max_requests
        }),
{
    stamps.lemma_filter_len(|t: u64| in_window(t, now, window));
}

/// A refusal frees no room: right after a key is refused, another request
/// at the same moment is refused as well.
pub proof fn law_refusal_persists(stamps: Seq<u64>, now: u64, window: u64, max_requests: u32)
    requires
        live_stamps(stamps, now, window).len() >= max_requests,
    ensures
        live_stamps(live_stamps(stamps, now, window), now, window).len() >= max_requests,
{
    lemma_filter_idempotent(stamps, now, window);
}

proof fn lemma_filter_idempotent(stamps: Seq<u64>, now: u64, window: u64)
    ensures
        live_stamps(live_stamps(stamps, now, window), now, window) == live_stamps(stamps, now, window),
    decreases stamps.len(),
{
    let pred = |t: u64| in_window(t, now, window);
    if stamps.len() > 0 {
        let init = stamps.drop_last();
        lemma_filter_idempotent(init, now, window);
        assert(stamps =~= init.push(stamps.last()));
        init.lemma_filter_push(stamps.last(), pred);
        init.filter(pred).lemma_filter_push(stamps.last(), pred);
    } else {
        reveal(Seq::filter);
    }
}

/// `DashMap::entry(key).or_default()`: locks the shard holding `key` and
/// gives its entry, inserting an empty window when the key is absent. What
/// the entry holds was left by earlier requests, so nothing is stated of it.
#[verifier::external_body]
fn lock_window<'a>(limits: &'a Arc<DashMap<String, SlidingWindow>>, key: String) -> RefMut<
    'a,
    String,
    SlidingWindow,
> {
    limits.entry(key).or_default()
}

/// `RefMut::value_mut`: the window held by a locked entry.
#[verifier::external_body]
fn window_of<'a, 'b>(entry: &'b mut RefMut<'a, String, SlidingWindow>) -> &'b mut SlidingWindow {
    entry.value_mut()
}

/// `Instant::elapsed` in whole nanoseconds: the time since `origin` on the
/// monotonic clock. It depends on the clock, so nothing is stated of it.
#[verifier::external_body]
fn nanos_since(origin: &Instant) -> u64 {
    origin.elapsed().as_nanos() as u64
}

/// Nanoseconds in a duration (`Duration::as_nanos`, saturated at
/// `u64::MAX`), named by its result: it depends on the duration alone.
pub uninterp spec fn duration_nanos_of(d: Duration) -> u64;

/// `Duration::as_nanos`, saturated at `u64::MAX`.
#[verifier::external_body]
fn duration_nanos(d: Duration) -> (r: u64)
    ensures
        r == duration_nanos_of(d),
{
    u64::try_from(d.as_nanos()).unwrap_or(u64::MAX)
}

/// `Instant::now`: the current time on the monotonic clock.
#[verifier::external_body]
fn instant_now() -> Instant {
    Instant::now()
}

/// Sliding-window in-memory rate limiter keyed by strings. Clones share
/// the same table.
pub struct RateLimiter {
    limits: Arc<DashMap<String, SlidingWindow>>,
    max_requests: u32,
    window_nanos: u64,
    origin: Instant,
}

/// `Arc::new(DashMap::new())`: an empty shared table of windows.
#[verifier::external_body]
fn empty_table() -> Arc<DashMap<String, SlidingWindow>> {
    Arc::new(DashMap::new())
}

impl Clone for RateLimiter {
    fn clone(&self) -> (r: RateLimiter)
        ensures
            r.max_requests() == self.max_requests(),
            r.window_nanos() == self.window_nanos(),
    {
        RateLimiter {
            limits: self.limits.clone(),
            max_requests: self.max_requests,
            window_nanos: self.window_nanos,
            origin: self.origin,
        }
    }
}

impl RateLimiter {
    /// A limiter allowing `max_requests` per `window` for each key.
    pub fn new(max_requests: u32, window: Duration) -> (r: RateLimiter)
        ensures
            r.max_requests() == max_requests,
            r.window_nanos() == duration_nanos_of(window),
    {
        RateLimiter {
            limits: empty_table(),
            max_requests,
            window_nanos: duration_nanos(window),
            origin: instant_now(),
        }
    }

    /// The quota per window.
    pub closed spec fn max_requests(&self) -> u32 {
        self.max_requests
    }

    /// The window length in nanoseconds (`duration_nanos_of` the window the
    /// limiter was made with).
    pub closed spec fn window_nanos(&self) -> u64 {
        self.window_nanos
    }

    /// Admits a request for `key` or refuses it with `RateLimited`. The
    /// key's window is locked while it is read and updated. Whether a
    /// request is let in depends on the requests recorded before it; with a
    /// quota of zero every request is refused.
    pub fn check(&self, key: &str) -> (r: Result<(), ApiError>)
        ensures
            r is Ok || r == Err::<(), ApiError>(ApiError::RateLimited),
            self.max_requests() == 0 ==> r == Err::<(), ApiError>(ApiError::RateLimited),
    {
        let now = nanos_since(&self.origin);
        let mut entry = lock_window(&self.limits, owned(key));
        let window = window_of(&mut entry);
        let admitted = window.record_request(now, self.window_nanos, self.max_requests);
        if admitted {
            Ok(())
        } else {
            Err(ApiError::RateLimited)
        }
    }
}

/// Rate-limit key of a login attempt: `login:` and the client address.
pub fn login_rate_key(client_ip: &str) -> (r: String)
    ensures
        r@ == "login:"@ + client_ip@,
{
    let mut out = owned("login:");
    push_str(&mut out, client_ip);
    out
}

/// Rate-limit key of a transfer: `transfer:` and the authenticated user id,
/// or the peer address when no user is known.
pub fn transfer_rate_key(user_id: Option<u128>, peer_ip: &str) -> (r: String)
    ensures
        r@ == "transfer:"@ + match user_id {
            Some(id) => crate::ids::uuid_text_of(id),
            None => peer_ip@,
        },
{
    let mut out = owned("transfer:");
    match user_id {
        Some(id) => {
            let t = uuid_text(id);
            push_str(&mut out, t.as_str());
        },
        None => push_str(&mut out, peer_ip),
    }
    out
}

} // verus!
