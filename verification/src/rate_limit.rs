//! Sliding-window rate limiting: each client key may make at most `limit`
//! requests in any window of `WINDOW_SIZE_SECS` seconds.
//!
//! Instants are nanoseconds on a monotonic clock, counted from an origin that
//! the caller fixes (the service uses its start-up instant).

use vstd::prelude::*;
use vstd::string::*;
use crate::audit::{forwarded_address, forwarded_client};
use crate::text::{decimal, u64_text};

verus! {

/// Length of the sliding window, in seconds.
pub const WINDOW_SIZE_SECS: u64 = 60;

/// Requests a client may make per window on ordinary endpoints.
pub const GLOBAL_LIMIT: usize = 100;

/// Requests a client may make per window on authentication endpoints.
pub const AUTH_LIMIT: usize = 10;

/// Nanoseconds in one second.
pub const NANOS_PER_SEC: u64 = 1_000_000_000;

/// Length of the sliding window, in nanoseconds.
pub const WINDOW_NANOS: u64 = 60_000_000_000;

/// Outcome of an accepted request.
#[derive(Debug, Clone, Copy, PartialEq, Eq)]
pub struct RateLimitResult {
    pub allowed: bool,
    pub limit: usize,
    pub remaining: usize,
    pub reset_in: u64,
}

/// Why a request was refused.
#[derive(Debug, Clone, Copy, PartialEq, Eq)]
pub enum RateLimitError {
    LimitExceeded { limit: usize, remaining: usize, retry_after: u64 },
}

impl RateLimitError {
    /// Seconds the client should wait before retrying.
    pub fn retry_after(&self) -> (r: u64)
        ensures
            r == match *self {
                RateLimitError::LimitExceeded { retry_after, .. } => retry_after,
            },
    {
        match self {
            RateLimitError::LimitExceeded { retry_after, .. } => *retry_after,
        }
    }
}

impl RateLimitResult {
    /// The headers an accepted response carries: the limit and the requests
    /// left in the window, in decimal.
    pub fn headers(&self) -> (h: Vec<(String, String)>)
        ensures
            h@.len() == 2,
            h@[0].0@ == "x-ratelimit-limit"@,
            h@[0].1@ == decimal(self.limit as nat),
            h@[1].0@ == "x-ratelimit-remaining"@,
            h@[1].1@ == decimal(self.remaining as nat),
    {
        let mut h: Vec<(String, String)> = Vec::new();
        h.push((String::from_str("x-ratelimit-limit"), u64_text(self.limit as u64)));
        h.push((String::from_str("x-ratelimit-remaining"), u64_text(self.remaining as u64)));
        h
    }
}

/// The answer to a refused request: its status, the JSON body's two fields
/// (`error` and `retry_after`) and the headers it carries.
#[derive(Debug, Clone)]
pub struct RateLimitRejection {
    pub status: u16,
    pub error: String,
    pub retry_after: u64,
    pub headers: Vec<(String, String)>,
}

impl RateLimitError {
    /// A refused request is answered `429 Too Many Requests`, with body
    /// `{"error": "Rate limit exceeded", "retry_after": n}` and the headers
    /// `x-ratelimit-remaining: 0` and `retry-after: n`.
    pub fn rejection(&self) -> (r: RateLimitRejection)
        ensures
            r.status == 429,
            r.error@ == "Rate limit exceeded"@,
            r.retry_after == match *self {
                RateLimitError::LimitExceeded { retry_after, .. } => retry_after,
            },
            r.headers@.len() == 2,
            r.headers@[0].0@ == "x-ratelimit-remaining"@,
            r.headers@[0].1@ == "0"@,
            r.headers@[1].0@ == "retry-after"@,
            r.headers@[1].1@ == decimal(r.retry_after as nat),
    {
        let retry_after = self.retry_after();
        let mut headers: Vec<(String, String)> = Vec::new();
        headers.push((String::from_str("x-ratelimit-remaining"), String::from_str("0")));
        headers.push((String::from_str("retry-after"), u64_text(retry_after)));
        RateLimitRejection {
            status: 429,
            error: String::from_str("Rate limit exceeded"),
            retry_after,
            headers,
        }
    }
}

/// Which limit a route is subject to.
#[derive(Debug, Clone, Copy, PartialEq, Eq)]
pub enum RateLimitType {
    Global,
    Auth,
}

/// The counter key of a client under a limit type: `"global:<ip>"` or `"auth:<ip>"`.
pub open spec fn limit_key(t: RateLimitType, client_ip: Seq<char>) -> Seq<char> {
    match t {
        RateLimitType::Global => "global:"@ + client_ip,
        RateLimitType::Auth => "auth:"@ + client_ip,
    }
}

/// The number of requests per window that a limit type allows.
pub open spec fn type_limit(t: RateLimitType) -> usize {
    match t {
        RateLimitType::Global => GLOBAL_LIMIT,
        RateLimitType::Auth => AUTH_LIMIT,
    }
}

/// Ordinary endpoints allow a client 100 requests a minute and
/// authentication endpoints 10; the window is one minute, in seconds and in
/// nanoseconds alike. Each client is counted apart under each limit: two
/// counter keys are equal only for the same limit and the same address.
pub proof fn law_limits_and_keys(t1: RateLimitType, a: Seq<char>, t2: RateLimitType, b: Seq<char>)
    ensures
        type_limit(RateLimitType::Global) == 100,
        type_limit(RateLimitType::Auth) == 10,
        WINDOW_SIZE_SECS == 60,
        WINDOW_NANOS == WINDOW_SIZE_SECS * NANOS_PER_SEC,
        NANOS_PER_SEC == 1_000_000_000,
        limit_key(t1, a) == limit_key(t2, b) ==> t1 == t2 && a == b,
{
    reveal_strlit("global:");
    reveal_strlit("auth:");
    if limit_key(t1, a) == limit_key(t2, b) {
        let k = limit_key(t1, a);
        let p1 = match t1 {
            RateLimitType::Global => "global:"@,
            RateLimitType::Auth => "auth:"@,
        };
        let p2 = match t2 {
            RateLimitType::Global => "global:"@,
            RateLimitType::Auth => "auth:"@,
        };
        assert(k[0] == p1[0] && k[0] == p2[0]);
        assert(t1 == t2);
        assert(a =~= k.skip(p1.len() as int));
        assert(b =~= k.skip(p2.len() as int));
    }
}

impl RateLimitType {
    /// The number of requests per window that this type allows.
    pub fn limit(&self) -> (n: usize)
        ensures
            n == type_limit(*self),
    {
        match self {
            RateLimitType::Global => GLOBAL_LIMIT,
            RateLimitType::Auth => AUTH_LIMIT,
        }
    }

    /// The counter key under which requests of `client_ip` are counted.
    pub fn key_for(&self, client_ip: &str) -> (k: String)
        ensures
            k@ == limit_key(*self, client_ip@),
    {
        let mut k = match self {
            RateLimitType::Global => String::from_str("global:"),
            RateLimitType::Auth => String::from_str("auth:"),
        };
        k.append(client_ip);
        k
    }
}

/// The address a client is counted under: the first entry of its
/// `X-Forwarded-For` header, trimmed, or `unknown` without one.
pub fn client_ip(forwarded_for: Option<&str>) -> (ip: String)
    ensures
        ip@ == match forwarded_for {
            Some(h) => forwarded_address(h@),
            None => "unknown"@,
        },
{
    match forwarded_client(forwarded_for) {
        Some(a) => a,
        None => String::from_str("unknown"),
    }
}

/// Whether a request made at `t` still counts at instant `now`.
pub open spec fn in_window(t: u64, now: u64) -> bool {
    t + WINDOW_NANOS > now
}

/// The instants of `ts` that still count at `now`, in their order.
pub open spec fn keep_recent(ts: Seq<u64>, now: u64) -> Seq<u64>
    decreases ts.len(),
{
    if ts.len() == 0 {
        ts
    } else {
        let r = keep_recent(ts.drop_last(), now);
        if in_window(ts.last(), now) {
            r.push(ts.last())
        } else {
            r
        }
    }
}

/// Whether some instant of `ts` still counts at `now`.
pub open spec fn has_recent(ts: Seq<u64>, now: u64) -> bool {
    exists|i: int| 0 <= i < ts.len() && in_window(#[trigger] ts[i], now)
}

/// What a periodic cleanup at `now` leaves of a client's record.
pub open spec fn surviving(e: Option<Seq<u64>>, now: u64) -> Option<Seq<u64>> {
    match e {
        Some(ts) => if has_recent(ts, now) {
            Some(ts)
        } else {
            None
        },
        None => None,
    }
}

/// Seconds until the oldest counted request leaves the window, as reported
/// to a refused client.
pub open spec fn retry_after_secs(first: u64, now: u64) -> u64 {
    let elapsed: int = if now > first {
        (now - first) / (NANOS_PER_SEC as int)
    } else {
        0
    };
    if elapsed >= WINDOW_SIZE_SECS {
        0
    } else {
        (WINDOW_SIZE_SECS - elapsed) as u64
    }
}

/// Every instant kept by `keep_recent` counts at `now`, and none is added.
pub proof fn lemma_keep_recent(ts: Seq<u64>, now: u64)
    ensures
        keep_recent(ts, now).len() <= ts.len(),
        forall|i: int|
            0 <= i < keep_recent(ts, now).len() ==> in_window(#[trigger] keep_recent(ts, now)[i], now),
    decreases ts.len(),
{
    if ts.len() > 0 {
        lemma_keep_recent(ts.drop_last(), now);
    }
}

proof fn lemma_keep_recent_none(ts: Seq<u64>, now: u64)
    requires
        !has_recent(ts, now),
    ensures
        keep_recent(ts, now) == Seq::<u64>::empty(),
    decreases ts.len(),
{
    if ts.len() > 0 {
        assert forall|i: int| 0 <= i < ts.drop_last().len() implies !in_window(
            #[trigger] ts.drop_last()[i],
            now,
        ) by {
            assert(ts.drop_last()[i] == ts[i]);
        }
        lemma_keep_recent_none(ts.drop_last(), now);
        assert(!in_window(ts[ts.len() - 1], now));
    }
}

/// A periodic cleanup never changes what a check decides, then or later:
/// the requests of a client that count at any instant from the cleanup on
/// are the same whether the cleanup ran or not.
pub proof fn law_cleanup_keeps_counts(e: Option<Seq<u64>>, at: u64, later: u64)
    requires
        at <= later,
    ensures
        keep_recent(surviving(e, at).unwrap_or(Seq::empty()), later) == keep_recent(
            e.unwrap_or(Seq::empty()),
            later,
        ),
{
    if let Some(ts) = e {
        if !has_recent(ts, at) {
            assert forall|i: int| 0 <= i < ts.len() implies !in_window(#[trigger] ts[i], later) by {
                assert(!in_window(ts[i], at));
            }
            lemma_keep_recent_none(ts, later);
        }
    }
}

/// One check of `key` against `limit` at `now`, taking the counters from
/// `before` to `after` with outcome `res`: the counters are first cleaned up
/// when the last cleanup is more than one window old; then the instants of
/// `key` that still count are kept, and the request is recorded and accepted
/// if fewer than `limit` remain, or refused otherwise. No other key changes.
pub open spec fn rate_limit_step(
    before: RateLimiterState,
    key: Seq<char>,
    limit: usize,
    now: u64,
    after: RateLimiterState,
    res: Result<RateLimitResult, RateLimitError>,
) -> bool {
    let cleaned = now > before.last_cleanup() + WINDOW_NANOS;
    let prior = |k: Seq<char>|
        if cleaned {
            surviving(before.entry(k), now)
        } else {
            before.entry(k)
        };
    let kept = keep_recent(prior(key).unwrap_or(Seq::empty()), now);
    &&& after.last_cleanup() == if cleaned {
        now
    } else {
        before.last_cleanup()
    }
    &&& forall|k: Seq<char>| k != key ==> #[trigger] after.entry(k) == prior(k)
    &&& match res {
        Ok(r) => {
            &&& kept.len() < limit
            &&& r == RateLimitResult {
                allowed: true,
                limit,
                remaining: (limit - kept.len() - 1) as usize,
                reset_in: WINDOW_SIZE_SECS,
            }
            &&& after.entry(key) == Some(kept.push(now))
        },
        Err(e) => {
            &&& kept.len() >= limit
            &&& e == RateLimitError::LimitExceeded {
                limit,
                remaining: 0,
                retry_after: if kept.len() > 0 {
                    retry_after_secs(kept[0], now)
                } else {
                    0
                },
            }
            &&& after.entry(key) == Some(kept)
        },
    }
}

/// Request counters per client key.
pub struct RateLimiterState {
    keys: Vec<String>,
    stamps: Vec<Vec<u64>>,
    last_cleanup: u64,
}

impl RateLimiterState {
    /// The counters are consistent: one list of instants per key, and no key twice.
    pub closed spec fn well_formed(&self) -> bool {
        &&& self.keys@.len() == self.stamps@.len()
        &&& forall|i: int, j: int|
            0 <= i < self.keys@.len() && 0 <= j < self.keys@.len() && i != j ==> self.keys@[i]@
                != self.keys@[j]@
    }

    /// The instants recorded for `key`, if it has a record.
    pub closed spec fn entry(&self, key: Seq<char>) -> Option<Seq<u64>> {
        if exists|i: int| 0 <= i < self.keys@.len() && #[trigger] self.keys@[i]@ == key {
            let i = choose|i: int| 0 <= i < self.keys@.len() && #[trigger] self.keys@[i]@ == key;
            Some(self.stamps@[i]@)
        } else {
            None
        }
    }

    /// The instant of the last periodic cleanup.
    pub closed spec fn last_cleanup(&self) -> u64 {
        self.last_cleanup
    }

    proof fn lemma_entry_at(&self, i: int)
        requires
            self.well_formed(),
            0 <= i < self.keys@.len(),
        ensures
            self.entry(self.keys@[i]@) == Some(self.stamps@[i]@),
    {
        let key = self.keys@[i]@;
        assert(self.keys@[i]@ == key);
        let j = choose|j: int| 0 <= j < self.keys@.len() && #[trigger] self.keys@[j]@ == key;
        assert(j == i);
    }

    proof fn lemma_entry_absent(&self, key: Seq<char>)
        requires
            forall|i: int| 0 <= i < self.keys@.len() ==> #[trigger] self.keys@[i]@ != key,
        ensures
            self.entry(key) == None::<Seq<u64>>,
    {
    }

    /// An empty set of counters whose last cleanup is `now`.
    pub fn new(now: u64) -> (s: Self)
        ensures
            s.well_formed(),
            s.last_cleanup() == now,
            forall|k: Seq<char>| s.entry(k) == None::<Seq<u64>>,
    {
        RateLimiterState { keys: Vec::new(), stamps: Vec::new(), last_cleanup: now }
    }

    fn find(&self, key: &String) -> (r: Option<usize>)
        requires
            self.well_formed(),
        ensures
            match r {
                Some(i) => i < self.keys@.len() && self.keys@[i as int]@ == key@,
                None => forall|i: int| 0 <= i < self.keys@.len() ==> #[trigger] self.keys@[i]@ != key@,
            },
    {
        let n = self.keys.len();
        let mut i: usize = 0;
        while i < n
            invariant
                n == self.keys@.len(),
                i <= n,
                forall|j: int| 0 <= j < i ==> #[trigger] self.keys@[j]@ != key@,
            decreases n - i,
        {
            if self.keys[i] == *key {
                return Some(i);
            }
            i = i + 1;
        }
        None
    }

    /// Drops the record of every client none of whose requests still counts at `now`.
    pub fn cleanup(&mut self, now: u64)
        requires
            old(self).well_formed(),
        ensures
            final(self).well_formed(),
            final(self).last_cleanup() == old(self).last_cleanup(),
            forall|k: Seq<char>| #[trigger] final(self).entry(k) == surviving(old(self).entry(k), now),
    {
        let n = self.keys.len();
        let mut keys: Vec<String> = Vec::new();
        let mut stamps: Vec<Vec<u64>> = Vec::new();
        let ghost src: Seq<int> = Seq::empty();
        let mut i: usize = 0;
        while i < n
            invariant
                n == self.keys@.len(),
                self.well_formed(),
                i <= n,
                keys@.len() == stamps@.len(),
                src.len() == keys@.len(),
                forall|a: int, b: int| 0 <= a < b < src.len() ==> src[a] < src[b],
                forall|a: int|
                    0 <= a < src.len() ==> {
                        &&& 0 <= #[trigger] src[a] < i
                        &&& keys@[a]@ == self.keys@[src[a]]@
                        &&& stamps@[a]@ == self.stamps@[src[a]]@
                        &&& has_recent(self.stamps@[src[a]]@, now)
                    },
                forall|j: int|
                    0 <= j < i && has_recent(#[trigger] self.stamps@[j]@, now) ==> exists|a: int|
                        0 <= a < src.len() && src[a] == j,
            decreases n - i,
        {
            let ts = &self.stamps[i];
            let m = ts.len();
            let mut k: usize = 0;
            let mut found = false;
            while k < m && !found
                invariant
                    m == ts@.len(),
                    k <= m,
                    found ==> has_recent(ts@, now),
                    !found ==> forall|q: int| 0 <= q < k ==> !in_window(#[trigger] ts@[q], now),
                decreases m - k,
            {
                let t = ts[k];
                if now < WINDOW_NANOS || t > now - WINDOW_NANOS {
                    found = true;
                    assert(in_window(ts@[k as int], now));
                }
                k = k + 1;
            }
            if found {
                keys.push(self.keys[i].clone());
                stamps.push(self.stamps[i].clone());
                proof {
                    let old_src = src;
                    src = src.push(i as int);
                    assert forall|j: int|
                        0 <= j < i + 1 && has_recent(#[trigger] self.stamps@[j]@, now) implies exists|
                        a: int,
                    | 0 <= a < src.len() && src[a] == j by {
                        if j == i {
                            assert(src[src.len() - 1] == j);
                        } else {
                            let a = choose|a: int| 0 <= a < old_src.len() && old_src[a] == j;
                            assert(src[a] == j);
                        }
                    }
                }
            } else {
                proof {
                    assert(!has_recent(self.stamps@[i as int]@, now));
                }
            }
            i = i + 1;
        }
        proof {
            let ghost newk = keys@;
            assert forall|a: int, b: int|
                0 <= a < newk.len() && 0 <= b < newk.len() && a != b implies newk[a]@ != newk[b]@ by {
                if a < b {
                    assert(src[a] < src[b]);
                } else {
                    assert(src[b] < src[a]);
                }
            }
        }
        let ghost old_state = *self;
        self.keys = keys;
        self.stamps = stamps;
        proof {
            assert forall|k: Seq<char>| #[trigger]
                self.entry(k) == surviving(old_state.entry(k), now) by {
                if exists|a: int| 0 <= a < self.keys@.len() && #[trigger] self.keys@[a]@ == k {
                    let a = choose|a: int| 0 <= a < self.keys@.len() && #[trigger] self.keys@[a]@
                        == k;
                    self.lemma_entry_at(a);
                    old_state.lemma_entry_at(src[a]);
                } else {
                    self.lemma_entry_absent(k);
                    if exists|j: int| 0 <= j < old_state.keys@.len() && #[trigger] old_state.keys@[j]@ == k {
                        let j = choose|j: int| 0 <= j < old_state.keys@.len() && #[trigger] old_state.keys@[j]@ == k;
                        old_state.lemma_entry_at(j);
                        if has_recent(old_state.stamps@[j]@, now) {
                            let a = choose|a: int| 0 <= a < src.len() && src[a] == j;
                            assert(self.keys@[a]@ == k);
                        }
                    } else {
                        old_state.lemma_entry_absent(k);
                    }
                }
            }
        }
    }

    /// Records a request of `key` at instant `now` if fewer than `limit`
    /// requests of that key count in the window ending at `now`; refuses it
    /// otherwise. A cleanup runs first when the last one is more than one
    /// window old.
    pub fn check_rate_limit(&mut self, key: &str, limit: usize, now: u64) -> (res: Result<
        RateLimitResult,
        RateLimitError,
    >)
        requires
            old(self).well_formed(),
        ensures
            final(self).well_formed(),
            rate_limit_step(*old(self), key@, limit, now, *final(self), res),
            // No key ever holds more accepted requests in one window than its limit.
            res is Ok ==> (final(self).entry(key@) matches Some(ts) && ts.len() <= limit && forall|
                i: int,
            | 0 <= i < ts.len() ==> in_window(#[trigger] ts[i], now)),
    {
        let ghost old_state = *self;
        if now > self.last_cleanup && now - self.last_cleanup > WINDOW_NANOS {
            self.cleanup(now);
            let ghost cleaned_state = *self;
            self.last_cleanup = now;
            assert(self.keys == cleaned_state.keys && self.stamps == cleaned_state.stamps);
            assert forall|k: Seq<char>| #[trigger] self.entry(k) == cleaned_state.entry(k) by {
                if exists|i: int| 0 <= i < self.keys@.len() && #[trigger] self.keys@[i]@ == k {
                    let i = choose|i: int| 0 <= i < self.keys@.len() && #[trigger] self.keys@[i]@ == k;
                    self.lemma_entry_at(i);
                    cleaned_state.lemma_entry_at(i);
                } else {
                    self.lemma_entry_absent(k);
                    cleaned_state.lemma_entry_absent(k);
                }
            }
        }
        let ghost prior_state = *self;
        let ghost cleaned = now > old_state.last_cleanup + WINDOW_NANOS;
        let ghost prior = |k: Seq<char>|
            if cleaned {
                surviving(old_state.entry(k), now)
            } else {
                old_state.entry(k)
            };
        assert forall|k: Seq<char>| #[trigger] prior_state.entry(k) == prior(k) by {
            if cleaned {
                assert(prior_state.entry(k) == surviving(old_state.entry(k), now));
            } else {
                assert(prior_state == old_state);
            }
        }
        let key_string = key.to_owned();
        let idx = match self.find(&key_string) {
            Some(i) => i,
            None => {
                self.keys.push(key_string);
                self.stamps.push(Vec::new());
                proof {
                    let ghost n = prior_state.keys@.len();
                    assert forall|i: int, j: int|
                        0 <= i < self.keys@.len() && 0 <= j < self.keys@.len() && i != j implies self.keys@[i]@
                        != self.keys@[j]@ by {
                        if i < n && j < n {
                            assert(prior_state.keys@[i] == self.keys@[i]);
                            assert(prior_state.keys@[j] == self.keys@[j]);
                        }
                    }
                    assert forall|k: Seq<char>| k != key@ implies #[trigger] self.entry(k) == prior_state.entry(k) by {
                        if exists|i: int| 0 <= i < prior_state.keys@.len() && #[trigger] prior_state.keys@[i]@ == k {
                            let i = choose|i: int| 0 <= i < prior_state.keys@.len() && #[trigger] prior_state.keys@[i]@ == k;
                            prior_state.lemma_entry_at(i);
                            assert(self.keys@[i] == prior_state.keys@[i]);
                            self.lemma_entry_at(i);
                        } else {
                            prior_state.lemma_entry_absent(k);
                            assert forall|i: int| 0 <= i < self.keys@.len() implies #[trigger] self.keys@[i]@ != k by {
                                if i < n {
                                    assert(self.keys@[i] == prior_state.keys@[i]);
                                }
                            }
                            self.lemma_entry_absent(k);
                        }
                    }
                    prior_state.lemma_entry_absent(key@);
                }
                self.keys.len() - 1
            },
        };
        let ghost mid_state = *self;
        proof {
            mid_state.lemma_entry_at(idx as int);
        }
        let ghost old_ts = self.stamps@[idx as int]@;
        assert(old_ts == prior_state.entry(key@).unwrap_or(Seq::empty()));
        let kept = {
            let ts = &self.stamps[idx];
            let m = ts.len();
            let mut out: Vec<u64> = Vec::new();
            let mut k: usize = 0;
            assert(ts@.take(0) =~= Seq::<u64>::empty());
            while k < m
                invariant
                    m == ts@.len(),
                    k <= m,
                    out@ == keep_recent(ts@.take(k as int), now),
                decreases m - k,
            {
                let t = ts[k];
                assert(ts@.take(k + 1).drop_last() =~= ts@.take(k as int));
                if now < WINDOW_NANOS || t > now - WINDOW_NANOS {
                    out.push(t);
                }
                k = k + 1;
            }
            assert(ts@.take(m as int) =~= ts@);
            out
        };
        let count = kept.len();
        proof {
            lemma_keep_recent(old_ts, now);
        }
        if count >= limit {
            let retry_after = if count > 0 {
                let first = kept[0];
                let elapsed = if now > first {
                    (now - first) / NANOS_PER_SEC
                } else {
                    0
                };
                if elapsed >= WINDOW_SIZE_SECS {
                    0
                } else {
                    WINDOW_SIZE_SECS - elapsed
                }
            } else {
                0
            };
            let ghost kept_view = kept@;
            self.stamps.set(idx, kept);
            proof {
                self.lemma_entry_at(idx as int);
                assert forall|k: Seq<char>| k != key@ implies #[trigger] self.entry(k) == mid_state.entry(k) by {
                    if exists|i: int| 0 <= i < mid_state.keys@.len() && #[trigger] mid_state.keys@[i]@ == k {
                        let i = choose|i: int| 0 <= i < mid_state.keys@.len() && #[trigger] mid_state.keys@[i]@ == k;
                        mid_state.lemma_entry_at(i);
                        self.lemma_entry_at(i);
                    } else {
                        mid_state.lemma_entry_absent(k);
                        self.lemma_entry_absent(k);
                    }
                }
            }
            assert(forall|k: Seq<char>| k != key@ ==> #[trigger] self.entry(k) == prior(k));
            assert(self.entry(key@) == Some(keep_recent(prior(key@).unwrap_or(Seq::empty()), now)));
            return Err(RateLimitError::LimitExceeded { limit, remaining: 0, retry_after });
        }
        let mut kept = kept;
        kept.push(now);
        let remaining = limit - kept.len();
        self.stamps.set(idx, kept);
        proof {
            self.lemma_entry_at(idx as int);
            assert forall|k: Seq<char>| k != key@ implies #[trigger] self.entry(k) == mid_state.entry(k) by {
                if exists|i: int| 0 <= i < mid_state.keys@.len() && #[trigger] mid_state.keys@[i]@ == k {
                    let i = choose|i: int| 0 <= i < mid_state.keys@.len() && #[trigger] mid_state.keys@[i]@ == k;
                    mid_state.lemma_entry_at(i);
                    self.lemma_entry_at(i);
                } else {
                    mid_state.lemma_entry_absent(k);
                    self.lemma_entry_absent(k);
                }
            }
        }
        assert(forall|k: Seq<char>| k != key@ ==> #[trigger] self.entry(k) == prior(k));
        assert(self.entry(key@) == Some(keep_recent(prior(key@).unwrap_or(Seq::empty()), now).push(now)));
        Ok(RateLimitResult { allowed: true, limit, remaining, reset_in: WINDOW_SIZE_SECS })
    }
}

impl RateLimiterState {
    /// Checks a request of `client_ip` against the global limit, under the
    /// key `global:<ip>`.
    pub fn check_global(&mut self, client_ip: &str, now: u64) -> (res: Result<
        RateLimitResult,
        RateLimitError,
    >)
        requires
            old(self).well_formed(),
        ensures
            final(self).well_formed(),
            rate_limit_step(
                *old(self),
                limit_key(RateLimitType::Global, client_ip@),
                GLOBAL_LIMIT,
                now,
                *final(self),
                res,
            ),
    {
        let key = RateLimitType::Global.key_for(client_ip);
        self.check_rate_limit(key.as_str(), GLOBAL_LIMIT, now)
    }

    /// Checks a request of `client_ip` against the authentication limit,
    /// under the key `auth:<ip>`.
    pub fn check_auth(&mut self, client_ip: &str, now: u64) -> (res: Result<
        RateLimitResult,
        RateLimitError,
    >)
        requires
            old(self).well_formed(),
        ensures
            final(self).well_formed(),
            rate_limit_step(
                *old(self),
                limit_key(RateLimitType::Auth, client_ip@),
                AUTH_LIMIT,
                now,
                *final(self),
                res,
            ),
    {
        let key = RateLimitType::Auth.key_for(client_ip);
        self.check_rate_limit(key.as_str(), AUTH_LIMIT, now)
    }
}

/// A rate limit placed in front of a group of routes: the counters, and the
/// limit the routes are subject to.
pub struct RateLimitMiddleware {
    limiter: RateLimiterState,
    limit_type: RateLimitType,
}

impl RateLimitMiddleware {
    /// The counters are consistent.
    pub closed spec fn well_formed(&self) -> bool {
        self.limiter.well_formed()
    }

    /// The counters behind this limit.
    pub closed spec fn counters(&self) -> RateLimiterState {
        self.limiter
    }

    /// The limit type this middleware applies.
    pub closed spec fn kind(&self) -> RateLimitType {
        self.limit_type
    }

    /// A middleware of type `limit_type` with no request counted yet.
    pub fn new(limit_type: RateLimitType, now: u64) -> (m: Self)
        ensures
            m.well_formed(),
            m.kind() == limit_type,
            m.counters().last_cleanup() == now,
            forall|k: Seq<char>| m.counters().entry(k) == None::<Seq<u64>>,
    {
        RateLimitMiddleware { limiter: RateLimiterState::new(now), limit_type }
    }

    /// Counts a request whose `X-Forwarded-For` header is `forwarded_for`
    /// (the client is `unknown` without one) against this middleware's
    /// limit, at instant `now`.
    pub fn check(&mut self, forwarded_for: Option<&str>, now: u64) -> (res: Result<
        RateLimitResult,
        RateLimitError,
    >)
        requires
            old(self).well_formed(),
        ensures
            final(self).well_formed(),
            final(self).kind() == old(self).kind(),
            rate_limit_step(
                old(self).counters(),
                limit_key(
                    old(self).kind(),
                    match forwarded_for {
                        Some(h) => forwarded_address(h@),
                        None => "unknown"@,
                    },
                ),
                type_limit(old(self).kind()),
                now,
                final(self).counters(),
                res,
            ),
    {
        let ip = client_ip(forwarded_for);
        match self.limit_type {
            RateLimitType::Global => self.limiter.check_global(ip.as_str(), now),
            RateLimitType::Auth => self.limiter.check_auth(ip.as_str(), now),
        }
    }
}

/// The instants of a client's record in `s`, none when it has no record.
pub open spec fn recorded(s: RateLimiterState, key: Seq<char>) -> Seq<u64> {
    s.entry(key).unwrap_or(Seq::empty())
}

/// The instants of the accepted checks of a history, in order.
pub open spec fn accepted_instants(
    times: Seq<u64>,
    results: Seq<Result<RateLimitResult, RateLimitError>>,
) -> Seq<u64>
    decreases times.len(),
{
    if times.len() == 0 || results.len() == 0 {
        Seq::empty()
    } else {
        let rest = accepted_instants(times.drop_last(), results.drop_last());
        if results.last() is Ok {
            rest.push(times.last())
        } else {
            rest
        }
    }
}

proof fn lemma_keep_recent_push(ts: Seq<u64>, t: u64, now: u64)
    ensures
        keep_recent(ts.push(t), now) == if in_window(t, now) {
            keep_recent(ts, now).push(t)
        } else {
            keep_recent(ts, now)
        },
{
    assert(ts.push(t).drop_last() =~= ts);
    assert(ts.push(t).last() == t);
}

proof fn lemma_keep_recent_twice(ts: Seq<u64>, at: u64, now: u64)
    requires
        at <= now,
    ensures
        keep_recent(keep_recent(ts, at), now) == keep_recent(ts, now),
    decreases ts.len(),
{
    if ts.len() > 0 {
        let init = ts.drop_last();
        lemma_keep_recent_twice(init, at, now);
        if in_window(ts.last(), at) {
            lemma_keep_recent_push(keep_recent(init, at), ts.last(), now);
        }
    }
}

proof fn lemma_history(
    states: Seq<RateLimiterState>,
    results: Seq<Result<RateLimitResult, RateLimitError>>,
    times: Seq<u64>,
    key: Seq<char>,
    limit: usize,
    k: int,
)
    requires
        states.len() == results.len() + 1,
        times.len() == results.len(),
        states[0].entry(key) is None,
        forall|i: int|
            0 <= i < results.len() ==> rate_limit_step(
                #[trigger] states[i],
                key,
                limit,
                times[i],
                states[i + 1],
                results[i],
            ),
        forall|i: int, j: int| 0 <= i <= j < times.len() ==> times[i] <= times[j],
        0 <= k <= results.len(),
    ensures
        recorded(states[k], key).len() <= limit,
        forall|now: u64|
            (k == 0 || times[k - 1] <= now) ==> #[trigger] keep_recent(recorded(states[k], key), now)
                == keep_recent(accepted_instants(times.take(k), results.take(k)), now),
    decreases k,
{
    if k == 0 {
        assert(times.take(0) =~= Seq::<u64>::empty());
        assert(recorded(states[0], key) =~= Seq::<u64>::empty());
    } else {
        lemma_history(states, results, times, key, limit, k - 1);
        let i = k - 1;
        let before = states[i];
        let after = states[k];
        let t = times[i];
        assert(rate_limit_step(before, key, limit, t, after, results[i]));
        let cleaned = t > before.last_cleanup() + WINDOW_NANOS;
        let prior = if cleaned {
            surviving(before.entry(key), t).unwrap_or(Seq::empty())
        } else {
            before.entry(key).unwrap_or(Seq::empty())
        };
        let kept = keep_recent(prior, t);
        assert(times.take(k).drop_last() =~= times.take(i));
        assert(results.take(k).drop_last() =~= results.take(i));
        assert(times.take(k).last() == t);
        assert(results.take(k).last() == results[i]);
        let acc0 = accepted_instants(times.take(i), results.take(i));
        assert(i == 0 || times[i - 1] <= t);
        assert forall|now: u64| t <= now implies keep_recent(prior, now) == keep_recent(
            recorded(before, key),
            now,
        ) by {
            if cleaned {
                law_cleanup_keeps_counts(before.entry(key), t, now);
            }
        }
        lemma_keep_recent(prior, t);
        assert(prior.len() <= recorded(before, key).len());
        assert forall|now: u64| t <= now implies #[trigger] keep_recent(recorded(after, key), now)
            == keep_recent(accepted_instants(times.take(k), results.take(k)), now) by {
            lemma_keep_recent_twice(prior, t, now);
            assert(keep_recent(recorded(before, key), now) == keep_recent(acc0, now));
            if results[i] is Ok {
                lemma_keep_recent_push(kept, t, now);
                lemma_keep_recent_push(acc0, t, now);
            }
        }
    }
}

/// Over any history of checks of one client key against one limit, made at
/// non-decreasing instants from counters that held no record of the key, at
/// most `limit` of the accepted requests fall in the window that ends at any
/// instant from the last check on.
pub proof fn law_rate_limit_history(
    states: Seq<RateLimiterState>,
    results: Seq<Result<RateLimitResult, RateLimitError>>,
    times: Seq<u64>,
    key: Seq<char>,
    limit: usize,
    now: u64,
)
    requires
        states.len() == results.len() + 1,
        times.len() == results.len(),
        states[0].entry(key) is None,
        forall|i: int|
            0 <= i < results.len() ==> rate_limit_step(
                #[trigger] states[i],
                key,
                limit,
                times[i],
                states[i + 1],
                results[i],
            ),
        forall|i: int, j: int| 0 <= i <= j < times.len() ==> times[i] <= times[j],
        times.len() > 0 ==> times.last() <= now,
    ensures
        keep_recent(accepted_instants(times, results), now).len() <= limit,
{
    let n = results.len() as int;
    lemma_history(states, results, times, key, limit, n);
    assert(times.take(n) =~= times);
    assert(results.take(n) =~= results);
    assert(n == 0 || times[n - 1] <= now);
    assert(keep_recent(recorded(states[n], key), now) == keep_recent(
        accepted_instants(times, results),
        now,
    ));
    lemma_keep_recent(recorded(states[n], key), now);
}

/// Each check in a history of checks of one client key against one limit,
/// made at non-decreasing instants from counters that held no record of the
/// key, is decided by the requests accepted before it alone: with `counted`
/// the earlier accepted requests that still fall in the window when the
/// check is made, the check is accepted, with `limit - counted - 1`
/// requests remaining and a reset in one window, when fewer than `limit`
/// are counted; otherwise it is refused with none remaining and a retry
/// delay counted from the oldest of them. Refused checks, and checks of
/// other keys, count for nothing.
pub proof fn law_rate_limit_outcome(
    states: Seq<RateLimiterState>,
    results: Seq<Result<RateLimitResult, RateLimitError>>,
    times: Seq<u64>,
    key: Seq<char>,
    limit: usize,
    k: int,
)
    requires
        states.len() == results.len() + 1,
        times.len() == results.len(),
        states[0].entry(key) is None,
        forall|i: int|
            0 <= i < results.len() ==> rate_limit_step(
                #[trigger] states[i],
                key,
                limit,
                times[i],
                states[i + 1],
                results[i],
            ),
        forall|i: int, j: int| 0 <= i <= j < times.len() ==> times[i] <= times[j],
        0 <= k < results.len(),
    ensures
        ({
            let counted = keep_recent(accepted_instants(times.take(k), results.take(k)), times[k]);
            &&& counted.len() < limit ==> results[k] == Ok::<RateLimitResult, RateLimitError>(
                RateLimitResult {
                    allowed: true,
                    limit,
                    remaining: (limit - counted.len() - 1) as usize,
                    reset_in: WINDOW_SIZE_SECS,
                },
            )
            &&& counted.len() >= limit ==> results[k] == Err::<RateLimitResult, RateLimitError>(
                RateLimitError::LimitExceeded {
                    limit,
                    remaining: 0,
                    retry_after: if counted.len() > 0 {
                        retry_after_secs(counted[0], times[k])
                    } else {
                        0
                    },
                },
            )
        }),
{
    lemma_history(states, results, times, key, limit, k);
    let before = states[k];
    let t = times[k];
    assert(rate_limit_step(before, key, limit, t, states[k + 1], results[k]));
    assert(k == 0 || times[k - 1] <= t);
    let cleaned = t > before.last_cleanup() + WINDOW_NANOS;
    if cleaned {
        law_cleanup_keeps_counts(before.entry(key), t, t);
    }
    assert(keep_recent(recorded(before, key), t) == keep_recent(
        accepted_instants(times.take(k), results.take(k)),
        t,
    ));
}

} // verus!
