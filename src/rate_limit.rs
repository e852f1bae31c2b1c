use vstd::prelude::*;
use crate::keyed::KeyedStore;

verus! {

/// Length of an admission window, in seconds.
pub const WINDOW_SECS: i64 = 60;

/// A bucket: tokens left, and when its window started (Unix seconds).
pub type Bucket = (u32, i64);

/// The bucket as it stands at `now`, before a token is taken: a key seen for
/// the first time starts full, and a window that has run out starts again full.
pub open spec fn refreshed(b: Option<Bucket>, capacity: u32, window: i64, now: i64) -> Bucket {
    let (tokens, started) = match b {
        Some(x) => x,
        None => (capacity, now),
    };
    if now - started >= window {
        (capacity, now)
    } else {
        (tokens, started)
    }
}

/// Whether a call at `now` is admitted.
pub open spec fn admits(b: Option<Bucket>, capacity: u32, window: i64, now: i64) -> bool {
    refreshed(b, capacity, window, now).0 > 0
}

/// The bucket after a call at `now`: one token fewer if the call was admitted.
pub open spec fn after_call(b: Option<Bucket>, capacity: u32, window: i64, now: i64) -> Bucket {
    let r = refreshed(b, capacity, window, now);
    if r.0 > 0 {
        ((r.0 - 1) as u32, r.1)
    } else {
        r
    }
}

/// Fixed-window admission control per client key.
pub struct RateLimiter {
    buckets: KeyedStore<Bucket>,
    max_tokens: u32,
    refill_interval_secs: i64,
}

impl RateLimiter {
    pub closed spec fn buckets(&self) -> Map<Seq<char>, Bucket> {
        self.buckets.view()
    }

    pub closed spec fn capacity(&self) -> u32 {
        self.max_tokens
    }

    pub closed spec fn window(&self) -> i64 {
        self.refill_interval_secs
    }

    pub closed spec fn wf(&self) -> bool {
        self.buckets.wf()
    }

    /// A limiter that admits `max_per_minute` calls per key in each window of
    /// 60 seconds.
    pub fn new(max_per_minute: u32) -> (r: Self)
        ensures
            r.wf(),
            r.buckets() == Map::<Seq<char>, Bucket>::empty(),
            r.capacity() == max_per_minute,
            r.window() == WINDOW_SECS,
    {
        RateLimiter { buckets: KeyedStore::new(), max_tokens: max_per_minute, refill_interval_secs: WINDOW_SECS }
    }

    /// Whether a call for `key` at time `now` is admitted; takes a token if so.
    pub fn check_at(&mut self, key: &str, now: i64) -> (r: bool)
        requires
            old(self).wf(),
        ensures
            final(self).wf(),
            final(self).capacity() == old(self).capacity(),
            final(self).window() == old(self).window(),
            r == admits(old(self).buckets().get(key@), old(self).capacity(), old(self).window(), now),
            final(self).buckets() == old(self).buckets().insert(
                key@,
                after_call(old(self).buckets().get(key@), old(self).capacity(), old(self).window(), now),
            ),
    {
        let (mut tokens, mut started) = match self.buckets.get(key) {
            Some(b) => *b,
            None => (self.max_tokens, now),
        };
        if now as i128 - started as i128 >= self.refill_interval_secs as i128 {
            tokens = self.max_tokens;
            started = now;
        }
        let admitted = tokens > 0;
        if admitted {
            tokens = tokens - 1;
        }
        self.buckets.insert(String::from_str(key), (tokens, started));
        admitted
    }

    /// Whether a call for `key` is admitted now; takes a token if so.
    pub fn check(&mut self, key: &str) -> (r: bool)
        requires
            old(self).wf(),
        ensures
            final(self).wf(),
            final(self).capacity() == old(self).capacity(),
            final(self).window() == old(self).window(),
            exists|now: i64|
                r == admits(old(self).buckets().get(key@), old(self).capacity(), old(self).window(), now)
                    && #[trigger] final(self).buckets() == old(self).buckets().insert(
                        key@,
                        after_call(old(self).buckets().get(key@), old(self).capacity(), old(self).window(), now),
                    ),
    {
        let now = crate::trusted::unix_now();
        self.check_at(key, now)
    }
}

} // verus!
