//! Process-wide counters for cache and remote-API activity.

use vstd::prelude::*;

verus! {

/// The counter value that follows `n`: counters wrap at the end of the `u64` range.
pub open spec fn bump(n: u64) -> u64 {
    if n == u64::MAX {
        0
    } else {
        (n + 1) as u64
    }
}

/// `m` after one more cache hit.
pub open spec fn after_hit(m: Metrics) -> Metrics {
    Metrics { cache_hits: bump(m.cache_hits), ..m }
}

/// `m` after one more cache miss.
pub open spec fn after_miss(m: Metrics) -> Metrics {
    Metrics { cache_misses: bump(m.cache_misses), ..m }
}

/// `m` after one more read served from an expired entry.
pub open spec fn after_stale(m: Metrics) -> Metrics {
    Metrics { stale_served: bump(m.stale_served), ..m }
}

/// `m` after one more attempt to reach the remote service.
pub open spec fn after_request(m: Metrics) -> Metrics {
    Metrics { api_requests: bump(m.api_requests), ..m }
}

/// `m` after one more retry.
pub open spec fn after_retry(m: Metrics) -> Metrics {
    Metrics { retries: bump(m.retries), ..m }
}

/// The sum of two counts, wrapping at the end of the `u64` range.
pub open spec fn wrapped_sum(a: u64, b: u64) -> u64 {
    if a + b > u64::MAX {
        (a + b - u64::MAX - 1) as u64
    } else {
        (a + b) as u64
    }
}

/// Two sets of counters as one: each counter the wrapped sum of the two.
pub open spec fn merged(a: Metrics, b: Metrics) -> Metrics {
    Metrics {
        cache_hits: wrapped_sum(a.cache_hits, b.cache_hits),
        cache_misses: wrapped_sum(a.cache_misses, b.cache_misses),
        stale_served: wrapped_sum(a.stale_served, b.stale_served),
        api_requests: wrapped_sum(a.api_requests, b.api_requests),
        retries: wrapped_sum(a.retries, b.retries),
    }
}

/// Five monotone counters; each wraps around at `u64::MAX`.
#[derive(Debug, Clone, Copy)]
pub struct Metrics {
    pub cache_hits: u64,
    pub cache_misses: u64,
    pub stale_served: u64,
    pub api_requests: u64,
    pub retries: u64,
}

impl Metrics {
    /// A fresh set of counters, all zero.
    pub fn new() -> (m: Self)
        ensures
            m.cache_hits == 0,
            m.cache_misses == 0,
            m.stale_served == 0,
            m.api_requests == 0,
            m.retries == 0,
    {
        Metrics { cache_hits: 0, cache_misses: 0, stale_served: 0, api_requests: 0, retries: 0 }
    }

    /// Counts one read served from a fresh cache entry.
    pub fn inc_cache_hit(&mut self)
        ensures
            *final(self) == after_hit(*old(self)),
    {
        self.cache_hits = self.cache_hits.wrapping_add(1);
    }

    /// Counts one read that found no fresh entry.
    pub fn inc_cache_miss(&mut self)
        ensures
            *final(self) == after_miss(*old(self)),
    {
        self.cache_misses = self.cache_misses.wrapping_add(1);
    }

    /// Counts one read answered with an expired entry because the refresh failed.
    pub fn inc_stale_served(&mut self)
        ensures
            *final(self) == after_stale(*old(self)),
    {
        self.stale_served = self.stale_served.wrapping_add(1);
    }

    /// Counts one attempt to reach the remote service.
    pub fn inc_api_request(&mut self)
        ensures
            *final(self) == after_request(*old(self)),
    {
        self.api_requests = self.api_requests.wrapping_add(1);
    }

    /// Counts one retry of a remote request.
    pub fn inc_retry(&mut self)
        ensures
            *final(self) == after_retry(*old(self)),
    {
        self.retries = self.retries.wrapping_add(1);
    }

    /// Adds the counts of `other` to these, each counter wrapping at the end of its
    /// range.
    pub fn absorb(&mut self, other: &Metrics)
        ensures
            *final(self) == merged(*old(self), *other),
    {
        self.cache_hits = self.cache_hits.wrapping_add(other.cache_hits);
        self.cache_misses = self.cache_misses.wrapping_add(other.cache_misses);
        self.stale_served = self.stale_served.wrapping_add(other.stale_served);
        self.api_requests = self.api_requests.wrapping_add(other.api_requests);
        self.retries = self.retries.wrapping_add(other.retries);
    }

    /// The counters as `(hits, misses, stale_served, api_requests, retries)`.
    pub fn snapshot(&self) -> (s: (u64, u64, u64, u64, u64))
        ensures
            s == (
                self.cache_hits,
                self.cache_misses,
                self.stale_served,
                self.api_requests,
                self.retries,
            ),
    {
        (self.cache_hits, self.cache_misses, self.stale_served, self.api_requests, self.retries)
    }
}

/// The log line for the counters.
pub open spec fn metrics_text(m: Metrics) -> Seq<char> {
    "metrics cache_hit="@ + crate::decimal::decimal(m.cache_hits as nat) + " cache_miss="@
        + crate::decimal::decimal(m.cache_misses as nat) + " stale_served="@
        + crate::decimal::decimal(m.stale_served as nat) + " api_requests="@
        + crate::decimal::decimal(m.api_requests as nat) + " retries="@ + crate::decimal::decimal(
        m.retries as nat,
    )
}

/// The log line for the counters.
pub fn metrics_line(m: &Metrics) -> (r: String)
    ensures
        r@ == metrics_text(*m),
{
    let (hits, misses, stale, api, retries) = m.snapshot();
    let mut out: Vec<char> = Vec::new();
    crate::text::push_str(&mut out, "metrics cache_hit=");
    crate::decimal::push_decimal(&mut out, hits);
    crate::text::push_str(&mut out, " cache_miss=");
    crate::decimal::push_decimal(&mut out, misses);
    crate::text::push_str(&mut out, " stale_served=");
    crate::decimal::push_decimal(&mut out, stale);
    crate::text::push_str(&mut out, " api_requests=");
    crate::decimal::push_decimal(&mut out, api);
    crate::text::push_str(&mut out, " retries=");
    crate::decimal::push_decimal(&mut out, retries);
    assert(out@ =~= metrics_text(*m));
    crate::text::string_of(&out)
}

} // verus!
