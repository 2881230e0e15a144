//! The rate-limited client pool: one token-bucket limiter and one client
//! slot per destination host, created on first use and reused for the
//! process lifetime.
use vstd::prelude::*;
use vstd::string::StringExecFns;
use crate::strutil::str_eq;

verus! {

/// A host's rate policy: up to `burst` requests per replenishment period.
#[derive(Debug, Clone, Copy, PartialEq, Eq, Structural)]
pub struct RateLimitSpec {
    pub per_ms: u64,
    pub burst: u32,
}

/// A window-based token bucket: up to `burst` grants per `per_ms` window;
/// when the window's tokens are spent, callers are delayed — never
/// rejected — until the window rolls over.
#[derive(Debug, Clone, Copy, PartialEq, Eq, Structural)]
pub struct TokenBucket {
    pub per_ms: u64,
    pub burst: u32,
    /// When the current window began.
    pub window_start: u64,
    /// Grants already spent in the current window.
    pub used: u32,
}

/// What acquiring a token at `now` yields: the bucket after the call, and
/// the delay in ms before the caller may proceed (zero when a token was
/// free).
pub open spec fn spec_acquire(b: TokenBucket, now: u64) -> (TokenBucket, u64) {
    if now >= b.window_start + b.per_ms {
        // A new window: this grant is its first.
        (TokenBucket { window_start: now, used: 1, ..b }, 0)
    } else if b.used < b.burst {
        (TokenBucket { used: (b.used + 1) as u32, ..b }, 0)
    } else {
        // The window is exhausted: wait for it to roll over.
        (b, (b.window_start + b.per_ms - now) as u64)
    }
}

impl TokenBucket {
    /// A fresh bucket whose current window starts now, with no grants spent.
    pub fn new(spec: RateLimitSpec, now: u64) -> (b: TokenBucket)
        ensures
            b == (TokenBucket {
                per_ms: spec.per_ms,
                burst: spec.burst,
                window_start: now,
                used: 0,
            }),
    {
        TokenBucket { per_ms: spec.per_ms, burst: spec.burst, window_start: now, used: 0 }
    }

    /// Takes one grant at `now`, or reports how long the caller must wait:
    /// an exhausted window delays the request, it never rejects it.
    pub fn acquire(&mut self, now: u64) -> (delay_ms: u64)
        requires
            old(self).window_start + old(self).per_ms <= u64::MAX,
            now + old(self).per_ms <= u64::MAX,
            old(self).used <= old(self).burst,
            old(self).burst >= 1,
        ensures
            (*final(self), delay_ms) == spec_acquire(*old(self), now),
    {
        if now >= self.window_start + self.per_ms {
            self.window_start = now;
            self.used = 1;
            0
        } else if self.used < self.burst {
            self.used = self.used + 1;
            0
        } else {
            self.window_start + self.per_ms - now
        }
    }
}

/// Rate limiting law, first half: from a fresh bucket, every one of the
/// first `burst` acquisitions in the same window is granted at once, and
/// the acquisition after them is delayed — by a positive wait, not an
/// error — until the window rolls over.
pub proof fn lemma_rate_limit_burst(b0: TokenBucket, now: u64, k: int)
    requires
        b0.window_start == now,
        b0.used == 0,
        b0.per_ms >= 1,
        b0.burst >= 1,
        b0.window_start + b0.per_ms <= u64::MAX,
        0 <= k <= b0.burst,
    ensures
        ({
            let bk = spec_acquire_n(b0, now, k);
            &&& (k < b0.burst ==> spec_acquire(bk, now).1 == 0)
            &&& (k == b0.burst ==> spec_acquire(bk, now).1 > 0)
        }),
{
    lemma_acquire_n_used(b0, now, k);
}

/// The bucket after `k` immediate acquisitions.
pub open spec fn spec_acquire_n(b: TokenBucket, now: u64, k: int) -> TokenBucket
    decreases k,
{
    if k <= 0 {
        b
    } else {
        spec_acquire(spec_acquire_n(b, now, k - 1), now).0
    }
}

/// After `k <= burst` immediate acquisitions in a fresh window, exactly `k`
/// grants are spent and the window is unchanged.
proof fn lemma_acquire_n_used(b0: TokenBucket, now: u64, k: int)
    requires
        b0.window_start == now,
        b0.used == 0,
        b0.per_ms >= 1,
        b0.burst >= 1,
        b0.window_start + b0.per_ms <= u64::MAX,
        0 <= k <= b0.burst,
    ensures
        spec_acquire_n(b0, now, k) == (TokenBucket { used: k as u32, ..b0 }),
    decreases k,
{
    if k > 0 {
        lemma_acquire_n_used(b0, now, k - 1);
    } else {
        assert(spec_acquire_n(b0, now, 0) == b0);
        assert(b0 == (TokenBucket { used: 0u32, ..b0 }));
    }
}

/// One client slot per destination host: the position of a host in `hosts`
/// is its client's index in the caller's client table, and `buckets[i]`
/// limits `hosts[i]`.
#[derive(Debug)]
pub struct ClientPool {
    pub hosts: Vec<String>,
    pub buckets: Vec<TokenBucket>,
}

/// The host scan from position `i` on: the first match at or past `i`.
pub open spec fn spec_index_from(hosts: Seq<String>, host: Seq<char>, i: int) -> Option<int>
    decreases hosts.len() - i,
{
    if i < 0 || i >= hosts.len() {
        None
    } else if hosts[i]@ == host {
        Some(i)
    } else {
        spec_index_from(hosts, host, i + 1)
    }
}

/// The position of a host in the pool.
pub open spec fn spec_host_index(hosts: Seq<String>, host: Seq<char>) -> Option<int> {
    spec_index_from(hosts, host, 0)
}

impl ClientPool {
    /// Every bucket in the pool can take an acquire call.
    pub open spec fn wf(&self) -> bool {
        &&& self.hosts@.len() == self.buckets@.len()
        &&& forall|i: int|
            0 <= i < self.buckets@.len() ==> {
                let b = #[trigger] self.buckets@[i];
                &&& b.window_start + b.per_ms <= u64::MAX
                &&& b.used <= b.burst
                &&& b.burst >= 1
                &&& b.per_ms >= 1
            }
    }

    /// An empty pool.
    pub fn new() -> (p: ClientPool)
        ensures
            p.hosts@.len() == 0,
            p.buckets@.len() == 0,
            p.wf(),
    {
        ClientPool { hosts: Vec::new(), buckets: Vec::new() }
    }

    /// The client slot for `host`, creating it (with a fresh bucket under
    /// `spec`) on first use: the same host always maps to the same slot,
    /// and a second call for a known host creates nothing.
    pub fn client_for_host(&mut self, host: &str, spec: RateLimitSpec, now: u64) -> (r: (
        usize,
        bool,
    ))
        requires
            old(self).wf(),
            spec.per_ms >= 1,
            spec.burst >= 1,
            now + spec.per_ms <= u64::MAX,
        ensures
            final(self).wf(),
            match spec_host_index(old(self).hosts@, host@) {
                Some(i) => {
                    &&& r.0 == i
                    &&& r.1 == false
                    &&& final(self).hosts@ == old(self).hosts@
                    &&& final(self).buckets@ == old(self).buckets@
                },
                None => {
                    &&& r.0 == old(self).hosts@.len()
                    &&& r.1 == true
                    &&& final(self).hosts@.len() == old(self).hosts@.len() + 1
                    &&& final(self).hosts@[r.0 as int]@ == host@
                    &&& final(self).hosts@.take(r.0 as int) == old(self).hosts@
                    &&& final(self).buckets@ == old(self).buckets@.push(
                        TokenBucket {
                            per_ms: spec.per_ms,
                            burst: spec.burst,
                            window_start: now,
                            used: 0,
                        },
                    )
                },
            },
            spec_host_index(final(self).hosts@, host@) == Some(r.0 as int),
    {
        let n = self.hosts.len();
        let mut i: usize = 0;
        while i < n
            invariant
                i <= n,
                n == self.hosts@.len(),
                *self == *old(self),
                self.wf(),
                spec_host_index(self.hosts@, host@) == spec_index_from(
                    self.hosts@,
                    host@,
                    i as int,
                ),
            decreases n - i,
        {
            if str_eq(self.hosts[i].as_str(), host) {
                assert(self.wf());
                return (i, false);
            }
            i = i + 1;
        }
        let ghost pre_hosts = self.hosts@;
        let ghost pre_buckets = self.buckets@;
        let mut h = String::new();
        h.append(host);
        let ghost hv = h;
        self.hosts.push(h);
        self.buckets.push(TokenBucket::new(spec, now));
        proof {
            assert(self.hosts@.take(pre_hosts.len() as int) =~= pre_hosts);
            lemma_index_from_pushed(pre_hosts, hv, host@, 0);
            assert(self.hosts@ =~= pre_hosts.push(hv));
        }
        (n, true)
    }

    /// Acquires a token from one host's bucket; every other host's bucket
    /// is untouched, so traffic to one host never delays another.
    pub fn acquire(&mut self, idx: usize, now: u64) -> (delay_ms: u64)
        requires
            old(self).wf(),
            idx < old(self).buckets@.len(),
            now + old(self).buckets@[idx as int].per_ms <= u64::MAX,
        ensures
            final(self).wf(),
            final(self).hosts@ == old(self).hosts@,
            final(self).buckets@.len() == old(self).buckets@.len(),
            (final(self).buckets@[idx as int], delay_ms) == spec_acquire(
                old(self).buckets@[idx as int],
                now,
            ),
            forall|j: int|
                0 <= j < old(self).buckets@.len() && j != idx ==> final(self).buckets@[j] == old(
                    self,
                ).buckets@[j],
    {
        let mut b = self.buckets[idx];
        let delay = b.acquire(now);
        self.buckets.set(idx, b);
        proof {
            assert(self.buckets@ =~= old(self).buckets@.update(idx as int, b));
            assert forall|i: int| 0 <= i < self.buckets@.len() implies {
                let bb = #[trigger] self.buckets@[i];
                &&& bb.window_start + bb.per_ms <= u64::MAX
                &&& bb.used <= bb.burst
                &&& bb.burst >= 1
                &&& bb.per_ms >= 1
            } by {
                if i != idx {
                    assert(self.buckets@[i] == old(self).buckets@[i]);
                }
            }
        }
        delay
    }
}

/// Pushing a new host binds it at the end without moving the others.
proof fn lemma_index_from_pushed(hosts: Seq<String>, h2: String, host: Seq<char>, i: int)
    requires
        0 <= i <= hosts.len(),
        spec_index_from(hosts, host, i) is None,
        h2@ == host,
    ensures
        spec_index_from(hosts.push(h2), host, i) == Some(hosts.len() as int),
    decreases hosts.len() - i,
{
    if i < hosts.len() {
        assert(hosts.push(h2)[i] == hosts[i]);
        lemma_index_from_pushed(hosts, h2, host, i + 1);
    } else {
        assert(hosts.push(h2)[i] == h2);
    }
}

/// Rate limiting law, second half: acquiring a token for one host leaves
/// every other host's bucket exactly as it was, so requests to a different
/// host are unaffected.
pub proof fn lemma_rate_limit_isolation(
    before: Seq<TokenBucket>,
    after: Seq<TokenBucket>,
    idx: int,
    other: int,
)
    requires
        0 <= idx < before.len(),
        0 <= other < before.len(),
        other != idx,
        after.len() == before.len(),
        forall|j: int| 0 <= j < before.len() && j != idx ==> after[j] == before[j],
    ensures
        after[other] == before[other],
{
}

} // verus!
