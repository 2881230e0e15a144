//! The effects engine: every externally-visible side effect a unit may ask
//! for goes through here, behind per-kind freshness-bounded caches and
//! one persistent subprocess per key.
//!
//! The engine decides; the surrounding event loop performs the actual I/O
//! and feeds the outcome back in. A failed fetch is never cached, so the
//! next request retries cleanly.
use vstd::prelude::*;
use vstd::pervasive::VecAdditionalExecFns;
use vstd::string::StringExecFns;
use crate::machine::types::TransportError;
use crate::strutil::str_eq;

verus! {

/// The cache key of an HTTP effect; caller-chosen, stable per resource.
#[derive(Debug)]
pub struct HttpCacheKey(pub String);

impl HttpCacheKey {
    pub fn new(s: String) -> (k: HttpCacheKey)
        ensures
            k.0@ == s@,
    {
        HttpCacheKey(s)
    }
}

impl Clone for HttpCacheKey {
    /// The clone denotes the same key.
    fn clone(&self) -> (r: Self)
        ensures
            r.0@ == self.0@,
    {
        HttpCacheKey(self.0.clone())
    }
}

/// The cache key of a file-read effect.
#[derive(Debug)]
pub struct FsKey(pub String);

impl FsKey {
    pub fn new(s: String) -> (k: FsKey)
        ensures
            k.0@ == s@,
    {
        FsKey(s)
    }
}

impl Clone for FsKey {
    /// The clone denotes the same key.
    fn clone(&self) -> (r: Self)
        ensures
            r.0@ == self.0@,
    {
        FsKey(self.0.clone())
    }
}

/// The cache key of a directory-listing effect.
#[derive(Debug)]
pub struct DirKey(pub String);

impl DirKey {
    pub fn new(s: String) -> (k: DirKey)
        ensures
            k.0@ == s@,
    {
        DirKey(s)
    }
}

impl Clone for DirKey {
    /// The clone denotes the same key.
    fn clone(&self) -> (r: Self)
        ensures
            r.0@ == self.0@,
    {
        DirKey(self.0.clone())
    }
}

/// The key of a persistent subprocess effect.
#[derive(Debug)]
pub struct ProcKey(pub String);

impl ProcKey {
    pub fn new(s: String) -> (k: ProcKey)
        ensures
            k.0@ == s@,
    {
        ProcKey(s)
    }
}

impl Clone for ProcKey {
    /// The clone denotes the same key.
    fn clone(&self) -> (r: Self)
        ensures
            r.0@ == self.0@,
    {
        ProcKey(self.0.clone())
    }
}

/// The rate policy and cache freshness of one HTTP request.
#[derive(Debug, Clone, Copy)]
pub struct HttpPolicy {
    pub rate: crate::machine::http::RateLimitSpec,
    pub cache_fresh_for_ms: u64,
}

/// An HTTP GET request: cache key, url, and policy.
#[derive(Debug)]
pub struct HttpGet {
    pub key: HttpCacheKey,
    pub url: String,
    pub policy: HttpPolicy,
}

/// A file read bound to a cache key and freshness window.
#[derive(Debug)]
pub struct FsRead {
    pub key: FsKey,
    pub path: String,
    pub cache_fresh_for_ms: u64,
}

/// A directory listing bound to a cache key and freshness window.
#[derive(Debug)]
pub struct FsListDir {
    pub key: DirKey,
    pub path: String,
    pub cache_fresh_for_ms: u64,
}

/// A batch read from one persistent subprocess: up to `max_lines` buffered
/// lines, without blocking and without restarting the process.
#[derive(Debug)]
pub struct ProcBatch {
    pub key: ProcKey,
    pub cmd: Vec<String>,
    pub max_lines: usize,
}

/// One effect request.
#[derive(Debug)]
pub enum EffectReq {
    HttpGet(HttpGet),
    ProcBatch(ProcBatch),
    FsRead(FsRead),
    FsListDir(FsListDir),
}

/// The names found in a directory.
#[derive(Debug)]
pub struct DirEntries(pub Vec<String>);

/// A successful HTTP response body.
#[derive(Debug)]
pub struct HttpResponse {
    pub body: Vec<u8>,
}

/// One effect result.
#[derive(Debug)]
pub enum EffectOut {
    Http(HttpResponse),
    ProcLines(Vec<String>),
    FsBytes(Vec<u8>),
    DirEntries(DirEntries),
}

/// Asking a response envelope for the wrong payload kind is a programming
/// error, surfaced as this failure rather than a panic.
#[derive(Debug, Clone, Copy, PartialEq, Eq, Structural)]
pub struct WrongEffectOut;

/// Typed extraction from the generic response envelope.
pub trait EffectOutExpect: Sized {
    /// Whether this payload type is the one the envelope holds.
    spec fn matches(out: EffectOut) -> bool;

    /// The payload of a matching envelope.
    spec fn payload_of(out: EffectOut) -> Self;

    /// Extracts this payload type, or reports a mismatch.
    fn expect_from(out: EffectOut) -> (r: Result<Self, WrongEffectOut>)
        ensures
            Self::matches(out) ==> (r matches Ok(v) && v == Self::payload_of(out)),
            !Self::matches(out) ==> (r matches Err(e) && e == WrongEffectOut),
    ;
}

impl EffectOutExpect for HttpResponse {
    open spec fn matches(out: EffectOut) -> bool {
        out is Http
    }

    open spec fn payload_of(out: EffectOut) -> HttpResponse {
        out->Http_0
    }

    fn expect_from(out: EffectOut) -> (r: Result<Self, WrongEffectOut>) {
        match out {
            EffectOut::Http(v) => Ok(v),
            _ => Err(WrongEffectOut),
        }
    }
}

impl EffectOutExpect for Vec<String> {
    open spec fn matches(out: EffectOut) -> bool {
        out is ProcLines
    }

    open spec fn payload_of(out: EffectOut) -> Vec<String> {
        out->ProcLines_0
    }

    fn expect_from(out: EffectOut) -> (r: Result<Self, WrongEffectOut>) {
        match out {
            EffectOut::ProcLines(v) => Ok(v),
            _ => Err(WrongEffectOut),
        }
    }
}

impl EffectOutExpect for Vec<u8> {
    open spec fn matches(out: EffectOut) -> bool {
        out is FsBytes
    }

    open spec fn payload_of(out: EffectOut) -> Vec<u8> {
        out->FsBytes_0
    }

    fn expect_from(out: EffectOut) -> (r: Result<Self, WrongEffectOut>) {
        match out {
            EffectOut::FsBytes(v) => Ok(v),
            _ => Err(WrongEffectOut),
        }
    }
}

impl EffectOutExpect for DirEntries {
    open spec fn matches(out: EffectOut) -> bool {
        out is DirEntries
    }

    open spec fn payload_of(out: EffectOut) -> DirEntries {
        out->DirEntries_0
    }

    fn expect_from(out: EffectOut) -> (r: Result<Self, WrongEffectOut>) {
        match out {
            EffectOut::DirEntries(v) => Ok(v),
            _ => Err(WrongEffectOut),
        }
    }
}

impl EffectOut {
    /// Extracts the payload as the requested type, or reports a mismatch.
    pub fn expect<T: EffectOutExpect>(self) -> (r: Result<T, WrongEffectOut>)
        ensures
            T::matches(self) ==> (r matches Ok(v) && v == T::payload_of(self)),
            !T::matches(self) ==> (r matches Err(e) && e == WrongEffectOut),
    {
        T::expect_from(self)
    }
}

/// The first entry under a key, with its freshness deadline.
pub open spec fn spec_find<P>(entries: Seq<(String, u64, P)>, k: Seq<char>) -> Option<(u64, P)>
    decreases entries.len(),
{
    if entries.len() == 0 {
        None
    } else if entries[0].0@ == k {
        Some((entries[0].1, entries[0].2))
    } else {
        spec_find(entries.drop_first(), k)
    }
}

/// What a freshness-checked lookup at time `now` yields: the payload stored
/// under the key, only while `now` is before its deadline.
pub open spec fn spec_lookup<P>(entries: Seq<(String, u64, P)>, k: Seq<char>, now: u64) -> Option<
    P,
> {
    match spec_find(entries, k) {
        Some((deadline, payload)) => if now < deadline {
            Some(payload)
        } else {
            None
        },
        None => None,
    }
}

/// One freshness-bounded cache: entries are overwritten in place on refresh
/// and never proactively evicted, so it holds one entry per distinct key
/// ever stored.
#[derive(Debug)]
pub struct FreshCache<P> {
    pub entries: Vec<(String, u64, P)>,
}

/// Updating the first entry of a key changes only that key's binding.
proof fn lemma_find_update<P>(
    entries: Seq<(String, u64, P)>,
    i: int,
    v: (String, u64, P),
    k: Seq<char>,
)
    requires
        0 <= i < entries.len(),
        entries[i].0@ == v.0@,
        forall|j: int| 0 <= j < i ==> (#[trigger] entries[j].0)@ != v.0@,
    ensures
        spec_find(entries.update(i, v), k) == if k == v.0@ {
            Some((v.1, v.2))
        } else {
            spec_find(entries, k)
        },
    decreases i,
{
    let upd = entries.update(i, v);
    if i == 0 {
        assert(upd[0] == v);
        if k == v.0@ {
        } else {
            assert(upd.drop_first() =~= entries.drop_first());
        }
    } else {
        assert(upd[0] == entries[0]);
        assert(entries[0].0@ != v.0@);
        assert(upd.drop_first() =~= entries.drop_first().update(i - 1, v));
        lemma_find_update(entries.drop_first(), i - 1, v, k);
    }
}

/// Appending an entry for an absent key changes only that key's binding.
proof fn lemma_find_push<P>(entries: Seq<(String, u64, P)>, v: (String, u64, P), k: Seq<char>)
    requires
        spec_find(entries, v.0@) is None,
    ensures
        spec_find(entries.push(v), k) == if k == v.0@ {
            Some((v.1, v.2))
        } else {
            spec_find(entries, k)
        },
    decreases entries.len(),
{
    if entries.len() == 0 {
        assert(entries.push(v).len() == 1);
        assert(entries.push(v)[0] == v);
        if k != v.0@ {
            assert(entries.push(v).drop_first() =~= Seq::<(String, u64, P)>::empty());
            assert(spec_find(Seq::<(String, u64, P)>::empty(), k) is None);
        }
    } else {
        assert(entries.push(v)[0] == entries[0]);
        assert(entries.push(v).drop_first() =~= entries.drop_first().push(v));
        lemma_find_push(entries.drop_first(), v, k);
    }
}

impl<P> FreshCache<P> {
    /// An empty cache.
    pub fn new() -> (c: FreshCache<P>)
        ensures
            c.entries@.len() == 0,
    {
        FreshCache { entries: Vec::new() }
    }

    /// The cached payload under `key`, only while it is still fresh at
    /// `now`; a stale or absent entry is a miss, and the caller then
    /// performs the underlying I/O.
    pub fn fresh_get(&self, key: &str, now: u64) -> (r: Option<&P>)
        ensures
            match r {
                Some(p) => spec_lookup(self.entries@, key@, now) == Some(*p),
                None => spec_lookup(self.entries@, key@, now) is None,
            },
    {
        let n = self.entries.len();
        proof {
            assert(self.entries@.subrange(0, n as int) =~= self.entries@);
        }
        let mut i: usize = 0;
        while i < n
            invariant
                i <= n,
                n == self.entries@.len(),
                spec_find(self.entries@, key@) == spec_find(
                    self.entries@.subrange(i as int, n as int),
                    key@,
                ),
            decreases n - i,
        {
            proof {
                let cur = self.entries@.subrange(i as int, n as int);
                assert(cur[0] == self.entries@[i as int]);
                assert(cur.drop_first() =~= self.entries@.subrange(i + 1 as int, n as int));
            }
            if str_eq(self.entries[i].0.as_str(), key) {
                if now < self.entries[i].1 {
                    return Some(&self.entries[i].2);
                } else {
                    return None;
                }
            }
            i = i + 1;
        }
        proof {
            assert(self.entries@.subrange(n as int, n as int).len() == 0);
        }
        None
    }

    /// Stores (or overwrites in place) the entry under `key`, bound to the
    /// freshness deadline; every other key's entry is untouched.
    pub fn store(&mut self, key: String, fresh_until: u64, payload: P)
        ensures
            spec_find(final(self).entries@, key@) == Some((fresh_until, payload)),
            forall|k2: Seq<char>|
                k2 != key@ ==> #[trigger] spec_find(final(self).entries@, k2) == spec_find(
                    old(self).entries@,
                    k2,
                ),
    {
        let n = self.entries.len();
        proof {
            assert(self.entries@.subrange(0, n as int) =~= self.entries@);
        }
        let mut i: usize = 0;
        while i < n
            invariant
                i <= n,
                n == self.entries@.len(),
                self.entries@ == old(self).entries@,
                forall|j: int| 0 <= j < i ==> (#[trigger] self.entries@[j].0)@ != key@,
                spec_find(self.entries@, key@) == spec_find(
                    self.entries@.subrange(i as int, n as int),
                    key@,
                ),
            decreases n - i,
        {
            proof {
                let cur = self.entries@.subrange(i as int, n as int);
                assert(cur[0] == self.entries@[i as int]);
                assert(cur.drop_first() =~= self.entries@.subrange(i + 1 as int, n as int));
            }
            if str_eq(self.entries[i].0.as_str(), key.as_str()) {
                let ghost pre = self.entries@;
                let v = (key, fresh_until, payload);
                self.entries.set(i, v);
                proof {
                    assert(self.entries@ =~= pre.update(i as int, v));
                    lemma_find_update(pre, i as int, v, key@);
                    assert forall|k2: Seq<char>| k2 != key@ implies #[trigger] spec_find(
                        self.entries@,
                        k2,
                    ) == spec_find(pre, k2) by {
                        lemma_find_update(pre, i as int, v, k2);
                    }
                }
                return ;
            }
            i = i + 1;
        }
        proof {
            assert(self.entries@.subrange(n as int, n as int).len() == 0);
            assert(spec_find(self.entries@, key@) is None);
        }
        let ghost pre = self.entries@;
        let v = (key, fresh_until, payload);
        self.entries.push(v);
        proof {
            assert(self.entries@ =~= pre.push(v));
            lemma_find_push(pre, v, v.0@);
            assert forall|k2: Seq<char>| k2 != v.0@ implies #[trigger] spec_find(
                self.entries@,
                k2,
            ) == spec_find(pre, k2) by {
                lemma_find_push(pre, v, k2);
            }
        }
    }
}

/// Cache freshness law: once an entry for a key is stored with a deadline,
/// a lookup before the deadline returns exactly the stored payload — no
/// underlying I/O is needed — and a lookup at or past the deadline misses,
/// so the underlying I/O is performed again.
pub proof fn lemma_cache_freshness<P>(
    cache: Seq<(String, u64, P)>,
    key: Seq<char>,
    deadline: u64,
    payload: P,
    t: u64,
)
    requires
        spec_find(cache, key) == Some((deadline, payload)),
    ensures
        t < deadline ==> spec_lookup(cache, key, t) == Some(payload),
        t >= deadline ==> spec_lookup(cache, key, t) is None,
{
}

/// The spawn ledger: which `ProcKey`s already have a live process.
#[derive(Debug)]
pub struct ProcSet {
    pub keys: Vec<String>,
}

/// Whether the ledger holds a key.
pub open spec fn spec_has_key(keys: Seq<String>, k: Seq<char>) -> bool {
    exists|i: int| 0 <= i < keys.len() && (#[trigger] keys[i])@ == k
}

impl ProcSet {
    /// An empty ledger.
    pub fn new() -> (s: ProcSet)
        ensures
            s.keys@.len() == 0,
    {
        ProcSet { keys: Vec::new() }
    }

    /// Whether a process must be spawned for this key: true exactly when no
    /// process was ever registered under it.
    pub fn needs_spawn(&self, key: &str) -> (r: bool)
        ensures
            r == !spec_has_key(self.keys@, key@),
    {
        let n = self.keys.len();
        let mut i: usize = 0;
        while i < n
            invariant
                i <= n,
                n == self.keys@.len(),
                forall|j: int| 0 <= j < i ==> (#[trigger] self.keys@[j])@ != key@,
            decreases n - i,
        {
            if str_eq(self.keys[i].as_str(), key) {
                assert(spec_has_key(self.keys@, key@));
                return false;
            }
            i = i + 1;
        }
        assert(!spec_has_key(self.keys@, key@));
        true
    }

    /// Registers the key once its process has been spawned.
    pub fn mark_spawned(&mut self, key: String)
        requires
            !spec_has_key(old(self).keys@, key@),
        ensures
            spec_has_key(final(self).keys@, key@),
            forall|k2: Seq<char>|
                #[trigger] spec_has_key(final(self).keys@, k2) == (spec_has_key(
                    old(self).keys@,
                    k2,
                ) || k2 == key@),
    {
        let ghost pre = self.keys@;
        let ghost kv = key@;
        self.keys.push(key);
        proof {
            assert(self.keys@[pre.len() as int]@ == kv);
            assert(spec_has_key(self.keys@, kv));
            assert forall|k2: Seq<char>| #[trigger] spec_has_key(self.keys@, k2) == (spec_has_key(
                pre,
                k2,
            ) || k2 == kv) by {
                if spec_has_key(self.keys@, k2) {
                    let i = choose|i: int| 0 <= i < self.keys@.len() && (#[trigger] self.keys@[i])@
                        == k2;
                    if i < pre.len() {
                        assert(pre[i]@ == k2);
                        assert(spec_has_key(pre, k2));
                    }
                }
                if spec_has_key(pre, k2) {
                    let i = choose|i: int| 0 <= i < pre.len() && (#[trigger] pre[i])@ == k2;
                    assert(self.keys@[i]@ == k2);
                }
                if k2 == kv {
                    assert(spec_has_key(self.keys@, k2));
                }
            }
        }
    }
}

/// Process reuse law, first half: once a process has been registered under
/// a key, the ledger after any registration still holds that key, so a
/// later request under the same key never asks for a second spawn.
pub proof fn lemma_spawn_once(keys0: Seq<String>, keys1: Seq<String>, key: Seq<char>, other: Seq<
    char,
>)
    requires
        forall|k2: Seq<char>|
            #[trigger] spec_has_key(keys1, k2) == (spec_has_key(keys0, k2) || k2 == other),
        spec_has_key(keys0, key),
    ensures
        spec_has_key(keys1, key),
{
}

/// The line buffer of one persistent subprocess: its stdout is drained into
/// this queue by a background reader; batch requests take from the front,
/// never blocking and never waiting for new lines.
pub struct ProcBuffer {
    /// Lines read from the process and not yet delivered.
    pub queue: Vec<String>,
    /// Every line already delivered, in delivery order.
    pub served: Ghost<Seq<Seq<char>>>,
}

impl ProcBuffer {
    /// The full line history this buffer has seen: delivered, then queued.
    pub open spec fn history(&self) -> Seq<Seq<char>> {
        self.served@ + self.queue.deep_view()
    }

    /// An empty buffer.
    pub fn new() -> (b: ProcBuffer)
        ensures
            b.queue@.len() == 0,
            b.served@ == Seq::<Seq<char>>::empty(),
    {
        ProcBuffer { queue: Vec::new(), served: Ghost(Seq::empty()) }
    }

    /// Queues one line read from the process's stdout.
    pub fn feed(&mut self, line: String)
        ensures
            final(self).queue.deep_view() == old(self).queue.deep_view().push(line@),
            final(self).served@ == old(self).served@,
    {
        self.queue.push(line);
        assert(final(self).queue.deep_view() =~= old(self).queue.deep_view().push(line@));
    }

    /// How many lines a drain of up to `max` would deliver.
    pub open spec fn spec_take_len(&self, max: int) -> int {
        if self.queue.deep_view().len() <= max {
            self.queue.deep_view().len() as int
        } else {
            max
        }
    }

    /// Delivers up to `max_lines` queued lines, in order, removing them from
    /// the queue: a line is delivered at most once, and no line is skipped.
    pub fn drain(&mut self, max_lines: usize) -> (r: Vec<String>)
        ensures
            r.deep_view() == old(self).queue.deep_view().take(
                old(self).spec_take_len(max_lines as int),
            ),
            final(self).queue.deep_view() == old(self).queue.deep_view().skip(
                old(self).spec_take_len(max_lines as int),
            ),
            final(self).served@ == old(self).served@ + r.deep_view(),
            final(self).history() == old(self).history(),
    {
        let ghost q0 = self.queue@;
        let take: usize = if self.queue.len() <= max_lines {
            self.queue.len()
        } else {
            max_lines
        };
        assert(take == old(self).spec_take_len(max_lines as int));
        let mut out: Vec<String> = Vec::new();
        let mut i: usize = 0;
        while i < take
            invariant
                i <= take,
                take <= q0.len(),
                q0 == old(self).queue@,
                self.queue@ =~= q0.skip(i as int),
                out@ =~= q0.take(i as int),
                self.served@ == old(self).served@,
            decreases take - i,
        {
            let line = self.queue.remove(0);
            assert(line == q0[i as int]) by {
                assert(q0.skip(i as int)[0] == q0[i as int]);
            }
            out.push(line);
            proof {
                assert(q0.skip(i as int).remove(0) =~= q0.skip(i + 1 as int));
                assert(out@ =~= q0.take(i + 1 as int));
            }
            i = i + 1;
        }
        proof {
            self.served@ = self.served@ + out.deep_view();
            let t = take as int;
            let dv0 = old(self).queue.deep_view();
            assert forall|j: int| 0 <= j < t implies out.deep_view()[j] == dv0.take(t)[j] by {
                assert(out@[j] == q0[j]);
            }
            assert(out.deep_view() =~= dv0.take(t));
            assert forall|j: int| 0 <= j < q0.len() - t implies self.queue.deep_view()[j]
                == dv0.skip(t)[j] by {
                assert(self.queue@[j] == q0[j + t]);
            }
            assert(self.queue.deep_view() =~= dv0.skip(t));
            assert(final(self).history() =~= old(self).history());
        }
        out
    }
}

/// Process reuse law, second half: two successive drains deliver disjoint,
/// consecutive segments of the line history — a line handed out by the
/// first drain is never handed out again by the second.
pub proof fn lemma_no_redelivery(b0: ProcBuffer, b1: ProcBuffer, b2: ProcBuffer, m1: int, m2: int)
    requires
        m1 >= 0,
        m2 >= 0,
        b1.queue.deep_view() == b0.queue.deep_view().skip(b0.spec_take_len(m1)),
        b1.served@ == b0.served@ + b0.queue.deep_view().take(b0.spec_take_len(m1)),
        b2.queue.deep_view() == b1.queue.deep_view().skip(b1.spec_take_len(m2)),
        b2.served@ == b1.served@ + b1.queue.deep_view().take(b1.spec_take_len(m2)),
    ensures
        ({
            let r1 = b0.queue.deep_view().take(b0.spec_take_len(m1));
            let r2 = b1.queue.deep_view().take(b1.spec_take_len(m2));
            let h = b0.history();
            &&& r1 == h.subrange(b0.served@.len() as int, b0.served@.len() + r1.len() as int)
            &&& r2 == h.subrange(
                b0.served@.len() + r1.len() as int,
                b0.served@.len() + r1.len() + r2.len() as int,
            )
            &&& b2.history() == h
        }),
{
    let q0 = b0.queue.deep_view();
    let t1 = b0.spec_take_len(m1);
    let r1 = q0.take(t1);
    let q1 = q0.skip(t1);
    let t2 = b1.spec_take_len(m2);
    let r2 = q1.take(t2);
    let h = b0.history();
    assert(r1 =~= h.subrange(b0.served@.len() as int, b0.served@.len() + r1.len() as int));
    assert(r2 =~= h.subrange(
        b0.served@.len() + r1.len() as int,
        b0.served@.len() + r1.len() + r2.len() as int,
    ));
    assert(b2.history() =~= h);
}

/// The outcome of one underlying HTTP fetch, as the event loop saw it.
#[derive(Debug)]
pub enum FetchOutcome {
    /// The server answered with this status and body.
    Response { status: u16, body: Vec<u8> },
    /// The fetch failed at the transport level.
    Failed(String),
}

/// The effects engine's cache and ledger state, one guard per kind so that
/// one kind's traffic never blocks another's.
#[derive(Debug)]
pub struct EffectEngine {
    pub http: FreshCache<Vec<u8>>,
    pub fs: FreshCache<Vec<u8>>,
    pub dirs: FreshCache<Vec<String>>,
    pub procs: ProcSet,
}

impl EffectEngine {
    /// A fresh engine: all caches empty, no processes registered.
    pub fn new() -> (e: EffectEngine)
        ensures
            e.http.entries@.len() == 0,
            e.fs.entries@.len() == 0,
            e.dirs.entries@.len() == 0,
            e.procs.keys@.len() == 0,
    {
        EffectEngine {
            http: FreshCache::new(),
            fs: FreshCache::new(),
            dirs: FreshCache::new(),
            procs: ProcSet::new(),
        }
    }

    /// The cached HTTP body for `key` while fresh at `now`: a hit means the
    /// request is answered without any network call.
    pub fn http_check(&self, key: &HttpCacheKey, now: u64) -> (r: Option<&Vec<u8>>)
        ensures
            match r {
                Some(p) => spec_lookup(self.http.entries@, key.0@, now) == Some(*p),
                None => spec_lookup(self.http.entries@, key.0@, now) is None,
            },
    {
        self.http.fresh_get(key.0.as_str(), now)
    }

    /// Folds the outcome of an HTTP fetch into the engine: a 2xx response is
    /// cached for the policy's freshness window and returned; a non-2xx
    /// status becomes a typed error and is not cached; a transport failure
    /// becomes a transport error and is not cached.
    pub fn http_apply(
        &mut self,
        key: &HttpCacheKey,
        now: u64,
        fresh_for_ms: u64,
        outcome: FetchOutcome,
    ) -> (r: Result<HttpResponse, TransportError>)
        requires
            now + fresh_for_ms <= u64::MAX,
        ensures
            final(self).fs == old(self).fs,
            final(self).dirs == old(self).dirs,
            final(self).procs == old(self).procs,
            match outcome {
                FetchOutcome::Response { status, body } => {
                    if 200 <= status < 300 {
                        &&& r matches Ok(resp) && resp.body@ == body@
                        &&& spec_find(final(self).http.entries@, key.0@) matches Some((d, p))
                            && d == now + fresh_for_ms && p@ == body@
                        &&& forall|k2: Seq<char>|
                            k2 != key.0@ ==> #[trigger] spec_find(final(self).http.entries@, k2)
                                == spec_find(old(self).http.entries@, k2)
                    } else {
                        &&& r matches Err(TransportError::Http { status: s }) && s == status
                        &&& final(self).http == old(self).http
                    }
                },
                FetchOutcome::Failed(msg) => {
                    &&& r matches Err(TransportError::Transport(m)) && m@ == msg@
                    &&& final(self).http == old(self).http
                },
            },
    {
        match outcome {
            FetchOutcome::Response { status, body } => {
                if 200 <= status && status < 300 {
                    let stored = clone_bytes(&body);
                    self.http.store(key.0.clone(), now + fresh_for_ms, stored);
                    Ok(HttpResponse { body })
                } else {
                    Err(TransportError::Http { status })
                }
            },
            FetchOutcome::Failed(msg) => Err(TransportError::Transport(msg)),
        }
    }

    /// The cached file bytes for `key` while fresh at `now`.
    pub fn fs_check(&self, key: &FsKey, now: u64) -> (r: Option<&Vec<u8>>)
        ensures
            match r {
                Some(p) => spec_lookup(self.fs.entries@, key.0@, now) == Some(*p),
                None => spec_lookup(self.fs.entries@, key.0@, now) is None,
            },
    {
        self.fs.fresh_get(key.0.as_str(), now)
    }

    /// Folds the outcome of a file read into the engine: success refreshes
    /// the cache entry and returns the bytes; failure becomes a transport
    /// error and caches nothing.
    pub fn fs_apply(
        &mut self,
        key: &FsKey,
        now: u64,
        fresh_for_ms: u64,
        outcome: Result<Vec<u8>, String>,
    ) -> (r: Result<Vec<u8>, TransportError>)
        requires
            now + fresh_for_ms <= u64::MAX,
        ensures
            final(self).http == old(self).http,
            final(self).dirs == old(self).dirs,
            final(self).procs == old(self).procs,
            match outcome {
                Ok(bytes) => {
                    &&& r matches Ok(b) && b@ == bytes@
                    &&& spec_find(final(self).fs.entries@, key.0@) matches Some((d, p)) && d == now
                        + fresh_for_ms && p@ == bytes@
                    &&& forall|k2: Seq<char>|
                        k2 != key.0@ ==> #[trigger] spec_find(final(self).fs.entries@, k2)
                            == spec_find(old(self).fs.entries@, k2)
                },
                Err(msg) => {
                    &&& r matches Err(TransportError::Transport(m)) && m@ == msg@
                    &&& final(self).fs == old(self).fs
                },
            },
    {
        match outcome {
            Ok(bytes) => {
                let stored = clone_bytes(&bytes);
                self.fs.store(key.0.clone(), now + fresh_for_ms, stored);
                Ok(bytes)
            },
            Err(msg) => Err(TransportError::Transport(msg)),
        }
    }

    /// The cached directory listing for `key` while fresh at `now`.
    pub fn dir_check(&self, key: &DirKey, now: u64) -> (r: Option<&Vec<String>>)
        ensures
            match r {
                Some(p) => spec_lookup(self.dirs.entries@, key.0@, now) == Some(*p),
                None => spec_lookup(self.dirs.entries@, key.0@, now) is None,
            },
    {
        self.dirs.fresh_get(key.0.as_str(), now)
    }

    /// Folds the outcome of a directory listing into the engine, like
    /// `fs_apply`.
    pub fn dir_apply(
        &mut self,
        key: &DirKey,
        now: u64,
        fresh_for_ms: u64,
        outcome: Result<Vec<String>, String>,
    ) -> (r: Result<DirEntries, TransportError>)
        requires
            now + fresh_for_ms <= u64::MAX,
        ensures
            final(self).http == old(self).http,
            final(self).fs == old(self).fs,
            final(self).procs == old(self).procs,
            match outcome {
                Ok(names) => {
                    &&& r matches Ok(d) && d.0.deep_view() == names.deep_view()
                    &&& spec_find(final(self).dirs.entries@, key.0@) matches Some((d, p)) && d
                        == now + fresh_for_ms && p.deep_view() == names.deep_view()
                    &&& forall|k2: Seq<char>|
                        k2 != key.0@ ==> #[trigger] spec_find(final(self).dirs.entries@, k2)
                            == spec_find(old(self).dirs.entries@, k2)
                },
                Err(msg) => {
                    &&& r matches Err(TransportError::Transport(m)) && m@ == msg@
                    &&& final(self).dirs == old(self).dirs
                },
            },
    {
        match outcome {
            Ok(names) => {
                let stored = clone_lines(&names);
                self.dirs.store(key.0.clone(), now + fresh_for_ms, stored);
                Ok(DirEntries(names))
            },
            Err(msg) => Err(TransportError::Transport(msg)),
        }
    }

    /// Whether a `ProcBatch` for this key must spawn its process first.
    pub fn proc_needs_spawn(&self, key: &ProcKey) -> (r: bool)
        ensures
            r == !spec_has_key(self.procs.keys@, key.0@),
    {
        self.procs.needs_spawn(key.0.as_str())
    }

    /// Registers the key's process as spawned; later `ProcBatch` requests
    /// under the same key reuse it instead of spawning another.
    pub fn proc_mark_spawned(&mut self, key: &ProcKey)
        requires
            !spec_has_key(old(self).procs.keys@, key.0@),
        ensures
            final(self).http == old(self).http,
            final(self).fs == old(self).fs,
            final(self).dirs == old(self).dirs,
            spec_has_key(final(self).procs.keys@, key.0@),
            forall|k2: Seq<char>|
                #[trigger] spec_has_key(final(self).procs.keys@, k2) == (spec_has_key(
                    old(self).procs.keys@,
                    k2,
                ) || k2 == key.0@),
    {
        self.procs.mark_spawned(key.0.clone());
    }
}

/// A byte-for-byte copy.
fn clone_bytes(v: &Vec<u8>) -> (r: Vec<u8>)
    ensures
        r@ == v@,
{
    let r = v.clone();
    assert(r@ =~= v@);
    r
}

/// A line-for-line copy.
fn clone_lines(v: &Vec<String>) -> (r: Vec<String>)
    ensures
        r.deep_view() == v.deep_view(),
{
    let n = v.len();
    let mut r: Vec<String> = Vec::new();
    let mut i: usize = 0;
    while i < n
        invariant
            i <= n,
            n == v@.len(),
            r@.len() == i,
            forall|j: int| 0 <= j < i ==> (#[trigger] r@[j])@ == v@[j]@,
        decreases n - i,
    {
        let line = v[i].clone();
        r.push(line);
        i = i + 1;
    }
    proof {
        assert forall|j: int| 0 <= j < n implies r.deep_view()[j] == v.deep_view()[j] by {
            assert(r@[j]@ == v@[j]@);
        }
        assert(r.deep_view() =~= v.deep_view());
    }
    r
}

} // verus!
