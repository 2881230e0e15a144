use empty_status::machine::effects::{
    DirEntries, DirKey, EffectEngine, EffectOut, FetchOutcome, FsKey, HttpCacheKey, HttpResponse,
    ProcBuffer, ProcKey, WrongEffectOut,
};
use empty_status::machine::http::{ClientPool, RateLimitSpec, TokenBucket};
use empty_status::machine::types::TransportError;

#[test]
fn cache_freshness_hit_before_deadline_miss_after() {
    let mut engine = EffectEngine::new();
    let key = HttpCacheKey::new("weather".to_owned());
    // Nothing cached yet: the underlying I/O must run.
    assert!(engine.http_check(&key, 0).is_none());
    let out = engine.http_apply(&key, 0, 1000, FetchOutcome::Response {
        status: 200,
        body: b"hello".to_vec(),
    });
    assert_eq!(out.unwrap().body, b"hello".to_vec());
    // A second request before the freshness deadline returns the identical
    // cached payload without any I/O.
    assert_eq!(engine.http_check(&key, 999).unwrap(), &b"hello".to_vec());
    // At or past the deadline the lookup misses, so the I/O runs again.
    assert!(engine.http_check(&key, 1000).is_none());
    assert!(engine.http_check(&key, 5000).is_none());
}

#[test]
fn non_2xx_is_typed_error_and_not_cached() {
    let mut engine = EffectEngine::new();
    let key = HttpCacheKey::new("weather".to_owned());
    let out = engine.http_apply(&key, 0, 1000, FetchOutcome::Response {
        status: 404,
        body: b"nope".to_vec(),
    });
    match out {
        Err(TransportError::Http { status }) => assert_eq!(status, 404),
        _ => panic!("expected a typed HTTP status error"),
    }
    assert!(engine.http_check(&key, 1).is_none());
}

#[test]
fn transport_failure_is_not_cached() {
    let mut engine = EffectEngine::new();
    let key = HttpCacheKey::new("weather".to_owned());
    let out = engine.http_apply(&key, 0, 1000, FetchOutcome::Failed("refused".to_owned()));
    match out {
        Err(TransportError::Transport(msg)) => assert_eq!(msg, "refused"),
        _ => panic!("expected a transport error"),
    }
    assert!(engine.http_check(&key, 1).is_none());
}

#[test]
fn fs_cache_overwrites_on_refresh() {
    let mut engine = EffectEngine::new();
    let key = FsKey::new("proc/stat".to_owned());
    engine.fs_apply(&key, 0, 100, Ok(b"one".to_vec())).unwrap();
    assert_eq!(engine.fs_check(&key, 50).unwrap(), &b"one".to_vec());
    // Stale at 100; a refresh overwrites the entry in place.
    assert!(engine.fs_check(&key, 100).is_none());
    engine.fs_apply(&key, 100, 100, Ok(b"two".to_vec())).unwrap();
    assert_eq!(engine.fs_check(&key, 150).unwrap(), &b"two".to_vec());
    // A failure leaves the cache as it was.
    let r = engine.fs_apply(&key, 300, 100, Err("gone".to_owned()));
    assert!(r.is_err());
    assert!(engine.fs_check(&key, 300).is_none());
}

#[test]
fn dir_cache_keys_are_independent() {
    let mut engine = EffectEngine::new();
    let a = DirKey::new("sys/block".to_owned());
    let b = DirKey::new("sys/class".to_owned());
    engine.dir_apply(&a, 0, 100, Ok(vec!["sda".to_owned()])).unwrap();
    assert!(engine.dir_check(&a, 10).is_some());
    assert!(engine.dir_check(&b, 10).is_none());
}

#[test]
fn process_reuse_never_spawns_twice() {
    let mut engine = EffectEngine::new();
    let key = ProcKey::new("ping:eth0:8.8.8.8".to_owned());
    assert!(engine.proc_needs_spawn(&key));
    engine.proc_mark_spawned(&key);
    // A second request under the same key reuses the process.
    assert!(!engine.proc_needs_spawn(&key));
    assert!(!engine.proc_needs_spawn(&ProcKey::new("ping:eth0:8.8.8.8".to_owned())));
    // A different key still needs its own process.
    assert!(engine.proc_needs_spawn(&ProcKey::new("ping:wlan0:8.8.8.8".to_owned())));
}

#[test]
fn proc_lines_never_redelivered() {
    let mut buf = ProcBuffer::new();
    buf.feed("l1".to_owned());
    buf.feed("l2".to_owned());
    buf.feed("l3".to_owned());
    let first = buf.drain(2);
    assert_eq!(first, vec!["l1".to_owned(), "l2".to_owned()]);
    buf.feed("l4".to_owned());
    let second = buf.drain(10);
    assert_eq!(second, vec!["l3".to_owned(), "l4".to_owned()]);
    // Nothing left: a further drain delivers nothing, not old lines.
    assert!(buf.drain(10).is_empty());
}

#[test]
fn drain_never_blocks_on_empty_queue() {
    let mut buf = ProcBuffer::new();
    assert!(buf.drain(64).is_empty());
}

#[test]
fn expect_extracts_matching_payload_only() {
    let out = EffectOut::FsBytes(b"abc".to_vec());
    let bytes: Result<Vec<u8>, WrongEffectOut> = out.expect();
    assert_eq!(bytes.unwrap(), b"abc".to_vec());
    let out2 = EffectOut::FsBytes(b"abc".to_vec());
    let lines: Result<Vec<String>, WrongEffectOut> = out2.expect();
    assert!(lines.is_err());
    let out3 = EffectOut::Http(HttpResponse { body: b"b".to_vec() });
    let resp: Result<HttpResponse, WrongEffectOut> = out3.expect();
    assert_eq!(resp.unwrap().body, b"b".to_vec());
    let out4 = EffectOut::DirEntries(DirEntries(vec!["a".to_owned()]));
    let dirs: Result<DirEntries, WrongEffectOut> = out4.expect();
    assert_eq!(dirs.unwrap().0, vec!["a".to_owned()]);
}

#[test]
fn rate_limit_delays_excess_requests() {
    let spec = RateLimitSpec { per_ms: 1000, burst: 2 };
    let mut bucket = TokenBucket::new(spec, 0);
    // The burst passes at once.
    assert_eq!(bucket.acquire(0), 0);
    assert_eq!(bucket.acquire(0), 0);
    // The excess request is delayed - never rejected - until replenishment.
    let delay = bucket.acquire(0);
    assert_eq!(delay, 1000);
    // After the window rolls over, tokens are available again.
    assert_eq!(bucket.acquire(1000), 0);
}

#[test]
fn rate_limit_leaves_other_hosts_alone() {
    let spec = RateLimitSpec { per_ms: 1000, burst: 1 };
    let mut pool = ClientPool::new();
    let (a, created_a) = pool.client_for_host("api.open-meteo.com", spec, 0);
    assert!(created_a);
    let (b, created_b) = pool.client_for_host("example.net", spec, 0);
    assert!(created_b);
    assert_ne!(a, b);
    // Exhaust the first host's bucket.
    assert_eq!(pool.acquire(a, 0), 0);
    assert!(pool.acquire(a, 0) > 0);
    // The other host is unaffected.
    assert_eq!(pool.acquire(b, 0), 0);
}

#[test]
fn client_pool_reuses_host_slot() {
    let spec = RateLimitSpec { per_ms: 500, burst: 3 };
    let mut pool = ClientPool::new();
    let (first, created) = pool.client_for_host("h".to_owned().as_str(), spec, 0);
    assert!(created);
    let (second, created_again) = pool.client_for_host("h", spec, 100);
    assert!(!created_again);
    assert_eq!(first, second);
}
