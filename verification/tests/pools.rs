use dns_ingress::error::DnsProxyError;
use dns_ingress::quic::config::QuicApplication;
use dns_ingress::upstream::http::{
    create_connection_pool_with_limit, create_connection_pool_with_limit_and_root_store,
};
use dns_ingress::upstream::lease_pool::{LeasePool, PoolKey};
use dns_ingress::upstream::pool::ConnectionPool;
use dns_ingress::upstream::quic_pool::{
    resolved_address, session_error, Http3ConnectionPool, QuicConnectionPool,
};
use std::sync::Arc;

fn roots() -> Arc<rustls::RootCertStore> {
    Arc::new(rustls::RootCertStore::empty())
}

#[test]
fn quic_pool_rejects_before_resolution_when_all_slots_are_reserved() {
    let mut pool = QuicConnectionPool::new(1, &vec![]).unwrap();
    let _slot = pool
        .get(QuicApplication::Doq, "first.invalid", 853, &vec![], 0)
        .expect("test reserves the only slot");
    let result = pool.get(QuicApplication::Doq, "does-not-resolve.invalid", 853, &vec![], 1);
    assert!(matches!(result, Err(DnsProxyError::Overloaded { .. })));
    assert_eq!(
        result.unwrap_err().message(),
        "QUIC upstream overloaded: does-not-resolve.invalid:853"
    );
}

#[test]
fn h3_pool_rejects_before_resolution_when_all_slots_are_reserved() {
    let mut pool = Http3ConnectionPool::new(1, &vec![]).unwrap();
    let _slot = pool
        .get("first.invalid", 443, &vec![], 0)
        .expect("test reserves the only slot");
    let result = pool.get("does-not-resolve.invalid", 443, &vec![], 1);
    assert!(matches!(result, Err(DnsProxyError::Overloaded { .. })));
    assert_eq!(
        result.unwrap_err().message(),
        "HTTP/3 upstream overloaded: does-not-resolve.invalid:443"
    );
}

fn key(name: &str) -> PoolKey {
    PoolKey::new(QuicApplication::Doq, name, 853)
}

/// A pool for two connections, with idle ones to `a` and then `b`.
fn two_idle() -> (LeasePool, u64, u64) {
    let mut pool = LeasePool::new(2);
    let mut ids = Vec::new();
    for (name, now) in [("a", 1), ("b", 2)] {
        let lease = pool.get(&key(name), &vec![], "QUIC", now).unwrap();
        assert!(lease.is_new);
        assert_eq!(pool.complete(lease.id, key(name), &vec![], now), lease.id);
        pool.release(lease.id);
        ids.push(lease.id);
    }
    (pool, ids[0], ids[1])
}

#[test]
fn open_connections_are_lent_again() {
    let (mut pool, a, b) = two_idle();
    let lease = pool.get(&key("a"), &vec![], "QUIC", 3).unwrap();
    assert_eq!((lease.id, lease.is_new), (a, false));
    let lease = pool.get(&key("b"), &vec![], "QUIC", 4).unwrap();
    assert_eq!((lease.id, lease.is_new), (b, false));
}

#[test]
fn the_least_used_idle_connection_leaves() {
    let (mut pool, a, b) = two_idle();
    let lease = pool.get(&key("a"), &vec![], "QUIC", 3).unwrap();
    pool.release(lease.id);
    let lease = pool.get(&key("c"), &vec![], "QUIC", 4).unwrap();
    assert!(lease.is_new);
    let again = pool.get(&key("a"), &vec![], "QUIC", 5).unwrap();
    assert_eq!((again.id, again.is_new), (a, false));
    assert!(pool.get(&key("b"), &vec![], "QUIC", 6).is_err());
    assert_ne!(lease.id, b);
}

#[test]
fn closed_connections_are_opened_again() {
    let (mut pool, a, _) = two_idle();
    let lease = pool.get(&key("a"), &vec![a], "QUIC", 3).unwrap();
    assert!(lease.is_new);
    assert_ne!(lease.id, a);
}

#[test]
fn borrowers_keep_their_slots_after_an_invalidation() {
    let (mut pool, a, _) = two_idle();
    let lease = pool.get(&key("a"), &vec![], "QUIC", 3).unwrap();
    assert_eq!(lease.id, a);
    let other = pool.get(&key("b"), &vec![], "QUIC", 4).unwrap();
    pool.invalidate(&key("a"));
    assert!(pool.get(&key("a"), &vec![], "QUIC", 5).is_err());
    pool.release(lease.id);
    assert!(pool.get(&key("a"), &vec![], "QUIC", 6).unwrap().is_new);
    pool.release(other.id);
}

#[test]
fn the_first_of_two_connections_to_a_host_is_kept() {
    let mut pool = LeasePool::new(2);
    let first = pool.get(&key("a"), &vec![], "QUIC", 1).unwrap();
    let second = pool.get(&key("a"), &vec![], "QUIC", 2).unwrap();
    assert!(first.is_new && second.is_new);
    assert_eq!(pool.complete(second.id, key("a"), &vec![], 3), second.id);
    assert_eq!(pool.complete(first.id, key("a"), &vec![], 4), second.id);
    assert!(pool.get(&key("b"), &vec![], "QUIC", 5).unwrap().is_new);
}

#[test]
fn pools_tell_applications_and_ports_apart() {
    let mut pool = QuicConnectionPool::with_root_store(4, roots());
    let doq = pool.get(QuicApplication::Doq, "a", 853, &vec![], 1).unwrap();
    let id = pool.leases.complete(
        doq.id,
        PoolKey::new(QuicApplication::Doq, "a", 853),
        &vec![],
        1,
    );
    assert!(!pool.get(QuicApplication::Doq, "a", 853, &vec![], 2).unwrap().is_new);
    assert!(pool.get(QuicApplication::H3, "a", 853, &vec![], 2).unwrap().is_new);
    assert!(pool.get(QuicApplication::Doq, "a", 854, &vec![], 2).unwrap().is_new);
    pool.invalidate(QuicApplication::Doq, "a", 853);
    let again = pool.get(QuicApplication::Doq, "a", 853, &vec![], 3).unwrap();
    assert!(again.is_new && again.id != id);
}

#[test]
fn lookups_must_find_an_address() {
    assert_eq!(resolved_address("a", 853, Ok(Some(7))).unwrap(), 7);
    let none: Result<Option<u8>, String> = Ok(None);
    assert_eq!(
        resolved_address("a", 853, none).unwrap_err().message(),
        "Connection to upstream a:853 failed: DNS lookup returned no addresses"
    );
    let failed: Result<Option<u8>, String> = Err("no server".to_string());
    assert_eq!(
        resolved_address("a", 853, failed).unwrap_err().message(),
        "Connection to upstream a:853 failed: no server"
    );
    assert_eq!(
        session_error("settings").message(),
        "Protocol error: HTTP/3 client setup failed: settings"
    );
}

#[test]
fn http_clients_are_reused_by_server_name() {
    let mut pool = ConnectionPool::new(roots());
    let first = pool.get_client("a.example.cn");
    assert!(first.is_new && first.evicted.is_none());
    let again = pool.get_client("a.example.cn");
    assert!(!again.is_new);
    assert_eq!(again.id, first.id);
    let other = pool.get_client("b.example.cn");
    assert!(other.is_new);
    assert_ne!(other.id, first.id);
    assert_eq!(pool.keepalive_seconds(), 60);
    assert_eq!(pool.connection_seconds(), 10);
    assert_eq!(pool.max_idle_connections(), 10);
    assert!(pool.root_store().is_empty());
}

#[test]
fn http_clients_leave_when_there_are_too_many() {
    let mut pool = create_connection_pool_with_limit_and_root_store(2, roots());
    let a = pool.get_client("a").id;
    let b = pool.get_client("b").id;
    let c = pool.get_client("c");
    let gone = c.evicted.unwrap();
    assert!(gone == a || gone == b);
    let (kept_name, kept) = if gone == a { ("b", b) } else { ("a", a) };
    assert_eq!(pool.get_client(kept_name).id, kept);
    assert_eq!(pool.get_client("c").id, c.id);

    let mut none = ConnectionPool::with_max_clients_and_root_store(0, roots());
    let a = none.get_client("a");
    assert!(a.evicted.is_none());
    assert_eq!(none.get_client("b").evicted, Some(a.id));
}

#[test]
fn pools_trust_the_public_authorities_and_the_platform() {
    let quic = QuicConnectionPool::new(1, &vec![]).unwrap();
    assert_eq!(quic.root_store.len(), webpki_roots::TLS_SERVER_ROOTS.len());
    let h3 = Http3ConnectionPool::new(1, &vec![]).unwrap();
    assert_eq!(h3.root_store.len(), webpki_roots::TLS_SERVER_ROOTS.len());
    let mut http = create_connection_pool_with_limit(1, &vec![]).unwrap();
    assert_eq!(http.root_store().len(), webpki_roots::TLS_SERVER_ROOTS.len());
    let a = http.get_client("a").id;
    assert_eq!(http.get_client("b").evicted, Some(a));

    let junk = vec![vec![1, 2, 3]];
    assert!(QuicConnectionPool::new(1, &junk).is_err());
    assert!(Http3ConnectionPool::new(1, &junk).is_err());
    assert!(ConnectionPool::with_max_clients(1, &junk).is_err());
}

#[test]
fn new_pools_can_lend() {
    let pool = LeasePool::new(1);
    assert!(pool.can_lend());
    assert!(!pool.holds(0));
    assert!(ConnectionPool::new(roots()).can_create());
}
