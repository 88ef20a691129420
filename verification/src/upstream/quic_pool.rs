//! The pools of connections over QUIC.
use crate::error;
use crate::error::{DnsProxyError, DnsProxyResult, ErrorView};
use crate::quic::config::QuicApplication;
use crate::text;
use crate::tls_utils::roots;
use crate::upstream::lease_pool;
use crate::upstream::lease_pool::{KeyView, LeasePool, PoolKey, PoolLease};
use std::sync::Arc;
use vstd::prelude::*;

verus! {

/// A lease on a QUIC connection.
pub type QuicConnectionLease = PoolLease;

/// A lease on an HTTP/3 session.
pub type Http3SessionLease = PoolLease;

/// A bounded pool of QUIC connections.
#[derive(Debug)]
pub struct QuicConnectionPool {
    pub leases: LeasePool,
    pub root_store: Arc<rustls::RootCertStore>,
}

/// A bounded pool of HTTP/3 sessions.
#[derive(Debug)]
pub struct Http3ConnectionPool {
    pub leases: LeasePool,
    pub root_store: Arc<rustls::RootCertStore>,
}

/// The error for an upstream to which no connection could be opened.
pub fn upstream_error(hostname: &str, port: u16, reason: &str) -> (r: DnsProxyError)
    ensures
        r@ == connection_error(hostname@, port, reason@),
{
    error::connection_failed(text::join_port(hostname, port).as_str(), reason)
}

/// The error for an upstream to which no connection could be opened.
pub open spec fn connection_error(hostname: Seq<char>, port: u16, reason: Seq<char>) -> ErrorView {
    ErrorView::ConnectionFailed { upstream: text::with_port(hostname, port), reason }
}

/// The address to connect to, given the first that a name lookup found.
pub fn resolved_address<A>(
    hostname: &str,
    port: u16,
    lookup: Result<Option<A>, String>,
) -> (r: DnsProxyResult<A>)
    ensures
        match lookup {
            Ok(Some(address)) => r == Ok::<A, DnsProxyError>(address),
            Ok(None) => r matches Err(error) && error@ == connection_error(
                hostname@,
                port,
                "DNS lookup returned no addresses"@,
            ),
            Err(reason) => r matches Err(error) && error@ == connection_error(
                hostname@,
                port,
                reason@,
            ),
        },
{
    match lookup {
        Ok(Some(address)) => Ok(address),
        Ok(None) => Err(upstream_error(hostname, port, "DNS lookup returned no addresses")),
        Err(reason) => Err(upstream_error(hostname, port, reason.as_str())),
    }
}

/// The error for an HTTP/3 session that could not be set up on its connection.
pub fn session_error(reason: &str) -> (r: DnsProxyError)
    ensures
        r@ == ErrorView::Protocol("HTTP/3 client setup failed: "@ + reason@),
{
    DnsProxyError::Protocol(text::join("HTTP/3 client setup failed: ", reason))
}

impl QuicConnectionPool {
    /// An empty pool for so many connections that trusts the public authorities and those of
    /// the platform, whose certificates are `native`.
    pub fn new(max_entries: usize, native: &Vec<Vec<u8>>) -> (r: DnsProxyResult<Self>)
        ensures
            match r {
                Ok(pool) => {
                    &&& pool.leases.inv()
                    &&& pool.leases.slots() == Seq::<lease_pool::SlotView>::empty()
                    &&& pool.leases.capacity() == max_entries
                    &&& pool.leases.issued() == 0
                    &&& roots::is_loaded(Ok(pool.root_store), native@, None)
                },
                Err(error) => roots::is_loaded(Err(error), native@, None),
            },
    {
        match roots::load_upstream_root_store(native, None) {
            Ok(root_store) => Ok(QuicConnectionPool::with_root_store(max_entries, root_store)),
            Err(error) => Err(error),
        }
    }

    /// An empty pool for so many connections.
    pub fn with_root_store(max_entries: usize, root_store: Arc<rustls::RootCertStore>) -> (r: Self)
        ensures
            r.leases.inv(),
            r.leases.slots() == Seq::<lease_pool::SlotView>::empty(),
            r.leases.capacity() == max_entries,
            r.leases.issued() == 0,
            r.root_store == root_store,
    {
        QuicConnectionPool { leases: LeasePool::new(max_entries), root_store }
    }

    /// Asks for a connection, as [`LeasePool::get`] does.
    pub fn get(
        &mut self,
        application: QuicApplication,
        hostname: &str,
        port: u16,
        closed: &Vec<u64>,
        now: u128,
    ) -> (r: DnsProxyResult<QuicConnectionLease>)
        requires
            old(self).leases.inv(),
            old(self).leases.issued() < u64::MAX,
        ensures
            final(self).leases.inv(),
            final(self).root_store == old(self).root_store,
            old(self).leases.gets(
                KeyView { application, hostname: hostname@, port },
                closed@,
                "QUIC"@,
                now,
                final(self).leases,
                r,
            ),
    {
        let key = PoolKey::new(application, hostname, port);
        self.leases.get(&key, closed, "QUIC", now)
    }

    /// Drops the connection for an upstream.
    pub fn invalidate(&mut self, application: QuicApplication, hostname: &str, port: u16)
        requires
            old(self).leases.inv(),
        ensures
            final(self).leases.inv(),
            final(self).root_store == old(self).root_store,
            final(self).leases.slots() == lease_pool::forgotten(
                old(self).leases.slots(),
                KeyView { application, hostname: hostname@, port },
            ),
            final(self).leases.capacity() == old(self).leases.capacity(),
            final(self).leases.issued() == old(self).leases.issued(),
    {
        let key = PoolKey::new(application, hostname, port);
        self.leases.invalidate(&key);
    }
}

impl Http3ConnectionPool {
    /// An empty pool for so many sessions that trusts the public authorities and those of
    /// the platform, whose certificates are `native`.
    pub fn new(max_entries: usize, native: &Vec<Vec<u8>>) -> (r: DnsProxyResult<Self>)
        ensures
            match r {
                Ok(pool) => {
                    &&& pool.leases.inv()
                    &&& pool.leases.slots() == Seq::<lease_pool::SlotView>::empty()
                    &&& pool.leases.capacity() == max_entries
                    &&& pool.leases.issued() == 0
                    &&& roots::is_loaded(Ok(pool.root_store), native@, None)
                },
                Err(error) => roots::is_loaded(Err(error), native@, None),
            },
    {
        match roots::load_upstream_root_store(native, None) {
            Ok(root_store) => Ok(Http3ConnectionPool::with_root_store(max_entries, root_store)),
            Err(error) => Err(error),
        }
    }

    /// An empty pool for so many sessions.
    pub fn with_root_store(max_entries: usize, root_store: Arc<rustls::RootCertStore>) -> (r: Self)
        ensures
            r.leases.inv(),
            r.leases.slots() == Seq::<lease_pool::SlotView>::empty(),
            r.leases.capacity() == max_entries,
            r.leases.issued() == 0,
            r.root_store == root_store,
    {
        Http3ConnectionPool { leases: LeasePool::new(max_entries), root_store }
    }

    /// Asks for a session, as [`LeasePool::get`] does.
    pub fn get(&mut self, hostname: &str, port: u16, closed: &Vec<u64>, now: u128) -> (r:
        DnsProxyResult<Http3SessionLease>)
        requires
            old(self).leases.inv(),
            old(self).leases.issued() < u64::MAX,
        ensures
            final(self).leases.inv(),
            final(self).root_store == old(self).root_store,
            old(self).leases.gets(
                KeyView { application: QuicApplication::H3, hostname: hostname@, port },
                closed@,
                "HTTP/3"@,
                now,
                final(self).leases,
                r,
            ),
    {
        let key = PoolKey::new(QuicApplication::H3, hostname, port);
        self.leases.get(&key, closed, "HTTP/3", now)
    }

    /// Drops the session for an upstream.
    pub fn invalidate(&mut self, hostname: &str, port: u16)
        requires
            old(self).leases.inv(),
        ensures
            final(self).leases.inv(),
            final(self).root_store == old(self).root_store,
            final(self).leases.slots() == lease_pool::forgotten(
                old(self).leases.slots(),
                KeyView { application: QuicApplication::H3, hostname: hostname@, port },
            ),
            final(self).leases.capacity() == old(self).leases.capacity(),
            final(self).leases.issued() == old(self).leases.issued(),
    {
        let key = PoolKey::new(QuicApplication::H3, hostname, port);
        self.leases.invalidate(&key);
    }
}

/// An upstream that could not be reached is reported by its host and port, with the reason.
pub proof fn failures_name_the_upstream(hostname: Seq<char>, port: u16, reason: Seq<char>)
    ensures
        connection_error(hostname, port, reason) == (ErrorView::ConnectionFailed {
            upstream: hostname + seq![':'] + text::decimal(port as nat),
            reason,
        }),
{
    reveal_strlit(":");
    assert(":"@ == seq![':']);
}

} // verus!
