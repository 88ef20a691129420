//! DNS over HTTPS (HTTP/1 and HTTP/2): the listener.
use crate::config::AppConfig;
use crate::error::DnsProxyResult;
use crate::rewrite::SniRewriterType;
use crate::text;
use crate::tls_utils::roots;
use crate::upstream::http;
use crate::upstream::pool::ConnectionPool;
use crate::utils;
use crate::utils::backoff::BackoffCounter;
use std::sync::Arc;
use vstd::prelude::*;

verus! {

/// A DoH listener. `M` shares the metrics with other listeners.
pub struct DoHServer<M> {
    pub config: Arc<AppConfig>,
    pub rewriter: SniRewriterType,
    pub pool: ConnectionPool,
    /// The failures to accept a connection, over all runs of the listener.
    pub backoff: BackoffCounter,
    pub metrics: M,
}

impl<M> DoHServer<M> {
    /// Whether the listener has just been made.
    pub open spec fn is_fresh(
        &self,
        config: Arc<AppConfig>,
        rewriter: SniRewriterType,
        metrics: M,
    ) -> bool {
        &&& self.config == config
        &&& self.rewriter == rewriter
        &&& self.metrics == metrics
        &&& self.backoff.failures() == 0
        &&& self.pool.is_fresh(config.limits.max_upstream_pool_entries)
    }

    /// A listener that trusts the public authorities and those of the platform, whose
    /// certificates are `native`.
    pub fn new(
        config: Arc<AppConfig>,
        rewriter: SniRewriterType,
        metrics: M,
        native: &Vec<Vec<u8>>,
    ) -> (r: DnsProxyResult<Self>)
        ensures
            match r {
                Ok(server) => {
                    &&& roots::is_loaded(Ok(server.pool.trust()), native@, None)
                    &&& server.is_fresh(config, rewriter, metrics)
                },
                Err(error) => roots::is_loaded(Err(error), native@, None),
            },
    {
        match http::create_connection_pool_with_limit(
            config.limits.max_upstream_pool_entries,
            native,
        ) {
            Ok(pool) => Ok(
                DoHServer { config, rewriter, pool, backoff: BackoffCounter::new(), metrics },
            ),
            Err(error) => Err(error),
        }
    }

    /// A listener with a given trust store.
    pub fn with_root_store(
        config: Arc<AppConfig>,
        rewriter: SniRewriterType,
        metrics: M,
        root_store: Arc<rustls::RootCertStore>,
    ) -> (r: Self)
        ensures
            r.is_fresh(config, rewriter, metrics),
            r.pool.trust() == root_store,
    {
        let pool = http::create_connection_pool_with_limit_and_root_store(
            config.limits.max_upstream_pool_entries,
            root_store,
        );
        DoHServer { config, rewriter, pool, backoff: BackoffCounter::new(), metrics }
    }
}

/// The server name of a connection, in small letters. A connection without one is
/// dropped.
pub fn connection_server_name(server_name: Option<&str>) -> (r: Option<String>)
    ensures
        utils::is_text(
            r,
            match server_name {
                Some(name) => Some(text::lower(name@)),
                None => None,
            },
        ),
{
    match server_name {
        Some(name) => Some(text::to_lower(name)),
        None => None,
    }
}

} // verus!
