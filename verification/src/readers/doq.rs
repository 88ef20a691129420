//! DNS over QUIC.
use crate::config::AppConfig;
use crate::error;
use crate::error::{DnsProxyError, DnsProxyResult, ErrorView};
use crate::metrics::Metrics;
use crate::readers::streams;
use crate::rewrite::SniRewriterType;
use crate::rewriters::base;
use crate::rewriters::base::BaseSniRewriter;
use crate::tls_utils::roots;
use crate::tls_utils::roots::AuthorityFile;
use crate::upstream::lease_pool;
use crate::upstream::quic_pool::QuicConnectionPool;
use std::sync::Arc;
use vstd::prelude::*;

verus! {

/// The error code with which a connection is closed whose client breaks the rules.
pub const DOQ_PROTOCOL_ERROR: u32 = 2;

/// A DoQ listener. `M` shares the metrics with other listeners.
pub struct DoQServer<M> {
    pub config: Arc<AppConfig>,
    pub rewriter: SniRewriterType,
    pub metrics: M,
    pub pool: QuicConnectionPool,
}

impl<M> DoQServer<M> {
    /// A listener with its own trust store. `native` are the certificates of the
    /// platform, `authorities` the configured bundle.
    pub fn new(
        config: Arc<AppConfig>,
        rewriter: SniRewriterType,
        metrics: M,
        native: &Vec<Vec<u8>>,
        authorities: Option<&AuthorityFile>,
    ) -> (r: DnsProxyResult<Self>)
        ensures
            match r {
                Ok(server) => {
                    &&& roots::is_loaded(
                        Ok(server.pool.root_store),
                        native@,
                        authorities,
                    )
                    &&& server.is_fresh(config, rewriter, metrics)
                },
                Err(error) => roots::is_loaded(Err(error), native@, authorities),
            },
    {
        match roots::load_upstream_root_store(native, authorities) {
            Ok(root_store) => Ok(DoQServer::with_root_store(config, rewriter, metrics, root_store)),
            Err(error) => Err(error),
        }
    }

    /// Whether the listener has just been made.
    pub open spec fn is_fresh(
        &self,
        config: Arc<AppConfig>,
        rewriter: SniRewriterType,
        metrics: M,
    ) -> bool {
        &&& self.config == config
        &&& self.rewriter == rewriter
        &&& self.metrics == metrics
        &&& self.pool.leases.inv()
        &&& self.pool.leases.slots() == Seq::<lease_pool::SlotView>::empty()
        &&& self.pool.leases.capacity() == config.limits.max_upstream_pool_entries
    }

    /// A listener with a given trust store.
    pub fn with_root_store(
        config: Arc<AppConfig>,
        rewriter: SniRewriterType,
        metrics: M,
        root_store: Arc<rustls::RootCertStore>,
    ) -> (r: Self)
        ensures
            r.is_fresh(config, rewriter, metrics),
            r.pool.root_store == root_store,
    {
        let pool = QuicConnectionPool::with_root_store(
            config.limits.max_upstream_pool_entries,
            root_store,
        );
        DoQServer { config, rewriter, metrics, pool }
    }
}

/// The upstream host of a connection.
pub fn upstream_of_connection(server_name: Option<&str>, rewriter: &BaseSniRewriter) -> (r:
    DnsProxyResult<String>)
    ensures
        match server_name {
            None => r matches Err(error) && error@ == ErrorView::InvalidInput(
                "DoQ requires TLS SNI hostname"@,
            ),
            Some(name) => match base::rewritten(rewriter.bases(), rewriter.suffix(), name@) {
                Some(target) => r matches Ok(host) && host@ == target.target_hostname,
                None => r matches Err(error) && error@ == (ErrorView::NoMatchingBaseDomain {
                    hostname: name@,
                }),
            },
        },
{
    match streams::required_server_name(server_name, "DoQ requires TLS SNI hostname") {
        Err(error) => Err(error),
        Ok(name) => match rewriter.rewrite(name.as_str()) {
            Some(target) => Ok(target.target_hostname),
            None => Err(error::no_matching_base_domain(name.as_str())),
        },
    }
}

/// How a connection is closed.
#[derive(Debug, Clone)]
pub struct ConnectionClose {
    pub code: u32,
    pub reason: String,
}

/// What becomes of a connection whose client opened a unidirectional stream, which
/// DoQ has none of.
pub fn close_for_unidirectional_stream() -> (r: ConnectionClose)
    ensures
        r.code == DOQ_PROTOCOL_ERROR,
        r.reason@ == "DoQ unidirectional stream"@,
{
    ConnectionClose { code: DOQ_PROTOCOL_ERROR, reason: "DoQ unidirectional stream".to_owned() }
}

/// Counts a transaction by the octets that went each way, or as a failure. A client that
/// breaks the rules loses its connection.
pub fn settle_transaction(
    result: &DnsProxyResult<(u64, u64)>,
    elapsed_micros: u128,
    metrics: &mut Metrics,
) -> (r: Option<ConnectionClose>)
    ensures
        match *result {
            Ok((bytes_received, bytes_sent)) => {
                &&& r is None
                &&& final(metrics)@ == old(metrics)@.with_request(
                    true,
                    bytes_received,
                    bytes_sent,
                    elapsed_micros,
                )
            },
            Err(error) => {
                &&& r is Some <==> error@ is Protocol
                &&& r matches Some(close) ==> close.code == DOQ_PROTOCOL_ERROR && close.reason@
                    == "DoQ protocol error"@
                &&& final(metrics)@ == old(metrics)@.with_request(
                    false,
                    0,
                    0,
                    elapsed_micros,
                ).with_upstream_error()
            },
        },
{
    match result {
        Ok((bytes_received, bytes_sent)) => {
            metrics.record_request(true, *bytes_received, *bytes_sent, elapsed_micros);
            None
        },
        Err(error) => {
            metrics.record_request(false, 0, 0, elapsed_micros);
            metrics.record_upstream_error();
            match error {
                DnsProxyError::Protocol(_) => Some(
                    ConnectionClose {
                        code: DOQ_PROTOCOL_ERROR,
                        reason: "DoQ protocol error".to_owned(),
                    },
                ),
                _ => None,
            }
        },
    }
}

} // verus!
