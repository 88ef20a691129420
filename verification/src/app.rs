//! The proxy as a whole: how its listeners come up and go down together.
use crate::config;
use crate::config::validation::BindAddresses;
use crate::config::{AppConfig, ServersConfig};
use crate::error::{DnsProxyError, DnsProxyResult, ErrorView};
use crate::metrics::{Metrics, MetricsSnapshot};
use crate::octets;
use crate::readers::listener::ServerKind;
use crate::rewrite;
use crate::rewrite::SniRewriterType;
use crate::rewriters::base;
use crate::tasks;
use crate::tasks::{Shutdown, ShutdownEvent};
use crate::text;
use crate::tls_utils::certificates::CertificateFiles;
use crate::tls_utils::resolver;
use crate::tls_utils::resolver::CertificateResolver;
use crate::tls_utils::roots;
use crate::tls_utils::roots::AuthorityFile;
use std::sync::Arc;
use vstd::prelude::*;

verus! {

/// How long all listeners together may take to stop, in seconds.
pub const SHUTDOWN_GRACE_SECONDS: u64 = 10;

/// A listener, where a configuration has it.
pub open spec fn if_enabled(kind: ServerKind, servers: ServersConfig) -> Seq<ServerKind> {
    if kind.is_enabled(servers) {
        seq![kind]
    } else {
        Seq::empty()
    }
}

/// The listeners that a configuration has, in the order in which they are started.
pub open spec fn enabled_servers(servers: ServersConfig) -> Seq<ServerKind> {
    if_enabled(ServerKind::Healthcheck, servers) + if_enabled(ServerKind::Dot, servers)
        + if_enabled(ServerKind::Doh, servers) + if_enabled(ServerKind::Doq, servers) + if_enabled(
        ServerKind::Doh3,
        servers,
    )
}

fn push_if_enabled(list: &mut Vec<ServerKind>, kind: ServerKind, servers: &ServersConfig)
    ensures
        final(list)@ == old(list)@ + if_enabled(kind, *servers),
{
    if kind.enabled(servers) {
        list.push(kind);
    }
}

/// The listeners that a configuration has, in the order in which they are started.
pub fn servers_to_start(servers: &ServersConfig) -> (r: Vec<ServerKind>)
    ensures
        r@ == enabled_servers(*servers),
{
    let mut list: Vec<ServerKind> = Vec::new();
    push_if_enabled(&mut list, ServerKind::Healthcheck, servers);
    push_if_enabled(&mut list, ServerKind::Dot, servers);
    push_if_enabled(&mut list, ServerKind::Doh, servers);
    push_if_enabled(&mut list, ServerKind::Doq, servers);
    push_if_enabled(&mut list, ServerKind::Doh3, servers);
    list
}

/// What a listener that is being started reports.
#[derive(Debug, Clone)]
pub enum ReadyReport {
    /// It has its socket.
    Bound,
    /// It failed.
    Failed(DnsProxyError),
    /// It is gone without a report.
    Lost,
}

/// What was read of the files that a configuration names.
#[derive(Debug)]
pub struct StartupFiles {
    /// The addresses to bind, as far as they could be parsed.
    pub binds: BindAddresses,
    /// The configured files that are missing.
    pub missing: Vec<String>,
    /// The certificates of the platform.
    pub native: Vec<Vec<u8>>,
    /// The bundle of private authorities.
    pub authorities: Option<AuthorityFile>,
    /// The default certificate and its key.
    pub default_files: Option<CertificateFiles>,
    /// The other certificates and their keys, in the order of the configuration.
    pub files: Vec<CertificateFiles>,
}

impl StartupFiles {
    /// Whether there is something of every file that a configuration names.
    pub open spec fn fits(&self, config: AppConfig) -> bool {
        &&& self.default_files is Some <==> config.tls.default is Some
        &&& self.files@.len() == config.tls.certs@.len()
    }
}

/// What keeps the listeners from being started, apart from the trust store.
pub open spec fn certificate_fault(config: AppConfig, files: StartupFiles) -> Option<ErrorView> {
    if !config.servers.serves_dns() {
        None
    } else if !config.tls.has_certificate() {
        Some(
            ErrorView::Tls(
                "at least one TLS certificate is required for an enabled DNS listener"@,
            ),
        )
    } else {
        match resolver::load_default(config.tls.default, files.default_files) {
            Err(error) => Some(error),
            Ok(_) => match resolver::load_all(
                config.tls.certs@,
                files.files@,
                files.files@.len(),
            ) {
                Err(error) => Some(error),
                Ok(_) => None,
            },
        }
    }
}

/// The proxy.
#[derive(Debug)]
pub struct App {
    pub config: Arc<AppConfig>,
    pub rewriter: SniRewriterType,
    pub metrics: Metrics,
    /// Whether all listeners that the configuration has are serving.
    pub ready: bool,
    /// Whether a listener went down by itself since the last start.
    pub failed: bool,
    /// Whether the listeners have been told to stop.
    pub cancelled: bool,
    /// The listeners of the last start.
    pub servers: Vec<ServerKind>,
    /// How many of them have reported that they have their sockets.
    pub bound: usize,
    /// The listener tasks that have been started and not been shut down.
    pub tasks: Vec<ServerKind>,
}

/// A start that was given up.
#[derive(Debug)]
pub struct AbandonedStart {
    pub error: DnsProxyError,
    /// The end of the listeners that had been started.
    pub shutdown: Shutdown,
}

impl App {
    /// What holds at all times: the proxy calls itself ready only while every listener
    /// that its configuration has was bound and none has gone down by itself.
    pub open spec fn inv(&self) -> bool {
        &&& self.bound <= self.servers@.len()
        &&& self.ready ==> !self.failed && self.bound == self.servers@.len() && self.servers@
            == enabled_servers(self.config.servers)
    }

    /// Whether another state has the same parts, apart from how far it has come.
    pub open spec fn is_same_app(&self, other: App) -> bool {
        self.config == other.config && self.rewriter == other.rewriter && self.metrics
            == other.metrics
    }

    /// Whether `after` and `r` come of a start with valid settings, given the anchors of
    /// the trust store or why there is none: first the trust store decides, and then the
    /// certificates.
    pub open spec fn starts_on(
        &self,
        anchors: Result<Seq<(Seq<u8>, Seq<u8>, Option<Seq<u8>>)>, ErrorView>,
        files: StartupFiles,
        after: App,
        r: DnsProxyResult<Arc<rustls::RootCertStore>>,
    ) -> bool {
        match anchors {
            Err(fault) => (r matches Err(error) && error@ == fault) && after == *self,
            Ok(trusted) => {
                &&& !after.ready && !after.failed
                &&& match certificate_fault(*self.config, files) {
                    Some(fault) => {
                        &&& r matches Err(error) && error@ == fault
                        &&& after.servers == self.servers
                        &&& after.bound == self.bound
                        &&& after.tasks == self.tasks
                    },
                    None => {
                        &&& r matches Ok(store) && roots::trust_anchors(*store) == trusted
                        &&& after.servers@ == enabled_servers(self.config.servers)
                        &&& after.bound == 0
                        &&& after.tasks@ == self.tasks@ + after.servers@
                    },
                }
            },
        }
    }

    /// Whether `after` and `r` come of a shutdown: the proxy is not ready, all listeners
    /// have been told to stop, and the end of all their tasks begins, with one grace
    /// period for all of them.
    pub open spec fn shuts_down(&self, after: App, r: Shutdown) -> bool {
        &&& after.is_same_app(*self)
        &&& !after.ready
        &&& after.cancelled
        &&& after.failed == self.failed
        &&& after.servers == self.servers
        &&& after.bound == self.bound
        &&& after.tasks@.len() == 0
        &&& r.stage is Closing
        &&& r.left == self.tasks@.len()
        &&& r.grace_seconds == SHUTDOWN_GRACE_SECONDS
    }

    /// A proxy that has not been started.
    pub fn new(config: AppConfig) -> (r: Self)
        ensures
            r.inv(),
            *r.config == config,
            r.rewriter.bases() == base::canonical_domains(
                config::texts(config.rewrite.base_domains@),
            ),
            r.rewriter.suffix() == text::lower(config.rewrite.target_suffix@),
            r.metrics@ == MetricsSnapshot::zero(),
            !r.ready && !r.failed && !r.cancelled,
            r.servers@.len() == 0,
            r.tasks@.len() == 0,
    {
        let rewrite = config.rewrite.duplicate();
        App {
            config: Arc::new(config),
            rewriter: rewrite::create_rewriter(rewrite),
            metrics: Metrics::new(),
            ready: false,
            failed: false,
            cancelled: false,
            servers: Vec::new(),
            bound: 0,
            tasks: Vec::new(),
        }
    }

    /// Checks everything that can be checked before a listener is started: the settings,
    /// the trust store for upstreams, and the certificates. The result is that trust
    /// store; the listeners to start are then in `servers`, and a task is to be started
    /// for each.
    pub fn start(&mut self, files: &StartupFiles) -> (r: DnsProxyResult<
        Arc<rustls::RootCertStore>,
    >)
        requires
            old(self).inv(),
            files.fits(*old(self).config),
        ensures
            final(self).inv(),
            final(self).is_same_app(*old(self)),
            final(self).cancelled == old(self).cancelled,
            match old(self).config.fault(files.binds, config::texts(files.missing@)) {
                Some(fault) => {
                    &&& r matches Err(error) && error@ == ErrorView::Setup(fault)
                    &&& *final(self) == *old(self)
                },
                None => exists|public: Seq<(Seq<u8>, Seq<u8>, Option<Seq<u8>>)>|
                    roots::are_webpki_roots(public) && old(self).starts_on(
                        #[trigger] roots::upstream_anchors(
                            public,
                            octets::all(files.native@),
                            files.authorities_ref(),
                        ),
                        *files,
                        *final(self),
                        r,
                    ),
            },
    {
        match self.config.validate(&files.binds, &files.missing) {
            Err(fault) => return Err(DnsProxyError::Setup(fault)),
            Ok(()) => {},
        }
        let store = match roots::load_upstream_root_store(
            &files.native,
            files.authorities.as_ref(),
        ) {
            Ok(store) => store,
            Err(error) => return Err(error),
        };
        self.ready = false;
        self.failed = false;
        if self.config.servers.any_dns_listener() {
            if !self.config.tls.any_certificate() {
                return Err(
                    DnsProxyError::Tls(
                        "at least one TLS certificate is required for an enabled DNS listener".to_owned(),
                    ),
                );
            }
            match CertificateResolver::new(
                &self.config,
                files.default_files.as_ref(),
                &files.files,
            ) {
                Ok(_) => {},
                Err(error) => return Err(error),
            }
        }
        self.servers = servers_to_start(&self.config.servers);
        self.bound = 0;
        let mut started = servers_to_start(&self.config.servers);
        self.tasks.append(&mut started);
        Ok(store)
    }

    /// The listener whose report is awaited.
    pub fn awaited_server(&self) -> (r: Option<ServerKind>)
        requires
            self.inv(),
        ensures
            r == if self.bound < self.servers@.len() {
                Some(self.servers@[self.bound as int])
            } else {
                None
            },
    {
        if self.bound < self.servers.len() {
            Some(self.servers[self.bound])
        } else {
            None
        }
    }

    /// Takes the report of the listener whose report is awaited. A listener that is not
    /// bound ends the start of all, and all are shut down.
    pub fn receive_report(&mut self, report: ReadyReport) -> (r: Result<(), AbandonedStart>)
        requires
            old(self).inv(),
            !old(self).ready,
            old(self).bound < old(self).servers@.len(),
        ensures
            final(self).inv(),
            match report {
                ReadyReport::Bound => {
                    &&& r is Ok
                    &&& *final(self) == (App { bound: (old(self).bound + 1) as usize, ..*old(self) })
                },
                ReadyReport::Failed(fault) => r matches Err(abandoned) && abandoned.error == fault
                    && old(self).shuts_down(*final(self), abandoned.shutdown),
                ReadyReport::Lost => r matches Err(abandoned) && abandoned.error@
                    == ErrorView::Protocol(
                    old(self).servers@[old(self).bound as int].name_text()
                        + " server exited before reporting listener readiness"@,
                ) && old(self).shuts_down(*final(self), abandoned.shutdown),
            },
    {
        match report {
            ReadyReport::Bound => {
                if self.bound < self.servers.len() {
                    self.bound = self.bound + 1;
                }
                Ok(())
            },
            ReadyReport::Failed(error) => Err(AbandonedStart { error, shutdown: self.shutdown() }),
            ReadyReport::Lost => {
                let error = DnsProxyError::Protocol(
                    text::join(
                        self.servers[self.bound].name(),
                        " server exited before reporting listener readiness",
                    ),
                );
                Err(AbandonedStart { error, shutdown: self.shutdown() })
            },
        }
    }

    /// Ends the start once every listener is bound: the proxy is ready, unless one has
    /// gone down again, in which case all are shut down.
    pub fn finish_start(&mut self) -> (r: Result<(), AbandonedStart>)
        requires
            old(self).inv(),
            old(self).servers@ == enabled_servers(old(self).config.servers),
            old(self).bound == old(self).servers@.len(),
        ensures
            final(self).inv(),
            if old(self).failed {
                r matches Err(abandoned) && abandoned.error@ == ErrorView::Protocol(
                    "a listener exited during startup"@,
                ) && old(self).shuts_down(*final(self), abandoned.shutdown)
            } else {
                r is Ok && *final(self) == (App { ready: true, ..*old(self) })
            },
    {
        if self.failed {
            return Err(
                AbandonedStart {
                    error: DnsProxyError::Protocol("a listener exited during startup".to_owned()),
                    shutdown: self.shutdown(),
                },
            );
        }
        self.ready = true;
        Ok(())
    }

    /// Takes note of a listener that is gone. One that failed by itself makes the proxy
    /// unready; one that was told to stop does not count.
    pub fn server_exited(&mut self, result: &DnsProxyResult<()>)
        requires
            old(self).inv(),
        ensures
            final(self).inv(),
            *final(self) == if *result is Err && !old(self).cancelled {
                (App { failed: true, ready: false, ..*old(self) })
            } else {
                *old(self)
            },
    {
        if result.is_err() && !self.cancelled {
            self.failed = true;
            self.ready = false;
        }
    }

    /// Tells all listeners to stop, and begins the end of their tasks.
    pub fn shutdown(&mut self) -> (r: Shutdown)
        requires
            old(self).inv(),
        ensures
            final(self).inv(),
            old(self).shuts_down(*final(self), r),
    {
        self.ready = false;
        self.cancelled = true;
        let left: usize = self.tasks.len();
        self.tasks = Vec::new();
        Shutdown::new(left, SHUTDOWN_GRACE_SECONDS)
    }

    /// Tells all listeners to stop, and begins the end of their tasks.
    pub fn wait_for_shutdown(&mut self) -> (r: Shutdown)
        requires
            old(self).inv(),
        ensures
            final(self).inv(),
            old(self).shuts_down(*final(self), r),
    {
        self.shutdown()
    }
}

impl StartupFiles {
    /// The bundle of private authorities.
    pub open spec fn authorities_ref(&self) -> Option<&AuthorityFile> {
        match &self.authorities {
            Some(file) => Some(file),
            None => None,
        }
    }
}

/// While the proxy is ready, every listener that its configuration has was bound, and
/// none has gone down by itself.
pub proof fn ready_means_serving(app: App, kind: ServerKind)
    requires
        app.inv(),
        app.ready,
        kind.is_enabled(app.config.servers),
    ensures
        !app.failed,
        exists|i: int| 0 <= i < app.bound && app.servers@[i] == kind,
{
    let servers = app.config.servers;
    let a = if_enabled(ServerKind::Healthcheck, servers);
    let b = if_enabled(ServerKind::Dot, servers);
    let c = if_enabled(ServerKind::Doh, servers);
    let d = if_enabled(ServerKind::Doq, servers);
    let all = enabled_servers(servers);
    let i: nat = match kind {
        ServerKind::Healthcheck => 0,
        ServerKind::Dot => a.len(),
        ServerKind::Doh => a.len() + b.len(),
        ServerKind::Doq => a.len() + b.len() + c.len(),
        ServerKind::Doh3 => a.len() + b.len() + c.len() + d.len(),
    };
    assert(all[i as int] == kind);
}

/// A proxy whose configuration has no listener waits for no report: its start can be
/// finished at once.
pub proof fn nothing_to_serve_is_not_awaited(app: App)
    requires
        app.inv(),
        app.servers@ == enabled_servers(app.config.servers),
        !app.config.servers.serves_dns(),
        !app.config.servers.healthcheck.enabled,
    ensures
        app.bound == app.servers@.len(),
{
}

/// A shutdown deals with every listener task that was started: all share one deadline,
/// each has ended by itself or has been aborted and joined when the end is over, and a
/// second shutdown has nothing left to wait for.
pub proof fn shutdown_ends_every_task(
    app: App,
    stopped: App,
    shutdown: Shutdown,
    events: Seq<ShutdownEvent>,
    again: App,
    second: Shutdown,
)
    requires
        app.shuts_down(stopped, shutdown),
        shutdown.takes(events),
        stopped.shuts_down(again, second),
    ensures
        !stopped.ready && stopped.cancelled,
        shutdown.after(events).grace_seconds == SHUTDOWN_GRACE_SECONDS,
        tasks::occurrences(events, ShutdownEvent::Ended) + shutdown.after(events).left
            == app.tasks@.len(),
        events.len() <= 2 * app.tasks@.len() + 1,
        shutdown.after(events).stage is Over ==> tasks::occurrences(events, ShutdownEvent::Ended)
            == app.tasks@.len(),
        second.left == 0,
        second.next(ShutdownEvent::Closed).1 is Done,
{
    tasks::every_task_is_joined(shutdown.left, shutdown.grace_seconds, events);
}

/// A listener is started exactly where its section enables it, each once, and always in the
/// order healthcheck, DoT, DoH, DoQ, DoH3.
pub proof fn enabled_listeners_are_started_in_order(servers: ServersConfig, i: int, j: int)
    ensures
        enabled_servers(servers).contains(ServerKind::Healthcheck) <==> servers.healthcheck.enabled,
        enabled_servers(servers).contains(ServerKind::Dot) <==> servers.dot.enabled,
        enabled_servers(servers).contains(ServerKind::Doh) <==> servers.doh.enabled,
        enabled_servers(servers).contains(ServerKind::Doq) <==> servers.doq.enabled,
        enabled_servers(servers).contains(ServerKind::Doh3) <==> servers.doh3.enabled,
        0 <= i < j < enabled_servers(servers).len() ==> rank(enabled_servers(servers)[i]) < rank(
            enabled_servers(servers)[j],
        ),
{
    let a = if_enabled(ServerKind::Healthcheck, servers);
    let b = if_enabled(ServerKind::Dot, servers);
    let c = if_enabled(ServerKind::Doh, servers);
    let d = if_enabled(ServerKind::Doq, servers);
    let e = if_enabled(ServerKind::Doh3, servers);
    let all = enabled_servers(servers);
    assert(all == a + b + c + d + e);
    if servers.healthcheck.enabled {
        assert(all[0] is Healthcheck);
    }
    if servers.dot.enabled {
        assert(all[a.len() as int] is Dot);
    }
    if servers.doh.enabled {
        assert(all[(a.len() + b.len()) as int] is Doh);
    }
    if servers.doq.enabled {
        assert(all[(a.len() + b.len() + c.len()) as int] is Doq);
    }
    if servers.doh3.enabled {
        assert(all[(a.len() + b.len() + c.len() + d.len()) as int] is Doh3);
    }
}

/// The place of a listener in the order of the start.
pub open spec fn rank(kind: ServerKind) -> int {
    match kind {
        ServerKind::Healthcheck => 0,
        ServerKind::Dot => 1,
        ServerKind::Doh => 2,
        ServerKind::Doq => 3,
        ServerKind::Doh3 => 4,
    }
}

/// Certificates keep a proxy from being started only where it serves DNS: where there is
/// none, or where one cannot be loaded.
pub proof fn certificates_matter_where_dns_is_served(config: AppConfig, files: StartupFiles)
    ensures
        !config.servers.dot.enabled && !config.servers.doh.enabled && !config.servers.doq.enabled
            && !config.servers.doh3.enabled ==> certificate_fault(config, files) is None,
        (config.servers.dot.enabled || config.servers.doh.enabled || config.servers.doq.enabled
            || config.servers.doh3.enabled) ==> (certificate_fault(config, files) is None <==> {
            &&& config.tls.default is Some || config.tls.certs@.len() > 0
            &&& resolver::load_default(config.tls.default, files.default_files) is Ok
            &&& resolver::load_all(config.tls.certs@, files.files@, files.files@.len()) is Ok
        }),
{
}

/// A shutdown makes the proxy unready, tells the listeners to stop and begins the end of all
/// tasks that were started, with 10 seconds for all of them together.
pub proof fn shutdowns_take_10_seconds_for_all(app: App, after: App, shutdown: Shutdown)
    requires
        app.shuts_down(after, shutdown),
    ensures
        !after.ready && after.cancelled && after.tasks@.len() == 0,
        shutdown.left == app.tasks@.len(),
        shutdown.grace_seconds == 10,
        after.config == app.config && after.rewriter == app.rewriter && after.metrics
            == app.metrics,
{
}

/// With valid settings and a trust store, a start resets what the last one left: the proxy
/// is not ready and nothing has failed. Where the certificates are in order, every enabled
/// listener is to be started, none is bound, and a task for each is added to those that there
/// are; where they are not, nothing is started. Without a trust store nothing changes.
pub proof fn starts_begin_with_every_enabled_listener(
    app: App,
    anchors: Result<Seq<(Seq<u8>, Seq<u8>, Option<Seq<u8>>)>, ErrorView>,
    files: StartupFiles,
    after: App,
    r: DnsProxyResult<Arc<rustls::RootCertStore>>,
)
    requires
        app.starts_on(anchors, files, after, r),
    ensures
        anchors matches Err(fault) ==> after == app && (r matches Err(error) && error@ == fault),
        anchors is Ok ==> !after.ready && !after.failed,
        anchors matches Ok(trusted) ==> certificate_fault(*app.config, files) is None ==> {
            &&& r matches Ok(store) && roots::trust_anchors(*store) == trusted
            &&& after.servers@ == enabled_servers(app.config.servers)
            &&& after.bound == 0
            &&& after.tasks@ == app.tasks@ + enabled_servers(app.config.servers)
        },
        anchors is Ok ==> (certificate_fault(*app.config, files) matches Some(fault) ==> (r matches
            Err(error) && error@ == fault) && after.servers == app.servers && after.tasks
            == app.tasks),
{
}

/// The files of a configuration are there where there is one reading for each certificate.
pub proof fn files_fit_one_for_one(config: AppConfig, files: StartupFiles)
    ensures
        files.fits(config) <==> (files.default_files is Some <==> config.tls.default is Some)
            && files.files@.len() == config.tls.certs@.len(),
{
}

} // verus!
