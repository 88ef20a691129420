//! The clients for upstreams over HTTP/1 and HTTP/2, one for each server name.
use crate::error::DnsProxyResult;
use crate::tls_utils::roots;
use std::sync::Arc;
use vstd::prelude::*;

verus! {

/// How long an idle connection is kept, in seconds.
pub const DEFAULT_KEEPALIVE_SECONDS: u64 = 60;

/// How long a connection may take to open, in seconds.
pub const DEFAULT_CONNECTION_SECONDS: u64 = 10;

/// How many idle connections are kept to a host.
pub const DEFAULT_MAX_IDLE_CONNECTIONS: usize = 10;

/// How many clients are kept.
pub const DEFAULT_MAX_CLIENTS: usize = 256;

/// `DashMap` of the `dashmap` crate.
#[verifier::external_type_specification]
#[verifier::external_body]
#[verifier::reject_recursive_types(K)]
#[verifier::reject_recursive_types(V)]
#[verifier::reject_recursive_types(S)]
pub struct ExDashMap<K, V, S>(dashmap::DashMap<K, V, S>);

/// The numbers of the clients in a map, by server name.
pub uninterp spec fn clients_in(map: dashmap::DashMap<String, u64>) -> Map<Seq<char>, u64>;

/// A map without clients.
pub open spec fn no_clients() -> Map<Seq<char>, u64> {
    Map::empty()
}

/// Calls `DashMap::new` of the `dashmap` crate: a map without entries.
#[verifier::external_body]
fn new_map() -> (r: dashmap::DashMap<String, u64>)
    ensures
        clients_in(r) == no_clients(),
{
    dashmap::DashMap::new()
}

/// Whether a result is what a map has under a key.
pub open spec fn is_found(r: Option<u64>, map: Map<Seq<char>, u64>, key: Seq<char>) -> bool {
    if map.contains_key(key) {
        r == Some(map[key])
    } else {
        r is None
    }
}

/// Calls `DashMap::get` of the `dashmap` crate: the value under a key.
#[verifier::external_body]
fn find_client(map: &dashmap::DashMap<String, u64>, key: &str) -> (r: Option<u64>)
    ensures
        is_found(r, clients_in(*map), key@),
{
    map.get(key).map(|entry| *entry.value())
}

/// Whether a number is that of the entries of a map.
pub open spec fn is_count(r: usize, map: Map<Seq<char>, u64>) -> bool {
    map.dom().finite() && r == map.dom().len()
}

/// Calls `DashMap::len` of the `dashmap` crate: the number of entries, which is finite.
#[verifier::external_body]
fn count_clients(map: &dashmap::DashMap<String, u64>) -> (r: usize)
    ensures
        is_count(r, clients_in(*map)),
{
    map.len()
}

/// Whether a result is some key of a map, or nothing where the map is empty.
pub open spec fn is_some_key(r: Option<String>, map: Map<Seq<char>, u64>) -> bool {
    match r {
        Some(key) => map.contains_key(key@),
        None => map.dom() == Set::<Seq<char>>::empty(),
    }
}

/// Calls `DashMap::iter` of the `dashmap` crate and takes the key of the first entry.
/// Which one that is is left open: it depends on the hasher of the process.
#[verifier::external_body]
fn some_key(map: &dashmap::DashMap<String, u64>) -> (r: Option<String>)
    ensures
        is_some_key(r, clients_in(*map)),
{
    map.iter().next().map(|entry| entry.key().clone())
}

/// Calls `DashMap::remove` of the `dashmap` crate: the key and its value are gone.
#[verifier::external_body]
fn remove_client(map: &mut dashmap::DashMap<String, u64>, key: &str)
    ensures
        clients_in(*final(map)) == clients_in(*old(map)).remove(key@),
{
    map.remove(key);
}

/// Calls `DashMap::entry` of the `dashmap` crate, and `or_insert` on what it returns: a
/// key that is not there gets the value, one that is there keeps its own.
#[verifier::external_body]
fn insert_client(map: &mut dashmap::DashMap<String, u64>, key: &str, value: u64)
    ensures
        clients_in(*final(map)) == if clients_in(*old(map)).contains_key(key@) {
            clients_in(*old(map))
        } else {
            clients_in(*old(map)).insert(key@, value)
        },
{
    map.entry(key.to_string()).or_insert(value);
}

/// A client of the pool.
#[derive(Debug, Clone, Copy, PartialEq, Eq, Structural)]
pub struct PooledClient {
    /// The number of the client.
    pub id: u64,
    /// Whether the client is still to be created.
    pub is_new: bool,
    /// The number of a client that had to leave.
    pub evicted: Option<u64>,
}

/// The clients, by the server names for which they are.
pub struct ConnectionPool {
    clients: dashmap::DashMap<String, u64>,
    issued: u64,
    keepalive_seconds: u64,
    connection_seconds: u64,
    max_idle_connections: usize,
    max_clients: usize,
    root_store: Arc<rustls::RootCertStore>,
}

/// Whether one client had to leave for a new one: any, where there are too many.
pub open spec fn makes_room(
    before: Map<Seq<char>, u64>,
    max_clients: nat,
    after: Map<Seq<char>, u64>,
    evicted: Option<u64>,
) -> bool {
    if before.dom().len() >= max_clients && before.dom() != Set::<Seq<char>>::empty() {
        exists|key: Seq<char>| #[trigger]
            before.contains_key(key) && after == before.remove(key) && evicted == Some(before[key])
    } else {
        after == before && evicted is None
    }
}

impl ConnectionPool {
    /// The numbers of the clients, by server name.
    pub closed spec fn clients(&self) -> Map<Seq<char>, u64> {
        clients_in(self.clients)
    }

    /// The number of clients that have been created.
    pub closed spec fn issued(&self) -> u64 {
        self.issued
    }

    /// The number of clients that may be kept.
    pub closed spec fn max_clients(&self) -> usize {
        self.max_clients
    }

    /// How long idle connections are kept, and how long connections may take to open.
    pub closed spec fn seconds(&self) -> (u64, u64) {
        (self.keepalive_seconds, self.connection_seconds)
    }

    /// How many idle connections are kept to a host.
    pub closed spec fn max_idle(&self) -> usize {
        self.max_idle_connections
    }

    /// The authorities that upstream certificates may come from.
    pub closed spec fn trust(&self) -> Arc<rustls::RootCertStore> {
        self.root_store
    }

    /// What holds at all times: names that clients choose do not make the pool grow
    /// beyond its bound (which leaves room for one client in any case), and numbers are
    /// not used again.
    pub open spec fn inv(&self) -> bool {
        &&& self.clients().dom().finite()
        &&& self.clients().dom().len() <= self.max_clients() || self.clients().dom().len() <= 1
        &&& forall|name: Seq<char>| #[trigger]
            self.clients().contains_key(name) ==> self.clients()[name] < self.issued()
    }

    /// Whether the settings are the same as those of another pool.
    pub open spec fn has_settings_of(&self, other: ConnectionPool) -> bool {
        &&& self.max_clients() == other.max_clients()
        &&& self.seconds() == other.seconds()
        &&& self.max_idle() == other.max_idle()
        &&& self.trust() == other.trust()
    }

    /// An empty pool with the default settings.
    pub fn new(root_store: Arc<rustls::RootCertStore>) -> (r: Self)
        ensures
            r.is_fresh(DEFAULT_MAX_CLIENTS),
            r.trust() == root_store,
    {
        ConnectionPool::with_config(
            DEFAULT_KEEPALIVE_SECONDS,
            DEFAULT_CONNECTION_SECONDS,
            DEFAULT_MAX_IDLE_CONNECTIONS,
            root_store,
        )
    }

    /// Whether this is an empty pool for so many clients, with the default settings
    /// otherwise.
    pub open spec fn is_fresh(&self, max_clients: usize) -> bool {
        &&& self.inv()
        &&& self.clients() == no_clients()
        &&& self.issued() == 0
        &&& self.max_clients() == max_clients
        &&& self.seconds() == (DEFAULT_KEEPALIVE_SECONDS, DEFAULT_CONNECTION_SECONDS)
        &&& self.max_idle() == DEFAULT_MAX_IDLE_CONNECTIONS
    }

    /// An empty pool for so many clients that trusts the public authorities and those of
    /// the platform, whose certificates are `native`.
    pub fn with_max_clients(max_clients: usize, native: &Vec<Vec<u8>>) -> (r: DnsProxyResult<Self>)
        ensures
            match r {
                Ok(pool) => pool.is_fresh(max_clients) && roots::is_loaded(
                    Ok(pool.trust()),
                    native@,
                    None,
                ),
                Err(error) => roots::is_loaded(Err(error), native@, None),
            },
    {
        match roots::load_upstream_root_store(native, None) {
            Ok(root_store) => Ok(
                ConnectionPool::with_max_clients_and_root_store(max_clients, root_store),
            ),
            Err(error) => Err(error),
        }
    }

    /// An empty pool for so many clients.
    pub fn with_max_clients_and_root_store(
        max_clients: usize,
        root_store: Arc<rustls::RootCertStore>,
    ) -> (r: Self)
        ensures
            r.is_fresh(max_clients),
            r.trust() == root_store,
    {
        let mut pool = ConnectionPool::new(root_store);
        pool.max_clients = max_clients;
        pool
    }

    /// An empty pool with the given settings.
    pub fn with_config(
        keepalive_seconds: u64,
        connection_seconds: u64,
        max_idle_connections: usize,
        root_store: Arc<rustls::RootCertStore>,
    ) -> (r: Self)
        ensures
            r.inv(),
            r.clients() == no_clients(),
            r.issued() == 0,
            r.max_clients() == DEFAULT_MAX_CLIENTS,
            r.seconds() == (keepalive_seconds, connection_seconds),
            r.max_idle() == max_idle_connections,
            r.trust() == root_store,
    {
        let clients = new_map();
        assert(clients_in(clients).dom() == Set::<Seq<char>>::empty());
        ConnectionPool {
            clients,
            issued: 0,
            keepalive_seconds,
            connection_seconds,
            max_idle_connections,
            max_clients: DEFAULT_MAX_CLIENTS,
            root_store,
        }
    }

    /// How long an idle connection is kept, in seconds.
    pub fn keepalive_seconds(&self) -> (r: u64)
        ensures
            r == self.seconds().0,
    {
        self.keepalive_seconds
    }

    /// How long a connection may take to open, in seconds.
    pub fn connection_seconds(&self) -> (r: u64)
        ensures
            r == self.seconds().1,
    {
        self.connection_seconds
    }

    /// How many idle connections are kept to a host.
    pub fn max_idle_connections(&self) -> (r: usize)
        ensures
            r == self.max_idle(),
    {
        self.max_idle_connections
    }

    /// The authorities that upstream certificates may come from.
    pub fn root_store(&self) -> (r: Arc<rustls::RootCertStore>)
        ensures
            r == self.trust(),
    {
        self.root_store.clone()
    }

    /// Whether there are numbers left for another client.
    pub fn can_create(&self) -> (r: bool)
        ensures
            r == (self.issued() < u64::MAX),
    {
        self.issued < u64::MAX
    }

    /// The client for a server name. Where there is none, one is to be created, and
    /// another may have to leave: clients are cheap to create again, while the rewritten
    /// names are up to whoever asks.
    pub fn get_client(&mut self, sni: &str) -> (r: PooledClient)
        requires
            old(self).inv(),
            old(self).issued() < u64::MAX,
        ensures
            final(self).inv(),
            final(self).has_settings_of(*old(self)),
            // The next request for the name gets the same client.
            final(self).clients().contains_key(sni@),
            final(self).clients()[sni@] == r.id,
            ({
                let clients = old(self).clients();
                if clients.contains_key(sni@) {
                    &&& r == (PooledClient { id: clients[sni@], is_new: false, evicted: None })
                    &&& final(self).clients() == clients
                    &&& final(self).issued() == old(self).issued()
                } else {
                    &&& r.id == old(self).issued()
                    &&& r.is_new
                    &&& exists|rest: Map<Seq<char>, u64>| #[trigger]
                        makes_room(clients, old(self).max_clients() as nat, rest, r.evicted)
                            && final(self).clients() == rest.insert(sni@, r.id)
                    &&& final(self).issued() == old(self).issued() + 1
                }
            }),
    {
        let ghost clients = self.clients();
        match find_client(&self.clients, sni) {
            Some(id) => return PooledClient { id, is_new: false, evicted: None },
            None => {},
        }
        let mut evicted: Option<u64> = None;
        if count_clients(&self.clients) >= self.max_clients {
            match some_key(&self.clients) {
                Some(key) => {
                    evicted = find_client(&self.clients, key.as_str());
                    remove_client(&mut self.clients, key.as_str());
                    proof {
                        assert(clients.contains_key(key@));
                        assert(clients_in(self.clients).dom() == clients.dom().remove(key@));
                    }
                },
                None => {},
            }
        }
        let ghost rest = clients_in(self.clients);
        proof {
            assert(makes_room(clients, self.max_clients as nat, rest, evicted));
            assert(rest.insert(sni@, self.issued).dom() == rest.dom().insert(sni@));
        }
        let id: u64 = self.issued;
        insert_client(&mut self.clients, sni, id);
        self.issued = id + 1;
        PooledClient { id, is_new: true, evicted }
    }
}

/// Below its bound no client leaves a pool; at it, just one does, and all others stay as
/// they are.
pub proof fn only_full_pools_lose_a_client(
    before: Map<Seq<char>, u64>,
    max_clients: nat,
    after: Map<Seq<char>, u64>,
    evicted: Option<u64>,
    name: Seq<char>,
)
    requires
        before.dom().finite(),
        makes_room(before, max_clients, after, evicted),
    ensures
        before.dom().len() < max_clients ==> after == before && evicted is None,
        before.dom().len() >= max_clients && before.dom().len() > 0 ==> {
            &&& evicted is Some
            &&& after.dom().len() == before.dom().len() - 1
            &&& exists|gone: Seq<char>|
                before.contains_key(gone) && before[gone] == evicted->0 && after == #[trigger] before.remove(
                    gone,
                )
        },
        after.contains_key(name) ==> before.contains_key(name) && after[name] == before[name],
{
    if before.dom().len() >= max_clients && before.dom().len() > 0 {
        if before.dom() == Set::<Seq<char>>::empty() {
            assert(before.dom().len() == 0);
        }
        let gone = choose|key: Seq<char>| #[trigger]
            before.contains_key(key) && after == before.remove(key) && evicted == Some(before[key]);
        assert(after.dom() == before.dom().remove(gone));
    }
}

/// A fresh pool has no clients and keeps idle connections for 60 seconds, waits 10 seconds
/// for one to open and keeps 10 idle ones to a host.
pub proof fn fresh_pools_have_these_settings(pool: ConnectionPool, max_clients: usize)
    requires
        pool.is_fresh(max_clients),
    ensures
        pool.clients().dom() == Set::<Seq<char>>::empty(),
        pool.max_clients() == max_clients,
        pool.seconds() == (60u64, 10u64),
        pool.max_idle() == 10,
{
}

/// A pool never has more clients than its bound, but for one that there is always room for.
pub proof fn pools_stay_within_their_bound(pool: ConnectionPool, name: Seq<char>)
    requires
        pool.inv(),
        pool.max_clients() >= 1,
    ensures
        pool.clients().dom().len() <= pool.max_clients(),
        pool.clients().contains_key(name) ==> pool.clients()[name] < pool.issued(),
{
}

/// Pools have the same settings where bound, times, idle connections and trust are the same.
pub proof fn settings_are_these(a: ConnectionPool, b: ConnectionPool)
    ensures
        a.has_settings_of(b) <==> a.max_clients() == b.max_clients() && a.seconds() == b.seconds()
            && a.max_idle() == b.max_idle() && a.trust() == b.trust(),
{
}

} // verus!
