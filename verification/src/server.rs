//! The tunnel server: entrypoint allocation and the shared registries.

use vstd::prelude::*;
use dashmap::DashSet;
use crate::api::{protocol_number, protocol_of, ListenParam, Protocol, SUBDOMAIN_LEN};
use crate::config::{parse_port_range, port_range_spec, Config};
use crate::connection::{Connection, ConnectionRegistry};
use crate::entrypoint::{
    http_key,
    lemma_tcp_key_injective,
    live_keys,
    live_set_contains,
    live_set_insert,
    live_set_new,
    live_set_remove,
    make_http_key,
    make_tcp_key,
    tcp_key,
};
use crate::error::{
    error_view,
    msg_bad_port_range,
    msg_no_port,
    msg_subdomain_taken,
    msg_unknown_protocol,
    result_view,
    ErrorKind,
    TunnelError,
    TunnelErrorView,
};
use crate::random::{is_random_id, random_string};

verus! {

/// What asking for the HTTP entrypoint `subdomain` gives while the keys
/// `live` are taken: its key, unless that key is live.
pub open spec fn http_host_result(
    live: Set<Seq<char>>,
    domain: Seq<char>,
    subdomain: Seq<char>,
) -> Result<Seq<char>, TunnelErrorView> {
    let key = http_key(subdomain, domain);
    if live.contains(key) {
        Err(error_view(ErrorKind::AlreadyExists, msg_subdomain_taken()))
    } else {
        Ok(key)
    }
}

/// The lowest port from `min` up to but not including `max` whose key is not
/// in `live`.
pub open spec fn lowest_free_port(live: Set<Seq<char>>, min: u16, max: u16) -> Option<u16>
    decreases max - min,
{
    if min >= max {
        None
    } else if !live.contains(tcp_key(min)) {
        Some(min)
    } else {
        lowest_free_port(live, (min + 1) as u16, max)
    }
}

/// What asking for a TCP entrypoint gives while the keys `live` are taken
/// and the configured range reads `allow_ports`.
pub open spec fn tcp_addr_result(
    live: Set<Seq<char>>,
    allow_ports: Seq<char>,
) -> Result<Seq<char>, TunnelErrorView> {
    match port_range_spec(allow_ports) {
        None => Err(error_view(ErrorKind::Internal, msg_bad_port_range())),
        Some((min, max)) => match lowest_free_port(live, min, max) {
            Some(port) => Ok(tcp_key(port)),
            None => Err(error_view(ErrorKind::Internal, msg_no_port())),
        },
    }
}

/// What asking for an entrypoint of the protocol numbered `protocol` gives,
/// with `subdomain` as the HTTP subdomain.
pub open spec fn entrypoint_result(
    live: Set<Seq<char>>,
    cfg: Config,
    protocol: i32,
    subdomain: Seq<char>,
) -> Result<Seq<char>, TunnelErrorView> {
    match protocol_of(protocol) {
        None => Err(error_view(ErrorKind::InvalidArgument, msg_unknown_protocol())),
        Some(Protocol::Http) => http_host_result(live, cfg.http.default_domain@, subdomain),
        Some(Protocol::Tcp) => tcp_addr_result(live, cfg.core.allow_ports@),
    }
}

/// The live keys after a request that ended as `outcome`.
pub open spec fn live_after(
    live: Set<Seq<char>>,
    outcome: Result<Seq<char>, TunnelErrorView>,
) -> Set<Seq<char>> {
    match outcome {
        Ok(key) => live.insert(key),
        Err(_) => live,
    }
}

/// Whether `used` is a subdomain that may serve a request for `requested`:
/// the requested one, or eight random letters and digits where none was
/// requested.
pub open spec fn subdomain_serves(requested: Seq<char>, used: Seq<char>) -> bool {
    if requested.len() > 0 {
        used == requested
    } else {
        is_random_id(used, SUBDOMAIN_LEN as nat)
    }
}

/// Whether `p` is the lowest port in `[min, max)` whose key is not in `live`.
pub open spec fn is_lowest_free(live: Set<Seq<char>>, min: u16, max: u16, p: u16) -> bool {
    &&& min <= p < max
    &&& !live.contains(tcp_key(p))
    &&& forall|q: u16| min <= q < p ==> live.contains(#[trigger] tcp_key(q))
}

/// The lowest free port is given out.
///
/// A request for a TCP entrypoint is answered with the lowest port of the
/// range whose key is not live, and with none exactly when the key of every
/// port of the range is live.
pub proof fn law_lowest_free_port(live: Set<Seq<char>>, min: u16, max: u16)
    ensures
        match lowest_free_port(live, min, max) {
            Some(p) => is_lowest_free(live, min, max, p),
            None => forall|q: u16| min <= q < max ==> live.contains(#[trigger] tcp_key(q)),
        },
    decreases max - min,
{
    if min < max && live.contains(tcp_key(min)) {
        law_lowest_free_port(live, (min + 1) as u16, max);
    }
}

/// A key that is given out was not live.
///
/// Whatever is asked for, the key of a successful answer is not among the
/// live keys, so no two streams own one key at a time.
pub proof fn law_allocated_key_was_free(
    live: Set<Seq<char>>,
    cfg: Config,
    protocol: i32,
    subdomain: Seq<char>,
)
    ensures
        entrypoint_result(live, cfg, protocol, subdomain) matches Ok(key) ==> !live.contains(key),
{
    match port_range_spec(cfg.core.allow_ports@) {
        Some((min, max)) => {
            law_lowest_free_port(live, min, max);
        },
        None => {},
    }
}

/// While a key is live it is not given out again; once it is released it
/// can be.
///
/// After a successful request, a second request of any kind gets another
/// key or an error. After the key is released the first request succeeds
/// again, with the same key.
pub proof fn law_one_owner_per_key(
    live: Set<Seq<char>>,
    cfg: Config,
    protocol: i32,
    subdomain: Seq<char>,
    protocol2: i32,
    subdomain2: Seq<char>,
)
    requires
        entrypoint_result(live, cfg, protocol, subdomain) is Ok,
    ensures
        ({
            let key = entrypoint_result(live, cfg, protocol, subdomain)->Ok_0;
            let taken = live_after(live, Ok(key));
            &&& taken.contains(key)
            &&& entrypoint_result(taken, cfg, protocol2, subdomain2) != Ok::<
                Seq<char>,
                TunnelErrorView,
            >(key)
            &&& entrypoint_result(taken.remove(key), cfg, protocol, subdomain) == Ok::<
                Seq<char>,
                TunnelErrorView,
            >(key)
        }),
{
    let key = entrypoint_result(live, cfg, protocol, subdomain)->Ok_0;
    let taken = live.insert(key);
    law_allocated_key_was_free(live, cfg, protocol, subdomain);
    law_allocated_key_was_free(taken, cfg, protocol2, subdomain2);
    assert(taken.remove(key) =~= live);
}

/// A named HTTP entrypoint has one key.
///
/// A request for the HTTP entrypoint `subdomain` is answered with the key
/// `http://<subdomain>.<domain>` in lowercase, or refused because that key
/// is live; nothing else can happen.
pub proof fn law_http_entrypoint_is_determined(
    live: Set<Seq<char>>,
    cfg: Config,
    subdomain: Seq<char>,
)
    ensures
        entrypoint_result(live, cfg, protocol_number(Protocol::Http), subdomain) == if live.contains(
            http_key(subdomain, cfg.http.default_domain@),
        ) {
            Err(error_view(ErrorKind::AlreadyExists, msg_subdomain_taken()))
        } else {
            Ok(http_key(subdomain, cfg.http.default_domain@))
        },
{
}

/// The live keys after `n` requests for a TCP entrypoint in a row, each
/// answered from the range that reads `allow_ports`.
pub open spec fn live_after_tcp_requests(
    live: Set<Seq<char>>,
    allow_ports: Seq<char>,
    n: nat,
) -> Set<Seq<char>>
    decreases n,
{
    if n == 0 {
        live
    } else {
        let before = live_after_tcp_requests(live, allow_ports, (n - 1) as nat);
        live_after(before, tcp_addr_result(before, allow_ports))
    }
}

/// The number of ports from `min` up to but not including `max`.
pub open spec fn range_len(min: u16, max: u16) -> nat {
    if max > min {
        (max - min) as nat
    } else {
        0
    }
}

/// After `n` requests in a row on a free range, the first `n` ports of the
/// range are taken and the others are free.
proof fn lemma_tcp_requests_fill(
    live: Set<Seq<char>>,
    allow_ports: Seq<char>,
    min: u16,
    max: u16,
    n: nat,
)
    requires
        port_range_spec(allow_ports) == Some((min, max)),
        forall|q: u16| min <= q < max ==> !live.contains(#[trigger] tcp_key(q)),
    ensures
        forall|q: u16|
            min <= q < max ==> (live_after_tcp_requests(live, allow_ports, n).contains(
                #[trigger] tcp_key(q),
            ) <==> q - min < n),
    decreases n,
{
    if n > 0 {
        let before = live_after_tcp_requests(live, allow_ports, (n - 1) as nat);
        let now = live_after_tcp_requests(live, allow_ports, n);
        lemma_tcp_requests_fill(live, allow_ports, min, max, (n - 1) as nat);
        law_lowest_free_port(before, min, max);
        match lowest_free_port(before, min, max) {
            Some(p) => {
                if p > min {
                    assert(before.contains(tcp_key((p - 1) as u16)));
                }
                assert(p - min == n - 1);
                assert(now == before.insert(tcp_key(p)));
                assert forall|q: u16| min <= q < max implies (now.contains(#[trigger] tcp_key(q))
                    <==> q - min < n) by {
                    if tcp_key(q) == tcp_key(p) {
                        lemma_tcp_key_injective(q, p);
                    }
                }
            },
            None => {
                assert(now == before);
            },
        }
    }
}

/// Ports are given out in ascending order until none is left.
///
/// Starting with every port of the configured range free, the request
/// number `n` in a row (counting from zero) is answered with the port
/// `min + n`, and once the range is used up every request fails because no
/// port is left.
pub proof fn law_tcp_ports_ascend(
    live: Set<Seq<char>>,
    allow_ports: Seq<char>,
    min: u16,
    max: u16,
    n: nat,
)
    requires
        port_range_spec(allow_ports) == Some((min, max)),
        forall|q: u16| min <= q < max ==> !live.contains(#[trigger] tcp_key(q)),
    ensures
        tcp_addr_result(live_after_tcp_requests(live, allow_ports, n), allow_ports) == if n
            < range_len(min, max) {
            Ok(tcp_key((min + n) as u16))
        } else {
            Err(error_view(ErrorKind::Internal, msg_no_port()))
        },
{
    let now = live_after_tcp_requests(live, allow_ports, n);
    lemma_tcp_requests_fill(live, allow_ports, min, max, n);
    law_lowest_free_port(now, min, max);
    match lowest_free_port(now, min, max) {
        Some(p) => {
            if p > min {
                assert(now.contains(tcp_key((p - 1) as u16)));
            }
            assert(p - min == n);
        },
        None => {
            if max > min {
                assert(now.contains(tcp_key((max - 1) as u16)));
            }
        },
    }
}

/// The tunnel server: its configuration, the channels to the two public
/// listeners, the connections in flight and the live entrypoint keys.
///
/// `E` is the capability to reach a public listener, `T` the capability to
/// reach the owner of a connection's socket.
#[verifier::reject_recursive_types(E)]
#[verifier::reject_recursive_types(T)]
pub struct RSLServer<E, T> {
    cfg: Config,
    tx_tcp: E,
    tx_http: E,
    conns: ConnectionRegistry<T>,
    entrypoints: DashSet<String>,
}

impl<E, T> RSLServer<E, T> {
    /// The configuration of the server.
    pub closed spec fn config(&self) -> Config {
        self.cfg
    }

    /// The channel to the TCP listener.
    pub closed spec fn tcp_channel(&self) -> E {
        self.tx_tcp
    }

    /// The channel to the HTTP listener.
    pub closed spec fn http_channel(&self) -> E {
        self.tx_http
    }

    /// The keys of the entrypoints that are live.
    pub closed spec fn live(&self) -> Set<Seq<char>> {
        live_keys(self.entrypoints)
    }

    /// The connections in flight, by id.
    pub closed spec fn connections(&self) -> Map<Seq<char>, Connection<T>> {
        self.conns@
    }

    /// The registries of the server are well formed.
    pub closed spec fn wf(&self) -> bool {
        self.conns.wf()
    }

    /// Whether `self` differs from `before` in its connections at most.
    pub open spec fn same_but_connections(&self, before: &Self) -> bool {
        &&& self.config() == before.config()
        &&& self.tcp_channel() == before.tcp_channel()
        &&& self.http_channel() == before.http_channel()
        &&& self.live() == before.live()
    }

    /// Whether `self` differs from `before` in its live keys at most.
    pub open spec fn same_but_live(&self, before: &Self) -> bool {
        &&& self.config() == before.config()
        &&& self.tcp_channel() == before.tcp_channel()
        &&& self.http_channel() == before.http_channel()
        &&& self.connections() == before.connections()
    }

    /// Connection ids are unique.
    ///
    /// Each connection in flight is filed under its own id, so no two
    /// connections in flight have the same id.
    pub proof fn law_connection_ids_unique(&self, a: Seq<char>, b: Seq<char>)
        requires
            self.wf(),
            self.connections().contains_key(a),
            self.connections().contains_key(b),
            self.connections()[a].id@ == self.connections()[b].id@,
        ensures
            a == b,
            self.connections()[a].id@ == a,
    {
        self.conns.lemma_ids_unique(a, b);
    }

    /// A server with no live entrypoint and no connection in flight.
    pub fn new(cfg: Config, tx_tcp: E, tx_http: E) -> (s: RSLServer<E, T>)
        ensures
            s.wf(),
            s.config() == cfg,
            s.tcp_channel() == tx_tcp,
            s.http_channel() == tx_http,
            s.live() == Set::<Seq<char>>::empty(),
            s.connections() == Map::<Seq<char>, Connection<T>>::empty(),
    {
        RSLServer {
            cfg,
            tx_tcp,
            tx_http,
            conns: ConnectionRegistry::new(),
            entrypoints: live_set_new(),
        }
    }

    /// The key of the HTTP entrypoint for `subdomain`, unless it is live.
    pub fn build_http_host(&self, subdomain: &str) -> (r: Result<String, TunnelError>)
        ensures
            result_view(r) == http_host_result(
                self.live(),
                self.config().http.default_domain@,
                subdomain@,
            ),
    {
        let key = make_http_key(subdomain, self.cfg.http.default_domain.as_str());
        if live_set_contains(&self.entrypoints, key.as_str()) {
            return Err(TunnelError::new(ErrorKind::AlreadyExists, "subdomain already exist"));
        }
        Ok(key)
    }

    /// The key of the lowest port of the configured range that is not live.
    pub fn build_tcp_addr(&self) -> (r: Result<String, TunnelError>)
        ensures
            result_view(r) == tcp_addr_result(self.live(), self.config().core.allow_ports@),
    {
        let (min, max) = match parse_port_range(self.cfg.core.allow_ports.as_str()) {
            Some(range) => range,
            None => {
                return Err(TunnelError::new(ErrorKind::Internal, "invalid port range"));
            },
        };
        let mut port: u16 = min;
        while port < max
            invariant
                min <= port,
                min < max ==> port <= max,
                port_range_spec(self.config().core.allow_ports@) == Some((min, max)),
                lowest_free_port(self.live(), min, max) == lowest_free_port(
                    self.live(),
                    port,
                    max,
                ),
            decreases max - port,
        {
            let key = make_tcp_key(port);
            if !live_set_contains(&self.entrypoints, key.as_str()) {
                return Ok(key);
            }
            port = port + 1;
        }
        Err(TunnelError::new(ErrorKind::Internal, "none valid tcp port"))
    }

    /// Allocates an entrypoint of the protocol numbered `protocol`, with
    /// `subdomain` as the HTTP subdomain, and makes its key live.
    pub fn build_entrypoint_with(&mut self, protocol: i32, subdomain: &str) -> (r: Result<
        String,
        TunnelError,
    >)
        requires
            old(self).wf(),
        ensures
            final(self).wf(),
            result_view(r) == entrypoint_result(
                old(self).live(),
                old(self).config(),
                protocol,
                subdomain@,
            ),
            final(self).live() == live_after(old(self).live(), result_view(r)),
            final(self).same_but_live(old(self)),
    {
        let built = match Protocol::from_i32(protocol) {
            None => Err(TunnelError::new(ErrorKind::InvalidArgument, "unknown protocol")),
            Some(Protocol::Http) => self.build_http_host(subdomain),
            Some(Protocol::Tcp) => self.build_tcp_addr(),
        };
        match built {
            Ok(key) => {
                let _ = live_set_insert(&mut self.entrypoints, key.clone());
                Ok(key)
            },
            Err(e) => Err(e),
        }
    }

    /// Allocates the entrypoint that `lp` asks for and makes its key live.
    /// An HTTP request without a subdomain gets eight random letters and
    /// digits as its subdomain.
    pub fn build_entrypoint(&mut self, lp: &ListenParam) -> (r: Result<String, TunnelError>)
        requires
            old(self).wf(),
        ensures
            final(self).wf(),
            exists|used: Seq<char>|
                subdomain_serves(lp.subdomain@, used) && result_view(r) == #[trigger] entrypoint_result(
                    old(self).live(),
                    old(self).config(),
                    lp.protocol,
                    used,
                ),
            final(self).live() == live_after(old(self).live(), result_view(r)),
            final(self).same_but_live(old(self)),
    {
        let picks_subdomain = lp.subdomain.as_str().is_empty() && match Protocol::from_i32(
            lp.protocol,
        ) {
            Some(Protocol::Http) => true,
            _ => false,
        };
        if picks_subdomain {
            let picked = random_string(SUBDOMAIN_LEN);
            let r = self.build_entrypoint_with(lp.protocol, picked.as_str());
            assert(subdomain_serves(lp.subdomain@, picked@));
            r
        } else {
            let r = self.build_entrypoint_with(lp.protocol, lp.subdomain.as_str());
            proof {
                let used = if lp.subdomain@.len() > 0 {
                    lp.subdomain@
                } else {
                    Seq::new(SUBDOMAIN_LEN as nat, |i: int| 'a')
                };
                assert(subdomain_serves(lp.subdomain@, used));
                assert(result_view(r) == entrypoint_result(
                    old(self).live(),
                    old(self).config(),
                    lp.protocol,
                    used,
                ));
            }
            r
        }
    }

    /// Gives the entrypoint `key` up: it is no longer live.
    pub fn release_entrypoint(&mut self, key: &str)
        requires
            old(self).wf(),
        ensures
            final(self).wf(),
            final(self).live() == old(self).live().remove(key@),
            final(self).same_but_live(old(self)),
    {
        live_set_remove(&mut self.entrypoints, key);
    }

    /// The channel to the listener that serves `protocol`.
    pub fn select_protocol_tx(&self, protocol: Protocol) -> (tx: &E)
        ensures
            *tx == match protocol {
                Protocol::Http => self.http_channel(),
                Protocol::Tcp => self.tcp_channel(),
            },
    {
        match protocol {
            Protocol::Http => &self.tx_http,
            Protocol::Tcp => &self.tx_tcp,
        }
    }

    /// Files `conn` under its id, in place of a connection that had that id.
    pub fn register_connection(&mut self, conn: Connection<T>)
        requires
            old(self).wf(),
        ensures
            final(self).wf(),
            final(self).connections() == old(self).connections().insert(conn.id@, conn),
            final(self).same_but_connections(old(self)),
    {
        self.conns.insert(conn);
    }

    /// Takes the connection with this id out of the registry.
    pub fn take_connection(&mut self, conn_id: &String) -> (r: Option<Connection<T>>)
        requires
            old(self).wf(),
        ensures
            final(self).wf(),
            final(self).connections() == old(self).connections().remove(conn_id@),
            final(self).same_but_connections(old(self)),
            r == if old(self).connections().contains_key(conn_id@) {
                Some(old(self).connections()[conn_id@])
            } else {
                None
            },
            r matches Some(c) ==> c.id@ == conn_id@,
    {
        self.conns.remove(conn_id)
    }

    /// Whether a connection with this id is in flight.
    pub fn has_connection(&self, conn_id: &String) -> (r: bool)
        requires
            self.wf(),
        ensures
            r == self.connections().contains_key(conn_id@),
    {
        self.conns.contains(conn_id)
    }

    /// The connection with this id, if it is in flight.
    pub fn connection(&self, conn_id: &String) -> (r: Option<&Connection<T>>)
        requires
            self.wf(),
        ensures
            match r {
                Some(c) => self.connections().contains_key(conn_id@) && *c
                    == self.connections()[conn_id@] && c.id@ == conn_id@,
                None => !self.connections().contains_key(conn_id@),
            },
    {
        self.conns.get(conn_id)
    }
}

} // verus!
