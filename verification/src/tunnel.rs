//! The tunnel: the configuration and the two public listeners.

use vstd::prelude::*;
use crate::config::Config;
use crate::listener::{HttpServer, TcpServer};

verus! {

/// The whole server, before it is started: its configuration and the
/// binding tables of the TCP and the HTTP listener.
#[verifier::reject_recursive_types(E)]
pub struct Tunnel<E> {
    cfg: Config,
    tcp_server: TcpServer<E>,
    http_server: HttpServer<E>,
}

impl<E> Tunnel<E> {
    /// The configuration of the tunnel.
    pub closed spec fn config(&self) -> Config {
        self.cfg
    }

    /// The TCP listener of the tunnel.
    pub closed spec fn tcp(&self) -> TcpServer<E> {
        self.tcp_server
    }

    /// The HTTP listener of the tunnel.
    pub closed spec fn http(&self) -> HttpServer<E> {
        self.http_server
    }

    /// A tunnel for `cfg` whose listeners have nothing bound. The HTTP
    /// listener gets the HTTP options of `cfg`.
    pub fn new(cfg: Config) -> (t: Tunnel<E>)
        ensures
            t.config() == cfg,
            t.tcp().bindings() == Map::<Seq<char>, E>::empty(),
            t.http().bindings() == Map::<Seq<char>, E>::empty(),
            t.http().config().bind_addr@ == cfg.http.bind_addr@,
            t.http().config().default_domain@ == cfg.http.default_domain@,
    {
        let http_cfg = cfg.http.clone();
        Tunnel { cfg, tcp_server: TcpServer::new(), http_server: HttpServer::new(http_cfg) }
    }

    /// The configuration of the tunnel.
    pub fn cfg(&self) -> (cfg: &Config)
        ensures
            *cfg == self.config(),
    {
        &self.cfg
    }

    /// Takes the tunnel apart, for the tasks that run its parts: the
    /// configuration, the TCP listener and the HTTP listener.
    pub fn into_parts(self) -> (parts: (Config, TcpServer<E>, HttpServer<E>))
        ensures
            parts.0 == self.config(),
            parts.1 == self.tcp(),
            parts.2 == self.http(),
    {
        (self.cfg, self.tcp_server, self.http_server)
    }
}

} // verus!
