//! The binding tables of the two public listeners.
//!
//! The control plane tells a listener of an entrypoint by a payload: the key
//! of the entrypoint and the channel on which the listener is to announce
//! the connections that reach it. A payload whose channel is already closed
//! tells the listener to unbind the entrypoint.

use vstd::prelude::*;
use vstd::hash_map::StringHashMap;
use crate::config::HttpConfig;
use crate::entrypoint::{host_key, make_host_key, parse_tcp_key, tcp_key_port};

verus! {

/// A registration message from the control plane to a public listener.
#[derive(Debug)]
pub struct Payload<E> {
    /// The channel on which connections are announced.
    pub tx: E,
    /// The key of the entrypoint.
    pub entrypoint: String,
}

/// What a payload did to the bindings of the HTTP listener.
#[derive(Clone, Copy, Debug, PartialEq, Eq, Structural)]
pub enum BindingChange {
    /// The entrypoint is bound to the channel of the payload.
    Bound,
    /// The entrypoint was bound and is bound no longer.
    Unbound,
    /// Nothing changed.
    Unchanged,
}

/// What a payload did to the bindings of the TCP listener.
#[derive(Clone, Copy, Debug, PartialEq, Eq, Structural)]
pub enum TcpChange {
    /// The entrypoint is bound; connections are to be accepted on this port.
    Open(u16),
    /// The entrypoint was bound and is bound no longer; accepting stops.
    Shut,
    /// Nothing changed.
    Unchanged,
}

/// The bindings of the HTTP listener after a payload for `entrypoint` with
/// the channel `tx`; `closed` tells whether that channel is closed.
pub open spec fn http_bindings_after<E>(
    bindings: Map<Seq<char>, E>,
    entrypoint: Seq<char>,
    tx: E,
    closed: bool,
) -> Map<Seq<char>, E> {
    if closed {
        bindings.remove(entrypoint)
    } else {
        bindings.insert(entrypoint, tx)
    }
}

/// What such a payload does to the bindings of the HTTP listener.
pub open spec fn http_change<E>(
    bindings: Map<Seq<char>, E>,
    entrypoint: Seq<char>,
    closed: bool,
) -> BindingChange {
    if !closed {
        BindingChange::Bound
    } else if bindings.contains_key(entrypoint) {
        BindingChange::Unbound
    } else {
        BindingChange::Unchanged
    }
}

/// What a payload does to the bindings of the TCP listener. An entrypoint
/// whose key names no port cannot be bound.
pub open spec fn tcp_change<E>(
    bindings: Map<Seq<char>, E>,
    entrypoint: Seq<char>,
    closed: bool,
) -> TcpChange {
    if !closed {
        match tcp_key_port(entrypoint) {
            Some(port) => TcpChange::Open(port),
            None => TcpChange::Unchanged,
        }
    } else if bindings.contains_key(entrypoint) {
        TcpChange::Shut
    } else {
        TcpChange::Unchanged
    }
}

/// The bindings of the TCP listener after a payload.
pub open spec fn tcp_bindings_after<E>(
    bindings: Map<Seq<char>, E>,
    entrypoint: Seq<char>,
    tx: E,
    closed: bool,
) -> Map<Seq<char>, E> {
    if closed {
        bindings.remove(entrypoint)
    } else if tcp_key_port(entrypoint) is Some {
        bindings.insert(entrypoint, tx)
    } else {
        bindings
    }
}

/// The public HTTP listener: which channel each bound entrypoint announces
/// its connections on.
#[verifier::reject_recursive_types(E)]
pub struct HttpServer<E> {
    cfg: HttpConfig,
    routes: StringHashMap<E>,
}

impl<E> HttpServer<E> {
    /// The options of the listener.
    pub closed spec fn config(&self) -> HttpConfig {
        self.cfg
    }

    /// The channel of each bound entrypoint, by the key of the entrypoint.
    pub closed spec fn bindings(&self) -> Map<Seq<char>, E> {
        self.routes@
    }

    /// A listener with no entrypoint bound.
    pub fn new(cfg: HttpConfig) -> (s: HttpServer<E>)
        ensures
            s.config() == cfg,
            s.bindings() == Map::<Seq<char>, E>::empty(),
    {
        HttpServer { cfg, routes: StringHashMap::new() }
    }

    /// The options of the listener.
    pub fn cfg(&self) -> (cfg: &HttpConfig)
        ensures
            *cfg == self.config(),
    {
        &self.cfg
    }

    /// Takes a payload; `closed` tells whether its channel is closed. An
    /// open channel binds the entrypoint to it, in place of an earlier
    /// binding; a closed one unbinds the entrypoint.
    pub fn event_handler(&mut self, payload: Payload<E>, closed: bool) -> (r: BindingChange)
        ensures
            final(self).config() == old(self).config(),
            r == http_change(old(self).bindings(), payload.entrypoint@, closed),
            final(self).bindings() == http_bindings_after(
                old(self).bindings(),
                payload.entrypoint@,
                payload.tx,
                closed,
            ),
    {
        let Payload { tx, entrypoint } = payload;
        if closed {
            if self.routes.contains_key(entrypoint.as_str()) {
                self.routes.remove(entrypoint.as_str());
                BindingChange::Unbound
            } else {
                assert(self.routes@.remove(entrypoint@) =~= self.routes@);
                BindingChange::Unchanged
            }
        } else {
            self.routes.insert(entrypoint, tx);
            BindingChange::Bound
        }
    }

    /// The channel on which a request for `host` is announced: that of the
    /// entrypoint whose key is `http://` and the host, in lowercase.
    pub fn route(&self, host: &str) -> (r: Option<&E>)
        ensures
            match r {
                Some(tx) => self.bindings().contains_key(host_key(host@)) && *tx
                    == self.bindings()[host_key(host@)],
                None => !self.bindings().contains_key(host_key(host@)),
            },
    {
        let key = make_host_key(host);
        self.routes.get(key.as_str())
    }
}

/// The public TCP listener: which channel each bound entrypoint announces
/// its connections on.
#[verifier::reject_recursive_types(E)]
pub struct TcpServer<E> {
    listeners: StringHashMap<E>,
}

impl<E> TcpServer<E> {
    /// The channel of each bound entrypoint, by the key of the entrypoint.
    pub closed spec fn bindings(&self) -> Map<Seq<char>, E> {
        self.listeners@
    }

    /// A listener with no entrypoint bound.
    pub fn new() -> (s: TcpServer<E>)
        ensures
            s.bindings() == Map::<Seq<char>, E>::empty(),
    {
        TcpServer { listeners: StringHashMap::new() }
    }

    /// Takes a payload; `closed` tells whether its channel is closed. An
    /// open channel binds the entrypoint to it and names the port to accept
    /// on; a closed one unbinds the entrypoint, which stops accepting.
    pub fn event_handler(&mut self, payload: Payload<E>, closed: bool) -> (r: TcpChange)
        ensures
            r == tcp_change(old(self).bindings(), payload.entrypoint@, closed),
            final(self).bindings() == tcp_bindings_after(
                old(self).bindings(),
                payload.entrypoint@,
                payload.tx,
                closed,
            ),
    {
        let Payload { tx, entrypoint } = payload;
        if closed {
            if self.listeners.contains_key(entrypoint.as_str()) {
                self.listeners.remove(entrypoint.as_str());
                TcpChange::Shut
            } else {
                assert(self.listeners@.remove(entrypoint@) =~= self.listeners@);
                TcpChange::Unchanged
            }
        } else {
            match parse_tcp_key(entrypoint.as_str()) {
                Some(port) => {
                    self.listeners.insert(entrypoint, tx);
                    TcpChange::Open(port)
                },
                None => TcpChange::Unchanged,
            }
        }
    }

    /// The channel on which the connections accepted for `entrypoint` are
    /// announced; `None` once the entrypoint is unbound.
    pub fn channel(&self, entrypoint: &str) -> (r: Option<&E>)
        ensures
            match r {
                Some(tx) => self.bindings().contains_key(entrypoint@) && *tx
                    == self.bindings()[entrypoint@],
                None => !self.bindings().contains_key(entrypoint@),
            },
    {
        self.listeners.get(entrypoint)
    }
}

} // verus!
