//! The listen protocol: a client asks for an entrypoint, is told its key,
//! and is then told of each connection that reaches it, until the stream
//! ends and the entrypoint is given up.

use vstd::prelude::*;
use vstd::string::StringExecFns;
use crate::api::{
    coming_notification,
    protocol_of,
    ready_notification,
    ListenNotification,
    ListenParam,
    Protocol,
    SUBDOMAIN_LEN,
};
use crate::config::Config;
use crate::connection::Connection;
use crate::error::{ErrorKind, TunnelError, TunnelErrorView};
use crate::server::{
    entrypoint_result,
    law_allocated_key_was_free,
    live_after,
    subdomain_serves,
    RSLServer,
};

verus! {

/// A listen stream as the server keeps track of it: the key of its
/// entrypoint and whether the stream still owns it.
pub struct StreamView {
    pub key: Seq<char>,
    pub open: bool,
}

/// One listen stream: the entrypoint it owns and whether it still owns it.
#[derive(Debug)]
pub struct ListenSession {
    entrypoint: String,
    protocol: Protocol,
    open: bool,
}

impl View for ListenSession {
    type V = StreamView;

    closed spec fn view(&self) -> StreamView {
        StreamView { key: self.entrypoint@, open: self.open }
    }
}

impl ListenSession {
    /// The key of the entrypoint of the stream.
    pub open spec fn key(&self) -> Seq<char> {
        self@.key
    }

    /// The protocol of the entrypoint of the stream.
    pub closed spec fn served(&self) -> Protocol {
        self.protocol
    }

    /// Whether the stream still owns its entrypoint.
    pub open spec fn is_open(&self) -> bool {
        self@.open
    }

    /// The key of the entrypoint of the stream.
    pub fn entrypoint(&self) -> (key: &String)
        ensures
            key@ == self.key(),
    {
        &self.entrypoint
    }

    /// The protocol of the entrypoint of the stream.
    pub fn protocol(&self) -> (p: Protocol)
        ensures
            p == self.served(),
    {
        self.protocol
    }

    /// Whether the stream still owns its entrypoint.
    pub fn open(&self) -> (r: bool)
        ensures
            r == self.is_open(),
    {
        self.open
    }
}

/// Whether `r` is the answer to a listen request whose allocation ended as
/// `outcome`: on success an open stream that owns the key and the `ready`
/// notification that carries it, else the error.
pub open spec fn listen_answers(
    r: Result<(ListenSession, ListenNotification), TunnelError>,
    outcome: Result<Seq<char>, TunnelErrorView>,
    protocol: i32,
) -> bool {
    match outcome {
        Ok(key) => {
            &&& r matches Ok((session, ready))
            &&& session.key() == key
            &&& session.is_open()
            &&& protocol_of(protocol) == Some(session.served())
            &&& ready@ == ready_notification(key)
        },
        Err(e) => r matches Err(err) && err@ == e,
    }
}

/// Whether every open stream of `streams` owns a live key that no other
/// open stream owns.
pub open spec fn one_owner_per_key(live: Set<Seq<char>>, streams: Seq<StreamView>) -> bool {
    &&& forall|i: int|
        0 <= i < streams.len() && streams[i].open ==> live.contains(#[trigger] streams[i].key)
    &&& forall|i: int, j: int|
        0 <= i < j < streams.len() && streams[i].open && streams[j].open ==> (
        #[trigger] streams[i]).key != (#[trigger] streams[j]).key
}

/// Opening a stream keeps one owner per key.
///
/// If no two open streams own the same key, then after a listen request,
/// whatever it asks for and however it ends, still no two open streams own
/// the same key: a request that succeeds gets a key that was not live.
pub proof fn law_listen_keeps_one_owner(
    live: Set<Seq<char>>,
    streams: Seq<StreamView>,
    cfg: Config,
    protocol: i32,
    subdomain: Seq<char>,
)
    requires
        one_owner_per_key(live, streams),
    ensures
        match entrypoint_result(live, cfg, protocol, subdomain) {
            Ok(key) => one_owner_per_key(
                live_after(live, Ok(key)),
                streams.push(StreamView { key, open: true }),
            ),
            Err(e) => live_after(live, Err(e)) == live,
        },
{
    law_allocated_key_was_free(live, cfg, protocol, subdomain);
}

/// Closing a stream keeps one owner per key.
///
/// If no two open streams own the same key, then after the stream `i` is
/// closed, which releases its key if the stream was still open and does
/// nothing otherwise, still no two open streams own the same key, and the
/// keys of the other open streams are still live.
pub proof fn law_close_keeps_one_owner(live: Set<Seq<char>>, streams: Seq<StreamView>, i: int)
    requires
        one_owner_per_key(live, streams),
        0 <= i < streams.len(),
    ensures
        one_owner_per_key(
            if streams[i].open {
                live.remove(streams[i].key)
            } else {
                live
            },
            streams.update(i, StreamView { key: streams[i].key, open: false }),
        ),
        streams[i].open ==> !live.remove(streams[i].key).contains(streams[i].key),
{
    let after = streams.update(i, StreamView { key: streams[i].key, open: false });
    assert forall|a: int| 0 <= a < after.len() && after[a].open implies (if streams[i].open {
        live.remove(streams[i].key)
    } else {
        live
    }).contains(#[trigger] after[a].key) by {
        assert(after[a] == streams[a]);
        if streams[i].open {
            if a < i {
                assert(streams[a].key != streams[i].key);
            } else {
                assert(streams[i].key != streams[a].key);
            }
        }
    }
    assert forall|a: int, b: int|
        0 <= a < b < after.len() && after[a].open && after[b].open implies (
    #[trigger] after[a]).key != (#[trigger] after[b]).key by {
        assert(after[a] == streams[a]);
        assert(after[b] == streams[b]);
    }
}

impl<E, T> RSLServer<E, T> {
    /// Opens a listen stream: allocates the entrypoint that `lp` asks for,
    /// makes its key live and answers with the stream and its first frame,
    /// the `ready` notification that carries the key.
    pub fn listen(&mut self, lp: &ListenParam) -> (r: Result<
        (ListenSession, ListenNotification),
        TunnelError,
    >)
        requires
            old(self).wf(),
        ensures
            final(self).wf(),
            final(self).same_but_live(old(self)),
            exists|used: Seq<char>|
                {
                    let outcome = #[trigger] entrypoint_result(
                        old(self).live(),
                        old(self).config(),
                        lp.protocol,
                        used,
                    );
                    &&& subdomain_serves(lp.subdomain@, used)
                    &&& listen_answers(r, outcome, lp.protocol)
                    &&& final(self).live() == live_after(old(self).live(), outcome)
                },
    {
        let protocol = match Protocol::from_i32(lp.protocol) {
            Some(protocol) => protocol,
            None => {
                let ghost used = if lp.subdomain@.len() > 0 {
                    lp.subdomain@
                } else {
                    Seq::new(SUBDOMAIN_LEN as nat, |i: int| 'a')
                };
                assert(subdomain_serves(lp.subdomain@, used));
                let r = Err(TunnelError::new(ErrorKind::InvalidArgument, "unknown protocol"));
                assert(listen_answers(
                    r,
                    entrypoint_result(old(self).live(), old(self).config(), lp.protocol, used),
                    lp.protocol,
                ));
                return r;
            },
        };
        match self.build_entrypoint(lp) {
            Ok(entrypoint) => {
                let ready = ListenNotification {
                    action: String::from_str("ready"),
                    message: entrypoint.clone(),
                };
                Ok((ListenSession { entrypoint, protocol, open: true }, ready))
            },
            Err(e) => Err(e),
        }
    }

    /// Takes a connection that reached the entrypoint of `session`. While
    /// the stream is open and the client still reads it, the connection is
    /// filed in the registry and the `coming` notification for it comes back.
    /// Otherwise the connection is dropped and nothing comes back.
    pub fn listen_accept(
        &mut self,
        session: &ListenSession,
        conn: Connection<T>,
        downstream_closed: bool,
    ) -> (r: Option<ListenNotification>)
        requires
            old(self).wf(),
        ensures
            final(self).wf(),
            final(self).same_but_connections(old(self)),
            if session.is_open() && !downstream_closed {
                &&& r matches Some(n)
                &&& n@ == coming_notification(conn.id@)
                &&& final(self).connections() == old(self).connections().insert(conn.id@, conn)
            } else {
                &&& r is None
                &&& final(self).connections() == old(self).connections()
            },
    {
        if !session.open || downstream_closed {
            return None;
        }
        let coming = ListenNotification {
            action: String::from_str("coming"),
            message: conn.id.clone(),
        };
        self.register_connection(conn);
        Some(coming)
    }

    /// Ends a listen stream, once the client no longer reads it. The first
    /// call gives the entrypoint up and returns its key, for which the
    /// listener is to be told to unbind; later calls do nothing.
    pub fn listen_close(&mut self, session: &mut ListenSession) -> (r: Option<String>)
        requires
            old(self).wf(),
        ensures
            final(self).wf(),
            final(self).same_but_live(old(self)),
            final(session).key() == old(session).key(),
            final(session).served() == old(session).served(),
            !final(session).is_open(),
            if old(session).is_open() {
                &&& r matches Some(key)
                &&& key@ == old(session).key()
                &&& final(self).live() == old(self).live().remove(old(session).key())
            } else {
                &&& r is None
                &&& final(self).live() == old(self).live()
            },
    {
        if !session.open {
            return None;
        }
        session.open = false;
        self.release_entrypoint(session.entrypoint.as_str());
        Some(session.entrypoint.clone())
    }
}

} // verus!
