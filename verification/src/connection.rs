//! External connections in flight, and what is delivered to them.

use vstd::prelude::*;
use crate::api::eof_marker;
use crate::table::Table;

verus! {

/// One external connection: its id and the capability to reach the task
/// that owns its socket. The control plane never looks inside `tx`.
#[derive(Debug)]
pub struct Connection<T> {
    pub id: String,
    pub tx: T,
}

/// A message to the task that owns the socket of a connection.
#[derive(Debug)]
pub enum XData<S> {
    /// From now on, send the request bytes read from the socket into this sink.
    TX(S),
    /// Response bytes for the socket; the three bytes `EOF` close it.
    Data(Vec<u8>),
}

/// What the owner of a socket does with one message.
#[derive(Debug)]
pub enum SocketOp<S> {
    /// Take `S` as the sink for request bytes.
    Install(S),
    /// Write these bytes to the socket.
    Write(Vec<u8>),
    /// Close the socket.
    Close,
}

/// What the owner of a socket does, by the bytes involved.
pub enum SocketOpView {
    Install,
    Write(Seq<u8>),
    Close,
}

/// What the owner of a socket does with response bytes: the marker closes
/// the socket, other bytes are written.
pub open spec fn data_op(bytes: Seq<u8>) -> SocketOpView {
    if bytes == eof_marker() {
        SocketOpView::Close
    } else {
        SocketOpView::Write(bytes)
    }
}

impl<S> View for SocketOp<S> {
    type V = SocketOpView;

    open spec fn view(&self) -> SocketOpView {
        match self {
            SocketOp::Install(_) => SocketOpView::Install,
            SocketOp::Write(bytes) => SocketOpView::Write(bytes@),
            SocketOp::Close => SocketOpView::Close,
        }
    }
}

/// Whether `bytes` is the marker that closes a response.
pub fn is_eof(bytes: &Vec<u8>) -> (r: bool)
    ensures
        r == (bytes@ == eof_marker()),
{
    let r = bytes.len() == 3 && bytes[0] == 0x45 && bytes[1] == 0x4f && bytes[2] == 0x46;
    proof {
        if r {
            assert(bytes@ =~= eof_marker());
        }
    }
    r
}

/// The marker that closes a response: the bytes of `EOF`.
pub fn eof_bytes() -> (r: Vec<u8>)
    ensures
        r@ == eof_marker(),
{
    let mut r: Vec<u8> = Vec::new();
    r.push(0x45);
    r.push(0x4f);
    r.push(0x46);
    assert(r@ =~= eof_marker());
    r
}

impl<S> XData<S> {
    /// What the owner of the socket does with this message: a sink is
    /// installed, the marker closes the socket, other bytes are written.
    pub fn socket_op(self) -> (op: SocketOp<S>)
        ensures
            match self {
                XData::TX(s) => op == SocketOp::Install(s),
                XData::Data(d) => op@ == data_op(d@),
            },
    {
        match self {
            XData::TX(s) => SocketOp::Install(s),
            XData::Data(d) => {
                if is_eof(&d) {
                    SocketOp::Close
                } else {
                    SocketOp::Write(d)
                }
            },
        }
    }
}

/// The connections in flight, by id.
#[verifier::reject_recursive_types(T)]
pub struct ConnectionRegistry<T> {
    conns: Table<Connection<T>>,
}

impl<T> View for ConnectionRegistry<T> {
    type V = Map<Seq<char>, Connection<T>>;

    closed spec fn view(&self) -> Map<Seq<char>, Connection<T>> {
        self.conns@
    }
}

impl<T> ConnectionRegistry<T> {
    /// Every connection is filed under its own id.
    pub closed spec fn wf(&self) -> bool {
        &&& self.conns.wf()
        &&& forall|k: Seq<char>| #[trigger] self.conns@.contains_key(k) ==> self.conns@[k].id@ == k
    }

    /// No two connections in flight have the same id.
    pub proof fn lemma_ids_unique(&self, a: Seq<char>, b: Seq<char>)
        requires
            self.wf(),
            self@.contains_key(a),
            self@.contains_key(b),
            self@[a].id@ == self@[b].id@,
        ensures
            a == b,
            self@[a].id@ == a,
    {
    }

    /// An empty registry.
    pub fn new() -> (r: ConnectionRegistry<T>)
        ensures
            r.wf(),
            r@ == Map::<Seq<char>, Connection<T>>::empty(),
    {
        ConnectionRegistry { conns: Table::new() }
    }

    /// Files `conn` under its id, in place of a connection that had that id.
    pub fn insert(&mut self, conn: Connection<T>)
        requires
            old(self).wf(),
        ensures
            final(self).wf(),
            final(self)@ == old(self)@.insert(conn.id@, conn),
    {
        let key = conn.id.clone();
        self.conns.insert(key, conn);
    }

    /// Whether a connection with this id is in flight.
    pub fn contains(&self, conn_id: &String) -> (r: bool)
        requires
            self.wf(),
        ensures
            r == self@.contains_key(conn_id@),
    {
        self.conns.contains_key(conn_id)
    }

    /// The connection with this id, if it is in flight.
    pub fn get(&self, conn_id: &String) -> (r: Option<&Connection<T>>)
        requires
            self.wf(),
        ensures
            match r {
                Some(c) => self@.contains_key(conn_id@) && *c == self@[conn_id@] && c.id@
                    == conn_id@,
                None => !self@.contains_key(conn_id@),
            },
    {
        self.conns.get(conn_id)
    }

    /// Takes the connection with this id out of the registry.
    pub fn remove(&mut self, conn_id: &String) -> (r: Option<Connection<T>>)
        requires
            old(self).wf(),
        ensures
            final(self).wf(),
            final(self)@ == old(self)@.remove(conn_id@),
            r == if old(self)@.contains_key(conn_id@) {
                Some(old(self)@[conn_id@])
            } else {
                None
            },
            r matches Some(c) ==> c.id@ == conn_id@,
    {
        self.conns.remove(conn_id)
    }
}

} // verus!
