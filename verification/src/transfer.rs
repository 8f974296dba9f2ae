//! The transfer protocol: what the server does with each frame that a client
//! sends on a transfer stream, and what it sends back of the request bytes.
//!
//! A transfer stream carries the frames of many connections. For each
//! connection the stream is in one of three states; a frame is answered from
//! the state of its connection alone.

use vstd::prelude::*;
use vstd::hash_map::StringHashMap;
use crate::api::{
    eof_marker,
    status_number,
    status_of,
    TStatus,
    TransferBody,
    TransferReply,
    TransferReplyView,
};
use crate::connection::{data_op, eof_bytes, Connection, SocketOpView};
use crate::error::{
    error_view,
    msg_out_of_order,
    msg_unknown_connection,
    msg_unknown_status,
    ErrorKind,
    TunnelError,
};
use crate::server::RSLServer;

verus! {

/// The state of one connection on a transfer stream.
#[derive(Clone, Copy, Debug, PartialEq, Eq, Structural)]
pub enum ConnState {
    /// No frame has been accepted for the connection yet.
    Initial,
    /// The client is ready: request bytes flow to it, response bytes from it.
    Working,
    /// The client has closed the response; later frames are ignored.
    Terminal,
}

/// What a frame brings about.
pub enum TransferEffect {
    /// A fresh sink for request bytes is handed to the connection and drained
    /// towards the client.
    Install,
    /// These response bytes are delivered to the connection.
    Forward(Seq<u8>),
    /// The closing marker is delivered to the connection, which leaves the
    /// registry.
    Close,
    /// Nothing happens.
    Ignore,
    /// The frame violates the protocol; the message says how.
    Reject(Seq<char>),
}

/// What a frame with the status numbered `status` brings about for a
/// connection in `state`; `registered` tells whether the connection is in
/// flight.
pub open spec fn transfer_effect(
    state: ConnState,
    registered: bool,
    status: i32,
    resp_data: Seq<u8>,
) -> TransferEffect {
    match status_of(status) {
        None => TransferEffect::Reject(msg_unknown_status()),
        Some(st) => if state == ConnState::Terminal {
            TransferEffect::Ignore
        } else if !registered {
            TransferEffect::Reject(msg_unknown_connection())
        } else {
            match (state, st) {
                (_, TStatus::Ready) => TransferEffect::Install,
                (ConnState::Initial, _) => TransferEffect::Reject(msg_out_of_order()),
                (_, TStatus::Working) => TransferEffect::Forward(resp_data),
                (_, TStatus::Done) => TransferEffect::Close,
            }
        },
    }
}

/// The state of a connection after a frame with the given effect.
pub open spec fn next_state(state: ConnState, effect: TransferEffect) -> ConnState {
    match effect {
        TransferEffect::Install => ConnState::Working,
        TransferEffect::Close => ConnState::Terminal,
        _ => state,
    }
}

/// The state that `states` records for `conn_id`; a connection without a
/// record is in its initial state.
pub open spec fn state_in(states: Map<Seq<char>, ConnState>, conn_id: Seq<char>) -> ConnState {
    if states.contains_key(conn_id) {
        states[conn_id]
    } else {
        ConnState::Initial
    }
}

/// The records of a stream after a frame for `conn_id` with the given effect.
pub open spec fn states_after(
    states: Map<Seq<char>, ConnState>,
    conn_id: Seq<char>,
    effect: TransferEffect,
) -> Map<Seq<char>, ConnState> {
    match effect {
        TransferEffect::Install => states.insert(conn_id, ConnState::Working),
        TransferEffect::Close => states.insert(conn_id, ConnState::Terminal),
        _ => states,
    }
}

/// The connections in flight after a frame for `conn_id` with the given
/// effect.
pub open spec fn connections_after<T>(
    conns: Map<Seq<char>, Connection<T>>,
    conn_id: Seq<char>,
    effect: TransferEffect,
) -> Map<Seq<char>, Connection<T>> {
    match effect {
        TransferEffect::Close => conns.remove(conn_id),
        _ => conns,
    }
}

/// A frame touches one connection only.
///
/// Whatever a frame for the connection `conn_id` brings about, every other
/// connection keeps its state on the stream and its place in the registry.
pub proof fn law_frame_touches_one_connection<T>(
    states: Map<Seq<char>, ConnState>,
    conns: Map<Seq<char>, Connection<T>>,
    conn_id: Seq<char>,
    effect: TransferEffect,
    other: Seq<char>,
)
    requires
        other != conn_id,
    ensures
        state_in(states_after(states, conn_id, effect), other) == state_in(states, other),
        connections_after(conns, conn_id, effect).contains_key(other) == conns.contains_key(other),
        conns.contains_key(other) ==> connections_after(conns, conn_id, effect)[other]
            == conns[other],
{
}

/// What the caller has to carry out after a frame.
#[derive(Debug)]
pub enum TransferAction<T> {
    /// Make a fresh byte channel, send its sending half to the connection
    /// `conn_id` as `XData::TX`, and drain its receiving half to the client.
    Install { conn_id: String },
    /// Send `data` to the connection `conn_id` as `XData::Data`.
    Forward { conn_id: String, data: Vec<u8> },
    /// Send `data`, the closing marker, to `conn` as `XData::Data`; the
    /// connection has left the registry.
    Close { conn: Connection<T>, data: Vec<u8> },
    /// Nothing to do.
    Ignore,
}

/// Whether `r` is the answer that carries out `effect` for `conn_id`, given
/// the connections in flight before the frame.
pub open spec fn action_matches<T>(
    r: Result<TransferAction<T>, TunnelError>,
    effect: TransferEffect,
    conn_id: Seq<char>,
    conns: Map<Seq<char>, Connection<T>>,
) -> bool {
    match effect {
        TransferEffect::Install => r matches Ok(TransferAction::Install { conn_id: c }) && c@
            == conn_id,
        TransferEffect::Forward(d) => r matches Ok(TransferAction::Forward { conn_id: c, data })
            && c@ == conn_id && data@ == d,
        TransferEffect::Close => r matches Ok(TransferAction::Close { conn, data }) && conn
            == conns[conn_id] && conn.id@ == conn_id && data@ == eof_marker(),
        TransferEffect::Ignore => r matches Ok(TransferAction::Ignore),
        TransferEffect::Reject(m) => r matches Err(e) && e@ == error_view(
            ErrorKind::ProtocolViolation,
            m,
        ),
    }
}

/// The states of the connections of one transfer stream.
pub struct TransferSession {
    states: StringHashMap<ConnState>,
}

impl View for TransferSession {
    type V = Map<Seq<char>, ConnState>;

    closed spec fn view(&self) -> Map<Seq<char>, ConnState> {
        self.states@
    }
}

impl TransferSession {
    /// The state of the connection `conn_id` on this stream.
    pub open spec fn state_of(&self, conn_id: Seq<char>) -> ConnState {
        state_in(self@, conn_id)
    }

    /// A stream on which every connection is in its initial state.
    pub fn new() -> (s: TransferSession)
        ensures
            s@ == Map::<Seq<char>, ConnState>::empty(),
    {
        TransferSession { states: StringHashMap::new() }
    }

    /// The state of the connection `conn_id` on this stream.
    pub fn state(&self, conn_id: &str) -> (st: ConnState)
        ensures
            st == self.state_of(conn_id@),
    {
        match self.states.get(conn_id) {
            Some(st) => *st,
            None => ConnState::Initial,
        }
    }

    /// Records `state` for the connection `conn_id`.
    fn record(&mut self, conn_id: String, state: ConnState)
        ensures
            final(self)@ == old(self)@.insert(conn_id@, state),
    {
        self.states.insert(conn_id, state);
    }
}

impl<E, T> RSLServer<E, T> {
    /// Handles one frame of a transfer stream.
    ///
    /// The frame is answered from the state of its connection on the stream:
    /// `Ready` installs the drain of the request bytes, `Working` forwards
    /// response bytes, `Done` closes the response and takes the connection out
    /// of the registry. Frames for a closed connection are ignored. A frame
    /// with an unknown status, for a connection that is not in flight, or
    /// with `Working` or `Done` before any `Ready`, is a protocol violation
    /// and changes nothing.
    pub fn transfer(&mut self, session: &mut TransferSession, frame: TransferBody) -> (r: Result<
        TransferAction<T>,
        TunnelError,
    >)
        requires
            old(self).wf(),
        ensures
            final(self).wf(),
            final(self).same_but_connections(old(self)),
            ({
                let id = frame.conn_id@;
                let effect = transfer_effect(
                    old(session).state_of(id),
                    old(self).connections().contains_key(id),
                    frame.status,
                    frame.resp_data@,
                );
                &&& action_matches(r, effect, id, old(self).connections())
                &&& final(session)@ == states_after(old(session)@, id, effect)
                &&& final(session).state_of(id) == next_state(old(session).state_of(id), effect)
                &&& final(self).connections() == connections_after(
                    old(self).connections(),
                    id,
                    effect,
                )
            }),
    {
        let TransferBody { conn_id, status, resp_data } = frame;
        let status = match TStatus::from_i32(status) {
            Some(status) => status,
            None => {
                return Err(
                    TunnelError::new(ErrorKind::ProtocolViolation, "unknown transfer status"),
                );
            },
        };
        let state = session.state(conn_id.as_str());
        match state {
            ConnState::Terminal => {
                return Ok(TransferAction::Ignore);
            },
            _ => {},
        }
        if !self.has_connection(&conn_id) {
            return Err(TunnelError::new(ErrorKind::ProtocolViolation, "unknown connection"));
        }
        match (state, status) {
            (_, TStatus::Ready) => {
                session.record(conn_id.clone(), ConnState::Working);
                Ok(TransferAction::Install { conn_id })
            },
            (ConnState::Initial, _) => Err(
                TunnelError::new(ErrorKind::ProtocolViolation, "transfer status out of order"),
            ),
            (_, TStatus::Working) => Ok(TransferAction::Forward { conn_id, data: resp_data }),
            (_, TStatus::Done) => {
                let conn = self.take_connection(&conn_id).unwrap();
                session.record(conn_id, ConnState::Terminal);
                Ok(TransferAction::Close { conn, data: eof_bytes() })
            },
        }
    }
}

/// What the drain of one connection sends to the client for one event on
/// its byte channel, and whether the drain is over afterwards. `done` tells
/// whether it was over before; `chunk` is the chunk received, or `None` when
/// the channel has closed.
pub open spec fn drain_emits(done: bool, chunk: Option<Seq<u8>>) -> (Option<Seq<u8>>, bool) {
    if done {
        (None, true)
    } else {
        match chunk {
            Some(bytes) => if bytes.len() > 0 {
                (Some(bytes), false)
            } else {
                (Some(Seq::empty()), true)
            },
            None => (Some(Seq::empty()), true),
        }
    }
}

/// The drain of the request bytes of one connection towards the client.
pub struct Drain {
    conn_id: String,
    done: bool,
}

impl Drain {
    /// The id of the connection that is drained.
    pub closed spec fn conn_id(&self) -> Seq<char> {
        self.conn_id@
    }

    /// Whether the closing empty reply has been sent.
    pub closed spec fn is_done(&self) -> bool {
        self.done
    }

    /// A drain for the connection `conn_id` that has sent nothing yet.
    pub fn new(conn_id: String) -> (d: Drain)
        ensures
            d.conn_id() == conn_id@,
            !d.is_done(),
    {
        Drain { conn_id, done: false }
    }

    /// Whether the closing empty reply has been sent.
    pub fn done(&self) -> (r: bool)
        ensures
            r == self.is_done(),
    {
        self.done
    }

    /// Takes one event of the byte channel: a chunk, or `None` when the
    /// channel has closed. A chunk with bytes is passed on to the client. An
    /// empty chunk or the end of the channel is answered by one empty reply,
    /// after which the drain is over and sends nothing more.
    pub fn feed(&mut self, chunk: Option<Vec<u8>>) -> (r: Option<TransferReply>)
        ensures
            final(self).conn_id() == old(self).conn_id(),
            ({
                let chunk_view = match chunk {
                    Some(bytes) => Some(bytes@),
                    None => None,
                };
                let (emitted, done) = drain_emits(old(self).is_done(), chunk_view);
                &&& final(self).is_done() == done
                &&& match emitted {
                    Some(bytes) => r matches Some(reply) && reply@ == (TransferReplyView {
                        conn_id: old(self).conn_id(),
                        req_data: bytes,
                    }),
                    None => r is None,
                }
            }),
    {
        if self.done {
            return None;
        }
        match chunk {
            Some(bytes) => {
                if bytes.len() > 0 {
                    return Some(TransferReply { conn_id: self.conn_id.clone(), req_data: bytes });
                }
            },
            None => {},
        }
        self.done = true;
        let empty: Vec<u8> = Vec::new();
        assert(empty@ =~= Seq::<u8>::empty());
        Some(TransferReply { conn_id: self.conn_id.clone(), req_data: empty })
    }
}

/// The bytes of `chunks`, one chunk after the other.
pub open spec fn joined(chunks: Seq<Seq<u8>>) -> Seq<u8>
    decreases chunks.len(),
{
    if chunks.len() == 0 {
        Seq::empty()
    } else {
        chunks[0] + joined(chunks.skip(1))
    }
}

/// What a drain sends to the client, in order, for the events `events` of
/// its byte channel; `done` tells whether it was over before the first.
pub open spec fn drain_run(done: bool, events: Seq<Option<Seq<u8>>>) -> Seq<Seq<u8>>
    decreases events.len(),
{
    if events.len() == 0 {
        Seq::empty()
    } else {
        let (emitted, done_after) = drain_emits(done, events[0]);
        let rest = drain_run(done_after, events.skip(1));
        match emitted {
            Some(bytes) => seq![bytes] + rest,
            None => rest,
        }
    }
}

/// The events of a byte channel that carries `chunks` and then ends with
/// `end`, followed by the events `later`.
pub open spec fn channel_events(
    chunks: Seq<Seq<u8>>,
    end: Option<Seq<u8>>,
    later: Seq<Option<Seq<u8>>>,
) -> Seq<Option<Seq<u8>>> {
    Seq::new(chunks.len(), |i: int| Some(chunks[i])).push(end) + later
}

/// A drain that is over sends nothing, whatever arrives.
proof fn lemma_drain_over(events: Seq<Option<Seq<u8>>>)
    ensures
        drain_run(true, events) == Seq::<Seq<u8>>::empty(),
    decreases events.len(),
{
    if events.len() > 0 {
        lemma_drain_over(events.skip(1));
    }
}

/// Joining chunks, the last of which is empty, gives the bytes of the others.
proof fn lemma_joined_push_empty(chunks: Seq<Seq<u8>>)
    ensures
        joined(chunks.push(Seq::empty())) == joined(chunks),
    decreases chunks.len(),
{
    let all = chunks.push(Seq::<u8>::empty());
    if chunks.len() == 0 {
        assert(all.skip(1) =~= chunks);
        assert(joined(chunks) == Seq::<u8>::empty());
        assert(joined(all) == all[0] + joined(all.skip(1)));
        assert(joined(all) =~= joined(chunks));
    } else {
        lemma_joined_push_empty(chunks.skip(1));
        assert(all.skip(1) =~= chunks.skip(1).push(Seq::<u8>::empty()));
    }
}

/// The request bytes of a connection reach the client unchanged.
///
/// When the byte channel of a connection carries the non-empty chunks
/// `chunks` and then ends, by an empty chunk or by closing, the drain sends
/// the client exactly those chunks, in order, and then one empty reply.
/// Joined, the replies are the bytes that the chunks carried. Whatever
/// arrives on the channel later changes nothing.
pub proof fn law_request_bytes_reach_client(
    chunks: Seq<Seq<u8>>,
    end: Option<Seq<u8>>,
    later: Seq<Option<Seq<u8>>>,
)
    requires
        forall|i: int| 0 <= i < chunks.len() ==> (#[trigger] chunks[i]).len() > 0,
        end is None || end == Some(Seq::<u8>::empty()),
    ensures
        drain_run(false, channel_events(chunks, end, later)) == chunks.push(Seq::empty()),
        joined(drain_run(false, channel_events(chunks, end, later))) == joined(chunks),
    decreases chunks.len(),
{
    let events = channel_events(chunks, end, later);
    if chunks.len() == 0 {
        assert(events[0] == end);
        assert(events.skip(1) =~= later);
        lemma_drain_over(later);
        assert(drain_run(false, events) =~= chunks.push(Seq::empty()));
    } else {
        let tail = chunks.skip(1);
        assert(events[0] == Some(chunks[0]));
        assert(events.skip(1) =~= channel_events(tail, end, later));
        assert forall|i: int| 0 <= i < tail.len() implies (#[trigger] tail[i]).len() > 0 by {
            assert(tail[i] == chunks[i + 1]);
        }
        law_request_bytes_reach_client(tail, end, later);
        assert(drain_run(false, events) =~= chunks.push(Seq::empty()));
    }
    lemma_joined_push_empty(chunks);
}

/// The effects of the frames `frames`, all for one connection that starts in
/// `state`; `registered` tells whether it is in flight at the start. Each
/// frame is given by the number of its status and its response bytes.
pub open spec fn transfer_run(state: ConnState, registered: bool, frames: Seq<(i32, Seq<u8>)>) -> Seq<
    TransferEffect,
>
    decreases frames.len(),
{
    if frames.len() == 0 {
        Seq::empty()
    } else {
        let effect = transfer_effect(state, registered, frames[0].0, frames[0].1);
        seq![effect] + transfer_run(
            next_state(state, effect),
            registered && !(effect is Close),
            frames.skip(1),
        )
    }
}

/// What the owner of the socket does for one effect, if the effect delivers
/// anything to it.
pub open spec fn socket_op_of(effect: TransferEffect) -> Option<SocketOpView> {
    match effect {
        TransferEffect::Install => Some(SocketOpView::Install),
        TransferEffect::Forward(bytes) => Some(data_op(bytes)),
        TransferEffect::Close => Some(data_op(eof_marker())),
        _ => None,
    }
}

/// The bytes written to the socket for the effects `effects`, and whether
/// the socket is closed at the end. Nothing is written after the close.
pub open spec fn socket_output(effects: Seq<TransferEffect>) -> (Seq<u8>, bool)
    decreases effects.len(),
{
    if effects.len() == 0 {
        (Seq::empty(), false)
    } else {
        match socket_op_of(effects[0]) {
            Some(SocketOpView::Close) => (Seq::empty(), true),
            Some(SocketOpView::Write(bytes)) => {
                let (rest, closed) = socket_output(effects.skip(1));
                (bytes + rest, closed)
            },
            _ => socket_output(effects.skip(1)),
        }
    }
}

/// The frames by which a client answers a connection with the response
/// `parts`: one `Working` frame for each part, then `Done`, followed by the
/// frames `later`.
pub open spec fn response_frames(parts: Seq<Seq<u8>>, later: Seq<(i32, Seq<u8>)>) -> Seq<
    (i32, Seq<u8>),
> {
    Seq::new(parts.len(), |i: int| (status_number(TStatus::Working), parts[i])).push(
        (status_number(TStatus::Done), Seq::empty()),
    ) + later
}

/// Once a connection works, its response is written out and then closed.
proof fn lemma_response_from_working(parts: Seq<Seq<u8>>, later: Seq<(i32, Seq<u8>)>)
    requires
        forall|i: int| 0 <= i < parts.len() ==> #[trigger] parts[i] != eof_marker(),
    ensures
        socket_output(transfer_run(ConnState::Working, true, response_frames(parts, later))) == (
            joined(parts),
            true,
        ),
    decreases parts.len(),
{
    let frames = response_frames(parts, later);
    if parts.len() == 0 {
        assert(frames[0] == (status_number(TStatus::Done), Seq::<u8>::empty()));
        let effects = transfer_run(ConnState::Working, true, frames);
        assert(effects[0] is Close);
    } else {
        let tail = parts.skip(1);
        assert(frames[0] == (status_number(TStatus::Working), parts[0]));
        assert(frames.skip(1) =~= response_frames(tail, later));
        assert forall|i: int| 0 <= i < tail.len() implies #[trigger] tail[i] != eof_marker() by {
            assert(tail[i] == parts[i + 1]);
        }
        lemma_response_from_working(tail, later);
        let effects = transfer_run(ConnState::Working, true, frames);
        assert(effects[0] == TransferEffect::Forward(parts[0]));
        assert(effects.skip(1) =~= transfer_run(
            ConnState::Working,
            true,
            response_frames(tail, later),
        ));
    }
}

/// The response bytes of a client reach the external peer unchanged.
///
/// A client that is told of a connection answers `Ready`, sends the response
/// as `Working` frames and ends with `Done`. If no frame carries exactly the
/// closing marker, the bytes written to the socket are the bytes of the
/// frames, in order, and then the socket is closed. Whatever the client
/// sends for the connection later changes nothing.
pub proof fn law_response_bytes_reach_peer(parts: Seq<Seq<u8>>, later: Seq<(i32, Seq<u8>)>)
    requires
        forall|i: int| 0 <= i < parts.len() ==> #[trigger] parts[i] != eof_marker(),
    ensures
        socket_output(
            transfer_run(
                ConnState::Initial,
                true,
                seq![(status_number(TStatus::Ready), Seq::<u8>::empty())] + response_frames(
                    parts,
                    later,
                ),
            ),
        ) == (joined(parts), true),
{
    let ready = (status_number(TStatus::Ready), Seq::<u8>::empty());
    let frames = seq![ready] + response_frames(parts, later);
    assert(frames[0] == ready);
    assert(frames.skip(1) =~= response_frames(parts, later));
    lemma_response_from_working(parts, later);
    let effects = transfer_run(ConnState::Initial, true, frames);
    assert(effects[0] is Install);
    assert(effects.skip(1) =~= transfer_run(ConnState::Working, true, response_frames(parts, later)));
}

} // verus!
