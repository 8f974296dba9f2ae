//! The messages of the RPC surface.

use vstd::prelude::*;

verus! {

/// The capacity of every channel between two tasks of the server. A sender
/// that finds a channel full waits, so a slow reader slows its writers down.
pub const CHANNEL_CAPACITY: usize = 128;

/// The number of characters of a session id.
pub const SESSION_ID_LEN: usize = 128;

/// The number of characters of a subdomain that the server picks.
pub const SUBDOMAIN_LEN: usize = 8;

/// The seconds between two looks at whether the client of a listen stream
/// still reads it.
pub const SENTINEL_PERIOD_SECS: u64 = 1;

/// The action of the first notification on a listen stream.
pub open spec fn action_ready() -> Seq<char> {
    "ready"@
}

/// The action of a notification that announces a new connection.
pub open spec fn action_coming() -> Seq<char> {
    "coming"@
}

/// The three bytes that close the response of a connection.
pub open spec fn eof_marker() -> Seq<u8> {
    seq![0x45u8, 0x4fu8, 0x46u8]
}

/// The kind of entrypoint that a client asks for.
#[derive(Clone, Copy, Debug, PartialEq, Eq, Structural)]
pub enum Protocol {
    Http,
    Tcp,
}

/// The protocol that a wire number stands for.
pub open spec fn protocol_of(n: i32) -> Option<Protocol> {
    if n == 0 {
        Some(Protocol::Http)
    } else if n == 1 {
        Some(Protocol::Tcp)
    } else {
        None
    }
}

/// The wire number of a protocol.
pub open spec fn protocol_number(p: Protocol) -> i32 {
    match p {
        Protocol::Http => 0,
        Protocol::Tcp => 1,
    }
}

impl Protocol {
    /// Decodes the wire number of a protocol; `None` for a number that
    /// names none.
    pub fn from_i32(n: i32) -> (r: Option<Protocol>)
        ensures
            r == protocol_of(n),
    {
        if n == 0 {
            Some(Protocol::Http)
        } else if n == 1 {
            Some(Protocol::Tcp)
        } else {
            None
        }
    }

    /// The wire number of the protocol.
    pub fn as_i32(&self) -> (n: i32)
        ensures
            n == protocol_number(*self),
            protocol_of(n) == Some(*self),
    {
        match self {
            Protocol::Http => 0,
            Protocol::Tcp => 1,
        }
    }
}

/// The stage of one connection on a transfer stream, as the client reports it.
#[derive(Clone, Copy, Debug, PartialEq, Eq, Structural)]
pub enum TStatus {
    Ready,
    Working,
    Done,
}

/// The status that a wire number stands for.
pub open spec fn status_of(n: i32) -> Option<TStatus> {
    if n == 0 {
        Some(TStatus::Ready)
    } else if n == 1 {
        Some(TStatus::Working)
    } else if n == 2 {
        Some(TStatus::Done)
    } else {
        None
    }
}

/// The wire number of a status.
pub open spec fn status_number(st: TStatus) -> i32 {
    match st {
        TStatus::Ready => 0,
        TStatus::Working => 1,
        TStatus::Done => 2,
    }
}

impl TStatus {
    /// Decodes the wire number of a status; `None` for a number that names
    /// none.
    pub fn from_i32(n: i32) -> (r: Option<TStatus>)
        ensures
            r == status_of(n),
    {
        if n == 0 {
            Some(TStatus::Ready)
        } else if n == 1 {
            Some(TStatus::Working)
        } else if n == 2 {
            Some(TStatus::Done)
        } else {
            None
        }
    }

    /// The wire number of the status.
    pub fn as_i32(&self) -> (n: i32)
        ensures
            n == status_number(*self),
            status_of(n) == Some(*self),
    {
        match self {
            TStatus::Ready => 0,
            TStatus::Working => 1,
            TStatus::Done => 2,
        }
    }
}

/// The request of a login.
#[derive(Debug)]
pub struct LoginBody {
    pub token: String,
}

/// The answer to a successful login.
#[derive(Debug)]
pub struct LoginReply {
    pub session_id: String,
    pub username: String,
}

/// The request that opens a listen stream.
#[derive(Debug)]
pub struct ListenParam {
    pub protocol: i32,
    pub subdomain: String,
}

/// One frame of a listen stream.
#[derive(Debug)]
pub struct ListenNotification {
    pub action: String,
    pub message: String,
}

/// One frame from the client on a transfer stream.
#[derive(Debug)]
pub struct TransferBody {
    pub conn_id: String,
    pub status: i32,
    pub resp_data: Vec<u8>,
}

/// One frame to the client on a transfer stream.
#[derive(Debug)]
pub struct TransferReply {
    pub conn_id: String,
    pub req_data: Vec<u8>,
}

/// The characters and bytes of a transfer reply.
pub struct TransferReplyView {
    pub conn_id: Seq<char>,
    pub req_data: Seq<u8>,
}

impl View for TransferReply {
    type V = TransferReplyView;

    open spec fn view(&self) -> TransferReplyView {
        TransferReplyView { conn_id: self.conn_id@, req_data: self.req_data@ }
    }
}

/// The characters of a notification.
pub struct ListenNotificationView {
    pub action: Seq<char>,
    pub message: Seq<char>,
}

impl View for ListenNotification {
    type V = ListenNotificationView;

    open spec fn view(&self) -> ListenNotificationView {
        ListenNotificationView { action: self.action@, message: self.message@ }
    }
}

/// The notification that announces the entrypoint of a stream.
pub open spec fn ready_notification(entrypoint: Seq<char>) -> ListenNotificationView {
    ListenNotificationView { action: action_ready(), message: entrypoint }
}

/// The notification that announces the connection `conn_id`.
pub open spec fn coming_notification(conn_id: Seq<char>) -> ListenNotificationView {
    ListenNotificationView { action: action_coming(), message: conn_id }
}

} // verus!
