//! The errors that the control plane reports.

use vstd::prelude::*;
use vstd::string::StringExecFns;

verus! {

/// The kind of an error, after the status codes of the RPC surface.
#[derive(Clone, Copy, Debug, PartialEq, Eq, Structural)]
pub enum ErrorKind {
    /// No session, or one that no login issued.
    Unauthenticated,
    /// An argument that cannot be served: an unknown token, an unknown
    /// protocol number, an authentication method that is not available.
    InvalidArgument,
    /// The requested entrypoint is taken.
    AlreadyExists,
    /// The server cannot serve the request: no port is left, or the port
    /// range of the configuration cannot be read.
    Internal,
    /// A transfer frame that the protocol does not allow at this point.
    ProtocolViolation,
}

/// An error: its kind and the message that goes to the client.
#[derive(Debug)]
pub struct TunnelError {
    pub kind: ErrorKind,
    pub message: String,
}

/// The kind and the characters of the message of an error.
pub struct TunnelErrorView {
    pub kind: ErrorKind,
    pub message: Seq<char>,
}

impl View for TunnelError {
    type V = TunnelErrorView;

    open spec fn view(&self) -> TunnelErrorView {
        TunnelErrorView { kind: self.kind, message: self.message@ }
    }
}

pub open spec fn msg_invalid_session() -> Seq<char> {
    "invalid session"@
}

pub open spec fn msg_no_auth_token() -> Seq<char> {
    "No valid auth token"@
}

pub open spec fn msg_invalid_token() -> Seq<char> {
    "invalid token"@
}

pub open spec fn msg_oidc() -> Seq<char> {
    "oidc not implement"@
}

pub open spec fn msg_subdomain_taken() -> Seq<char> {
    "subdomain already exist"@
}

pub open spec fn msg_no_port() -> Seq<char> {
    "none valid tcp port"@
}

pub open spec fn msg_bad_port_range() -> Seq<char> {
    "invalid port range"@
}

pub open spec fn msg_unknown_protocol() -> Seq<char> {
    "unknown protocol"@
}

pub open spec fn msg_unknown_status() -> Seq<char> {
    "unknown transfer status"@
}

pub open spec fn msg_unknown_connection() -> Seq<char> {
    "unknown connection"@
}

pub open spec fn msg_out_of_order() -> Seq<char> {
    "transfer status out of order"@
}

/// The error view with this kind and message.
pub open spec fn error_view(kind: ErrorKind, message: Seq<char>) -> TunnelErrorView {
    TunnelErrorView { kind, message }
}

/// A result by the characters of its string or the view of its error.
pub open spec fn result_view(r: Result<String, TunnelError>) -> Result<Seq<char>, TunnelErrorView> {
    match r {
        Ok(text) => Ok(text@),
        Err(e) => Err(e@),
    }
}

impl TunnelError {
    /// An error of the given kind with the given message.
    pub fn new(kind: ErrorKind, message: &str) -> (e: TunnelError)
        ensures
            e@ == error_view(kind, message@),
    {
        TunnelError { kind, message: String::from_str(message) }
    }

    /// The message, as it is shown to the client.
    pub fn to_string(&self) -> (s: String)
        ensures
            s@ == self.message@,
    {
        self.message.clone()
    }
}

} // verus!
