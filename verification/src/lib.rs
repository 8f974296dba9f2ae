//! Control plane of a reverse-tunnel server.
//!
//! Clients that cannot accept inbound traffic log in, ask the server for a
//! public entrypoint (an HTTP virtual host or a TCP port) and are then told of
//! every external connection that reaches it. The bytes of each connection are
//! carried over one multiplexed transfer stream.
//!
//! This crate holds the rules of that control plane as sequential state
//! machines over plain values: sessions, entrypoint allocation, the connection
//! registry, the listen and transfer protocols and the routing tables of the
//! public listeners. Sockets, tasks and the RPC transport live with the caller,
//! which feeds events in and performs the actions that come back.

pub mod api;
pub mod config;
pub mod connection;
pub mod entrypoint;
pub mod error;
pub mod listen;
pub mod listener;
pub mod random;
pub mod server;
pub mod session;
mod table;
pub mod text;
pub mod transfer;
pub mod tunnel;
