//! A peer-to-peer text chat session over datagrams, without the socket.
//!
//! Two endpoints play the same part: one listens for a connection request,
//! the other sends one, and after the handshake both exchange lines of text
//! until one of them disconnects. An endpoint has one peer at most and turns
//! everybody else away.
//!
//! The crate holds the wire format of the messages and the rules of a
//! session: the handshake, the exchange of text, the teardown, the filter that
//! keeps strangers out and the log of what was said. It performs no I/O. A
//! driver owns the socket, hands every datagram it receives to the session and
//! transmits what the session hands back.
//!
//! - [`message`]: the messages and their encoding.
//! - [`address`]: the address of an endpoint.
//! - [`history`]: the log of what was said, by peer.
//! - [`protocol`]: the rules of a session, as functions on mathematical values.
//! - [`client`]: the session itself, whose operations follow those rules.
//! - [`theorems`]: what follows from the rules for every session.
//! - [`command`]: what a line of input asks of a session without a peer.
//! - [`error`]: what an operation fails with.

pub mod address;
pub mod client;
pub mod command;
pub mod error;
pub mod history;
pub mod message;
pub mod protocol;
pub mod theorems;

pub use address::Address;
pub use client::{Accepted, Client, Datagram, Outgoing, Reaction, Step};
pub use command::Command;
pub use error::{Error, ErrorView};
pub use history::History;
pub use message::{DecodeError, Message, MessageView};
