//! A client for QUIC and HTTP/3 that leaves the socket to its caller.
//!
//! `quiche` keeps the state of a connection. This library decides what to do
//! with it: when to ask it for packets, when to wait for the peer and for how
//! long, whom to wake when a packet has come in, and when to give up. Each
//! operation is laid out in steps. A step takes what has happened since the last
//! one and says what to do next; whoever drives the steps sends and receives the
//! datagrams.
//!
//! - [`handshake`]: from an address to an established connection.
//! - [`connection`]: streams, flushing, closing, and the loop that reads the
//!   socket.
//! - [`h3`]: HTTP/3 on top of a connection.
//! - [`readiness`]: ready flags and wakers.
//! - [`settings`]: the numbers that a connection is made with.
//! - [`effects`]: what a call of each operation does.
//! - [`laws`]: what holds across calls.
//! - [`quic`], [`http3`]: what is relied on of `quiche`.
pub mod address;
pub mod connection;
pub mod datagram;
pub mod effects;
pub mod error;
pub mod h3;
pub mod handshake;
pub mod http3;
pub mod laws;
pub mod quic;
pub mod readiness;
pub mod settings;

pub use connection::Connection;
pub use error::Error;
pub use h3::H3Connection;
pub use quiche;
