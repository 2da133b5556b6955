//! Synchronisation of authoritative game state between one server and many
//! clients over an unreliable, unordered datagram transport.
//!
//! The crate holds the protocol engine: the one-byte message header, the
//! positional little-endian packet serializer, the client's connection state
//! machine, the server's session registry, the replication directory of both
//! peers and the dispatcher of client commands. Sockets, the scene tree and the
//! frame loop stay outside: every handler takes the bytes that arrived and
//! records the datagrams and scene changes that the caller has to carry out.

pub mod common;
pub mod convergence;
pub mod game;
pub mod server;
