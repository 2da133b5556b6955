//! The identity of a session.

use vstd::prelude::*;

verus! {

/// A client that completed the handshake: the network id that the server
/// gave it and the address that its datagrams come from.
pub struct ConnectedClient {
    pub net_id: u32,
    pub address: String,
}

} // verus!
