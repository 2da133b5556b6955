//! The client: connection state machine, spawn registry and the directory of
//! replicated nodes.

pub mod connection_state;
pub mod linking_context;
pub mod network_manager;
pub mod player;
