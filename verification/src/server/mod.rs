//! The server: session registry, authoritative replication directory and the
//! dispatcher of client commands.

pub mod connected_client;
pub mod network_id;
pub mod network_manager;
pub mod replicated_node;
pub mod replication;
pub mod replication_manager;
pub mod rpc_manager;
pub mod server_view;
