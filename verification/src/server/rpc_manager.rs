//! The dispatcher of client commands.

use vstd::prelude::*;
use crate::common::message_header::{DataType, MessageHeader};
use crate::common::serializer::{u32_from_le, Serializer};
use crate::server::replicated_node::ReplicatedNode;
use crate::server::replication_manager::ReplicationManager;
use crate::server::server_view::{nodes_after_rpc, RPC_WIDTH};

verus! {

/// Applies the state changes that clients ask for. It holds no state of its
/// own, and it asks nobody whether the client owns the node.
pub struct RpcManager {}

impl RpcManager {
    /// Handles the payload of a `Data` frame. A command of full width puts
    /// the node that it names at the position that it gives, whoever sent
    /// it; a shorter one, one for a network id that no node has, and every
    /// other kind of data change nothing.
    pub fn handle_rpc(
        &self,
        _addr: String,
        message_header: MessageHeader,
        buffer: Vec<u8>,
        replication_manager: &mut ReplicationManager,
    )
        ensures
            final(replication_manager)@ == old(replication_manager)@.handle_rpc(
                message_header.data_type(),
                buffer@,
            ),
            final(replication_manager).client_entities@ == old(
                replication_manager,
            ).client_entities@,
            old(replication_manager).wf() ==> final(replication_manager).wf(),
    {
        match message_header.get_data_type() {
            DataType::Rpc => {
                if buffer.len() >= RPC_WIDTH {
                    let ghost payload = buffer@;
                    let mut serializer = Serializer::new(buffer);
                    let net_id: u32 = serializer.read_u32();
                    let x: u32 = serializer.read_u32();
                    let y: u32 = serializer.read_u32();
                    let ghost before = replication_manager.replicated_nodes@;
                    let mut i: usize = 0;
                    while i < replication_manager.replicated_nodes.len()
                        invariant
                            i <= replication_manager.replicated_nodes@.len(),
                            replication_manager.replicated_nodes@.len() == before.len(),
                            replication_manager.client_entities@ == old(
                                replication_manager,
                            ).client_entities@,
                            forall|j: int|
                                0 <= j < i ==> replication_manager.replicated_nodes@[j]
                                    == nodes_after_rpc(before, payload)[j],
                            forall|j: int|
                                i <= j < before.len() ==> replication_manager.replicated_nodes@[j]
                                    == before[j],
                            net_id == u32_from_le(payload),
                            x == u32_from_le(payload.skip(4)),
                            y == u32_from_le(payload.skip(8)),
                        decreases before.len() - i,
                    {
                        let replicated_node = replication_manager.replicated_nodes[i];
                        if replicated_node.net_id == net_id {
                            replication_manager.replicated_nodes.set(
                                i,
                                ReplicatedNode { x, y, ..replicated_node },
                            );
                        }
                        i += 1;
                    }
                }
            },
            DataType::Replication => {},
            DataType::NoData => {},
            DataType::Despawn => {},
        }
    }
}

} // verus!
