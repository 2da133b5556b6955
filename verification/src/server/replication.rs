//! The end of an entity and the replication tick.

use vstd::prelude::*;
use crate::server::network_manager::{server_view, NetworkManager};
use crate::server::replication_manager::ReplicationManager;

verus! {

/// The request to end the entity with this network id.
#[derive(Debug, Clone, Copy, PartialEq, Eq, Structural)]
pub struct DestroyEntity {
    pub entity: u32,
}

/// Ends an entity: if a node has the network id, every session is sent its
/// despawn frame and the node is removed; if none has, nothing happens.
pub fn on_destroy_entity(
    event: DestroyEntity,
    network_manager: &mut NetworkManager,
    replication_manager: &mut ReplicationManager,
)
    requires
        old(replication_manager).wf(),
    ensures
        server_view(final(network_manager), final(replication_manager)) == server_view(
            old(network_manager),
            old(replication_manager),
        ).destroy_entity(event.entity),
        final(replication_manager).client_entities@ == old(replication_manager).client_entities@,
        final(replication_manager).wf(),
        final(network_manager).address == old(network_manager).address,
{
    match replication_manager.find_node(event.entity) {
        Some(index) => {
            let replicated_node = replication_manager.replicated_nodes[index];
            let frame = replicated_node.despawn_frame();
            network_manager.broadcast(replication_manager, frame.as_slice());
            replication_manager.replicated_nodes.remove(index);
        },
        None => {},
    }
}

/// The replication tick: every node's replication frame goes to every
/// session, node by node and within a node session by session. The cost is
/// the number of nodes times the number of sessions.
pub fn update_replication(
    network_manager: &mut NetworkManager,
    replication_manager: &ReplicationManager,
)
    ensures
        server_view(final(network_manager), replication_manager) == server_view(
            old(network_manager),
            replication_manager,
        ).update_replication(),
        final(network_manager).address == old(network_manager).address,
{
    let ghost start = server_view(network_manager, replication_manager);
    let mut i: usize = 0;
    while i < replication_manager.replicated_nodes.len()
        invariant
            i <= replication_manager.replicated_nodes@.len(),
            start.sessions == replication_manager@.sessions,
            start.nodes == replication_manager@.nodes,
            server_view(network_manager, replication_manager) == start.replicate(
                start.nodes.take(i as int),
            ),
            network_manager.address == old(network_manager).address,
        decreases replication_manager.replicated_nodes@.len() - i,
    {
        let frame = replication_manager.replicated_nodes[i].replication_frame();
        network_manager.broadcast(replication_manager, frame.as_slice());
        proof {
            assert(start.nodes.take(i + 1).drop_last() =~= start.nodes.take(i as int));
        }
        i += 1;
    }
    assert(start.nodes.take(i as int) =~= start.nodes);
}

} // verus!
