//! What one peer sends, the other understands: the frames that the server
//! builds lead the client to the server's state, and the frames that the
//! client builds lead the server to what the client asked for.

use vstd::prelude::*;
use crate::common::message_header::{
    decode, lemma_decode_encode, DataType, EnumError, MessageType,
};
use crate::common::serializer::{le_bytes_u32, lemma_u32_round_trip, u32_from_le};
use crate::game::connection_state::ConnectionState;
use crate::game::network_manager::{client_frame, ClientView, SceneChange};
use crate::game::player::GDPlayer;
use crate::server::replicated_node::{despawn_frame, replication_frame, ReplicatedNode};
use crate::server::server_view::ServerView;

verus! {

/// The client's copy of an authoritative node.
pub open spec fn mirror(node: ReplicatedNode) -> GDPlayer {
    GDPlayer {
        net_id: node.net_id,
        type_id: node.type_id,
        owner_id: node.owner_id,
        x: node.x,
        y: node.y,
    }
}

/// A `u32` written in front of other bytes is read back from the front, and
/// the other bytes follow it.
pub proof fn lemma_u32_in_front(value: u32, rest: Seq<u8>)
    ensures
        u32_from_le(le_bytes_u32(value) + rest) == value,
        (le_bytes_u32(value) + rest).skip(4) == rest,
        (le_bytes_u32(value) + rest).len() == rest.len() + 4,
{
    lemma_u32_round_trip(value);
}

/// The payload of a replication frame read field by field.
proof fn lemma_replication_payload(node: ReplicatedNode)
    ensures
        ({
            let payload = replication_frame(node).skip(1);
            &&& replication_frame(node).len() >= 17
            &&& decode(replication_frame(node)[0]) == Ok::<
                (MessageType, DataType),
                EnumError,
            >((MessageType::Data, DataType::Replication))
            &&& u32_from_le(payload) == node.net_id
            &&& u32_from_le(payload.skip(4)) == node.type_id
            &&& forall|other: GDPlayer|
                (#[trigger] other.with_state(payload.skip(8))).x == node.x && other.with_state(
                    payload.skip(8),
                ).y == node.y && other.with_state(payload.skip(8)).net_id == other.net_id
                    && other.with_state(payload.skip(8)).type_id == other.type_id
                    && other.with_state(payload.skip(8)).owner_id == if node.owner_id.is_some() {
                    node.owner_id
                } else {
                    other.owner_id
                }
        }),
{
    let owner = match node.owner_id {
        Some(owner) => le_bytes_u32(owner),
        None => Seq::<u8>::empty(),
    };
    let state = le_bytes_u32(node.x) + (le_bytes_u32(node.y) + owner);
    let tail = le_bytes_u32(node.type_id) + state;
    lemma_decode_encode(MessageType::Data, DataType::Replication);
    lemma_u32_in_front(node.net_id, tail);
    lemma_u32_in_front(node.type_id, state);
    lemma_u32_in_front(node.x, le_bytes_u32(node.y) + owner);
    lemma_u32_in_front(node.y, owner);
    match node.owner_id {
        Some(id) => {
            lemma_u32_in_front(id, Seq::<u8>::empty());
        },
        None => {},
    }
}

/// A client that handles the replication frame of a node that it has not
/// seen, of a type that its registry knows, holds an exact copy of the node
/// under the node's network id afterwards, and has spawned it once.
pub proof fn lemma_replication_frame_spawns_mirror(client: ClientView, node: ReplicatedNode)
    requires
        !client.replicated_nodes.contains_key(node.net_id),
        client.linking_context.knows(node.type_id),
    ensures
        client.handle_packet(replication_frame(node)).replicated_nodes
            == client.replicated_nodes.insert(node.net_id, mirror(node)),
        client.handle_packet(replication_frame(node)).scene_changes == client.scene_changes.push(
            SceneChange::Spawned(mirror(node)),
        ),
        client.handle_packet(replication_frame(node)).connection_timeout == 0,
{
    lemma_replication_payload(node);
}

/// A client that handles the replication frame of a node that it holds moves
/// its copy to the node's position, takes the node's owner if it has one,
/// and spawns nothing.
pub proof fn lemma_replication_frame_updates_mirror(client: ClientView, node: ReplicatedNode)
    requires
        client.replicated_nodes.contains_key(node.net_id),
    ensures
        ({
            let after = client.handle_packet(replication_frame(node));
            let held = client.replicated_nodes[node.net_id];
            let updated = GDPlayer {
                x: node.x,
                y: node.y,
                owner_id: if node.owner_id.is_some() {
                    node.owner_id
                } else {
                    held.owner_id
                },
                ..held
            };
            &&& after.replicated_nodes == client.replicated_nodes.insert(node.net_id, updated)
            &&& after.replicated_nodes.dom() == client.replicated_nodes.dom()
            &&& after.scene_changes == client.scene_changes.push(SceneChange::Updated(updated))
        }),
{
    lemma_replication_payload(node);
}

/// A client that handles the despawn frame of a node removes its copy of it
/// and nothing else; without a copy nothing but the idle time changes.
pub proof fn lemma_despawn_frame_removes_mirror(client: ClientView, net_id: u32)
    ensures
        client.handle_packet(despawn_frame(net_id)).replicated_nodes
            == client.replicated_nodes.remove(net_id),
        client.handle_packet(despawn_frame(net_id)).scene_changes == if client.replicated_nodes.contains_key(
            net_id,
        ) {
            client.scene_changes.push(SceneChange::Despawned(net_id))
        } else {
            client.scene_changes
        },
{
    lemma_decode_encode(MessageType::Data, DataType::Despawn);
    lemma_u32_in_front(net_id, Seq::<u8>::empty());
}

/// A client that handles the server's reply to a handshake is connected
/// under the network id of the session that the server opened.
pub proof fn lemma_hsk_reply_connects(client: ClientView, client_net_id: u32)
    ensures
        client.handle_packet(ServerView::hsk_reply(client_net_id)).connection_state
            == ConnectionState::Connected,
        client.handle_packet(ServerView::hsk_reply(client_net_id)).client_id == client_net_id,
{
    lemma_decode_encode(MessageType::Hsk, DataType::NoData);
    lemma_u32_in_front(client_net_id, Seq::<u8>::empty());
}

/// A server that handles the movement command of a client puts the node
/// that the command names at the position that the client gave, and changes
/// no other node.
pub proof fn lemma_movement_frame_moves_node(
    server: ServerView,
    address: String,
    net_id: u32,
    x: u32,
    y: u32,
    client_net_id: u32,
    player_net_id: u32,
    spawn_x: u32,
)
    ensures
        ({
            let frame = client_frame(MessageType::Data, ClientView::movement_payload(net_id, x, y));
            let after = server.poll(address, frame, client_net_id, player_net_id, spawn_x);
            &&& after.sessions == server.sessions
            &&& after.outbox == server.outbox
            &&& after.nodes.len() == server.nodes.len()
            &&& forall|i: int|
                0 <= i < server.nodes.len() ==> #[trigger] after.nodes[i] == if server.nodes[i].net_id
                    == net_id {
                    ReplicatedNode { x, y, ..server.nodes[i] }
                } else {
                    server.nodes[i]
                }
        }),
{
    lemma_decode_encode(MessageType::Data, DataType::Rpc);
    lemma_u32_in_front(net_id, le_bytes_u32(x) + le_bytes_u32(y));
    lemma_u32_in_front(x, le_bytes_u32(y));
    lemma_u32_in_front(y, Seq::<u8>::empty());
}

/// A server that handles the `Bye` of a leaving client ends the session
/// under the client's network id.
pub proof fn lemma_bye_frame_names_the_session(
    client: ClientView,
    server: ServerView,
    address: String,
    client_net_id: u32,
    player_net_id: u32,
    spawn_x: u32,
)
    ensures
        client.disconnect_socket(true).outbox.last() == client_frame(
            MessageType::Bye,
            le_bytes_u32(client.client_id),
        ),
        server.poll(
            address,
            client.disconnect_socket(true).outbox.last(),
            client_net_id,
            player_net_id,
            spawn_x,
        ) == server.handle_bye(le_bytes_u32(client.client_id)),
        u32_from_le(le_bytes_u32(client.client_id)) == client.client_id,
{
    lemma_decode_encode(MessageType::Bye, DataType::Rpc);
    lemma_u32_round_trip(client.client_id);
}

} // verus!
