use net_sync::common::message_header::{DataType, MessageHeader, MessageType};
use net_sync::server::connected_client::ConnectedClient;
use net_sync::server::network_manager::{poll, Datagram, NetworkManager};
use net_sync::server::replicated_node::ReplicatedNode;
use net_sync::server::replication::{on_destroy_entity, update_replication, DestroyEntity};
use net_sync::server::replication_manager::{ClientEntityLink, ReplicationManager};
use net_sync::server::rpc_manager::RpcManager;

const SERVER_IP: &str = "127.0.0.1:3630";

fn header(message_type: MessageType, data_type: DataType) -> u8 {
    MessageHeader::new(message_type, data_type).get_data()
}

fn frame(message_type: MessageType, data_type: DataType, fields: &[u32]) -> Vec<u8> {
    let mut bytes = vec![header(message_type, data_type)];
    for field in fields {
        bytes.extend_from_slice(&field.to_le_bytes());
    }
    bytes
}

fn from(address: &str, data: Vec<u8>) -> Datagram {
    Datagram {
        address: address.to_string(),
        data,
    }
}

fn sent(network_manager: &NetworkManager) -> Vec<(String, Vec<u8>)> {
    network_manager
        .outbox
        .iter()
        .map(|datagram| (datagram.address.clone(), datagram.data.clone()))
        .collect()
}

fn to(address: &str, data: Vec<u8>) -> (String, Vec<u8>) {
    (address.to_string(), data)
}

fn session_ids(replication_manager: &ReplicationManager) -> Vec<u32> {
    replication_manager
        .client_entities
        .iter()
        .map(|link| link.client.net_id)
        .collect()
}

fn node_ids(replication_manager: &ReplicationManager) -> Vec<u32> {
    replication_manager
        .replicated_nodes
        .iter()
        .map(|node| node.net_id)
        .collect()
}

/// A server with the sessions 100 (owning node 1) and 200 (owning node 2).
fn two_sessions() -> (NetworkManager, ReplicationManager) {
    let mut network_manager = NetworkManager::new(SERVER_IP);
    let mut replication_manager = ReplicationManager::new();
    network_manager.handle_hsk(
        "10.0.0.1:5000".to_string(),
        100,
        1,
        1.0f32.to_bits(),
        &mut replication_manager,
    );
    network_manager.handle_hsk(
        "10.0.0.2:5000".to_string(),
        200,
        2,
        2.0f32.to_bits(),
        &mut replication_manager,
    );
    network_manager.outbox.clear();
    (network_manager, replication_manager)
}

#[test]
fn new_server_has_nothing() {
    let network_manager = NetworkManager::new(SERVER_IP);
    let replication_manager = ReplicationManager::new();
    assert_eq!(network_manager.address, SERVER_IP);
    assert!(network_manager.outbox.is_empty());
    assert!(replication_manager.client_entities.is_empty());
    assert!(replication_manager.replicated_nodes.is_empty());
}

#[test]
fn helo_is_echoed_and_opens_no_session() {
    let mut network_manager = NetworkManager::new(SERVER_IP);
    let mut replication_manager = ReplicationManager::new();
    let forwarded = network_manager.dispatch(
        from("10.0.0.1:5000", frame(MessageType::Helo, DataType::Rpc, &[])),
        1,
        2,
        0,
        &mut replication_manager,
    );
    assert!(forwarded.is_none());
    assert_eq!(sent(&network_manager), vec![to("10.0.0.1:5000", vec![0])]);
    assert!(replication_manager.client_entities.is_empty());
    assert!(replication_manager.replicated_nodes.is_empty());
}

#[test]
fn ping_is_echoed() {
    let (mut network_manager, mut replication_manager) = two_sessions();
    let forwarded = network_manager.dispatch(
        from("10.0.0.9:1", frame(MessageType::Ping, DataType::Rpc, &[])),
        1,
        2,
        0,
        &mut replication_manager,
    );
    assert!(forwarded.is_none());
    assert_eq!(sent(&network_manager), vec![to("10.0.0.9:1", vec![8])]);
    assert_eq!(session_ids(&replication_manager), vec![100, 200]);
    assert_eq!(node_ids(&replication_manager), vec![1, 2]);
}

#[test]
fn handshake_opens_a_session_with_one_owned_node() {
    let (mut network_manager, mut replication_manager) = two_sessions();
    let forwarded = network_manager.dispatch(
        from("10.0.0.3:5000", frame(MessageType::Hsk, DataType::Rpc, &[])),
        0x0403_0201,
        77,
        (-12.5f32).to_bits(),
        &mut replication_manager,
    );
    assert!(forwarded.is_none());
    assert_eq!(session_ids(&replication_manager), vec![100, 200, 0x0403_0201]);
    let session = &replication_manager.client_entities[2];
    assert_eq!(session.client.address, "10.0.0.3:5000");
    assert_eq!(session.possessed_entity, vec![77]);
    assert_eq!(node_ids(&replication_manager), vec![1, 2, 77]);
    let node = replication_manager.replicated_nodes[2];
    assert_eq!(
        node,
        ReplicatedNode {
            net_id: 77,
            type_id: 0,
            owner_id: Some(0x0403_0201),
            x: (-12.5f32).to_bits(),
            y: 0,
        }
    );
    assert_eq!(f32::from_bits(node.y), 0.0);
    assert_eq!(
        sent(&network_manager),
        vec![to("10.0.0.3:5000", vec![4, 1, 2, 3, 4])]
    );
}

#[test]
fn handshake_with_a_live_id_opens_nothing() {
    for (client_net_id, player_net_id) in [(100, 77), (77, 1), (2, 77), (77, 200), (77, 77)] {
        let (mut network_manager, mut replication_manager) = two_sessions();
        network_manager.dispatch(
            from("10.0.0.3:5000", frame(MessageType::Hsk, DataType::NoData, &[])),
            client_net_id,
            player_net_id,
            0,
            &mut replication_manager,
        );
        assert_eq!(session_ids(&replication_manager), vec![100, 200]);
        assert_eq!(node_ids(&replication_manager), vec![1, 2]);
        assert!(network_manager.outbox.is_empty());
    }
}

#[test]
fn freshness_of_ids() {
    let (_, replication_manager) = two_sessions();
    assert!(!replication_manager.is_fresh(100));
    assert!(!replication_manager.is_fresh(200));
    assert!(!replication_manager.is_fresh(1));
    assert!(!replication_manager.is_fresh(2));
    assert!(replication_manager.is_fresh(0));
    assert!(replication_manager.is_fresh(3));
    assert_eq!(replication_manager.find_client(200), Some(1));
    assert_eq!(replication_manager.find_client(1), None);
    assert_eq!(replication_manager.find_node(2), Some(1));
    assert_eq!(replication_manager.find_node(100), None);
    assert!(replication_manager.has_unique_ids());
}

#[test]
fn polled_handshakes_get_distinct_random_ids() {
    let mut network_manager = NetworkManager::new(SERVER_IP);
    let mut replication_manager = ReplicationManager::new();
    let rpc_manager = RpcManager {};
    for i in 0..8 {
        poll(
            &mut network_manager,
            &mut replication_manager,
            &rpc_manager,
            Some(from(
                &format!("10.0.0.{}:5000", i),
                frame(MessageType::Hsk, DataType::Rpc, &[]),
            )),
            0,
        );
    }
    let sessions = session_ids(&replication_manager);
    let nodes = node_ids(&replication_manager);
    assert_eq!(sessions.len(), nodes.len());
    assert_eq!(sessions.len(), network_manager.outbox.len());
    assert!(sessions.len() >= 7);
    let mut all: Vec<u32> = sessions.iter().chain(nodes.iter()).copied().collect();
    all.sort();
    all.dedup();
    assert_eq!(all.len(), sessions.len() + nodes.len());
    for (i, datagram) in network_manager.outbox.iter().enumerate() {
        let mut expected = vec![4u8];
        expected.extend_from_slice(&sessions[i].to_le_bytes());
        assert_eq!(datagram.data, expected);
        assert_eq!(
            replication_manager.replicated_nodes[i].owner_id,
            Some(sessions[i])
        );
    }
}

#[test]
fn nothing_polled_changes_nothing() {
    let (mut network_manager, mut replication_manager) = two_sessions();
    let forwarded = network_manager.poll(None, 0, &mut replication_manager);
    assert!(forwarded.is_none());
    assert!(network_manager.outbox.is_empty());
    assert_eq!(session_ids(&replication_manager), vec![100, 200]);
}

#[test]
fn empty_and_unknown_datagrams_are_dropped_by_the_server() {
    let (mut network_manager, mut replication_manager) = two_sessions();
    for data in [vec![], vec![20], vec![0xff, 100, 0, 0, 0]] {
        let forwarded = network_manager.poll(
            Some(from("10.0.0.1:5000", data)),
            0,
            &mut replication_manager,
        );
        assert!(forwarded.is_none());
    }
    assert!(network_manager.outbox.is_empty());
    assert_eq!(session_ids(&replication_manager), vec![100, 200]);
    assert_eq!(node_ids(&replication_manager), vec![1, 2]);
}

#[test]
fn data_is_handed_on_with_header_and_payload() {
    let (mut network_manager, mut replication_manager) = two_sessions();
    let forwarded = network_manager.poll(
        Some(from(
            "10.0.0.2:5000",
            frame(MessageType::Data, DataType::Rpc, &[2, 3, 4]),
        )),
        0,
        &mut replication_manager,
    );
    let (address, message_header, payload) = forwarded.unwrap();
    assert_eq!(address, "10.0.0.2:5000");
    assert_eq!(message_header.get_data(), 13);
    assert_eq!(payload, vec![2, 0, 0, 0, 3, 0, 0, 0, 4, 0, 0, 0]);
    assert!(network_manager.outbox.is_empty());
    assert_eq!(replication_manager.replicated_nodes[1].x, 2.0f32.to_bits());
}

#[test]
fn bye_despawns_what_the_session_owned_and_removes_it() {
    let (mut network_manager, mut replication_manager) = two_sessions();
    network_manager.handle_hsk(
        "10.0.0.3:5000".to_string(),
        300,
        3,
        0,
        &mut replication_manager,
    );
    replication_manager.replicated_nodes.push(ReplicatedNode {
        net_id: 11,
        type_id: 0,
        owner_id: Some(100),
        x: 0,
        y: 0,
    });
    replication_manager.client_entities[0].possessed_entity.push(11);
    network_manager.outbox.clear();

    let bye = frame(MessageType::Bye, DataType::Rpc, &[100]);
    network_manager.dispatch(
        from("10.0.0.1:5000", bye.clone()),
        8,
        9,
        0,
        &mut replication_manager,
    );
    assert_eq!(session_ids(&replication_manager), vec![200, 300]);
    assert_eq!(node_ids(&replication_manager), vec![2, 3]);
    assert_eq!(
        sent(&network_manager),
        vec![
            to("10.0.0.1:5000", vec![15, 1, 0, 0, 0]),
            to("10.0.0.2:5000", vec![15, 1, 0, 0, 0]),
            to("10.0.0.3:5000", vec![15, 1, 0, 0, 0]),
            to("10.0.0.1:5000", vec![15, 11, 0, 0, 0]),
            to("10.0.0.2:5000", vec![15, 11, 0, 0, 0]),
            to("10.0.0.3:5000", vec![15, 11, 0, 0, 0]),
        ]
    );

    network_manager.outbox.clear();
    network_manager.dispatch(
        from("10.0.0.1:5000", bye),
        8,
        9,
        0,
        &mut replication_manager,
    );
    assert!(network_manager.outbox.is_empty());
    assert_eq!(session_ids(&replication_manager), vec![200, 300]);
    assert_eq!(node_ids(&replication_manager), vec![2, 3]);
}

#[test]
fn bye_skips_owned_ids_without_a_node() {
    let (mut network_manager, mut replication_manager) = two_sessions();
    replication_manager.client_entities[1].possessed_entity.push(55);
    network_manager.handle_bye(vec![200, 0, 0, 0], &mut replication_manager);
    assert_eq!(session_ids(&replication_manager), vec![100]);
    assert_eq!(node_ids(&replication_manager), vec![1]);
    assert_eq!(
        sent(&network_manager),
        vec![
            to("10.0.0.1:5000", vec![15, 2, 0, 0, 0]),
            to("10.0.0.2:5000", vec![15, 2, 0, 0, 0]),
        ]
    );
}

#[test]
fn bye_of_an_unknown_session_or_too_short_is_a_no_op() {
    let (mut network_manager, mut replication_manager) = two_sessions();
    network_manager.handle_bye(vec![1, 0, 0, 0], &mut replication_manager);
    network_manager.handle_bye(vec![100, 0, 0], &mut replication_manager);
    network_manager.handle_bye(vec![], &mut replication_manager);
    assert!(network_manager.outbox.is_empty());
    assert_eq!(session_ids(&replication_manager), vec![100, 200]);
    assert_eq!(node_ids(&replication_manager), vec![1, 2]);
}

#[test]
fn destroy_entity_tells_everyone_once() {
    let (mut network_manager, mut replication_manager) = two_sessions();
    on_destroy_entity(
        DestroyEntity { entity: 2 },
        &mut network_manager,
        &mut replication_manager,
    );
    on_destroy_entity(
        DestroyEntity { entity: 2 },
        &mut network_manager,
        &mut replication_manager,
    );
    on_destroy_entity(
        DestroyEntity { entity: 100 },
        &mut network_manager,
        &mut replication_manager,
    );
    assert_eq!(node_ids(&replication_manager), vec![1]);
    assert_eq!(session_ids(&replication_manager), vec![100, 200]);
    assert_eq!(
        sent(&network_manager),
        vec![
            to("10.0.0.1:5000", vec![15, 2, 0, 0, 0]),
            to("10.0.0.2:5000", vec![15, 2, 0, 0, 0]),
        ]
    );
}

#[test]
fn command_moves_the_named_node_whoever_sends_it() {
    let (_, mut replication_manager) = two_sessions();
    let rpc_manager = RpcManager {};
    rpc_manager.handle_rpc(
        "10.0.0.2:5000".to_string(),
        MessageHeader::new(MessageType::Data, DataType::Rpc),
        frame(
            MessageType::Data,
            DataType::Rpc,
            &[1, 7.5f32.to_bits(), (-8.25f32).to_bits()],
        )[1..]
            .to_vec(),
        &mut replication_manager,
    );
    let moved = replication_manager.replicated_nodes[0];
    assert_eq!(f32::from_bits(moved.x), 7.5);
    assert_eq!(f32::from_bits(moved.y), -8.25);
    assert_eq!(moved.net_id, 1);
    assert_eq!(moved.owner_id, Some(100));
    let other = replication_manager.replicated_nodes[1];
    assert_eq!(f32::from_bits(other.x), 2.0);
    assert_eq!(other.y, 0);
}

#[test]
fn command_for_an_unknown_node_or_too_short_changes_nothing() {
    let (_, mut replication_manager) = two_sessions();
    let before = replication_manager.replicated_nodes.clone();
    let rpc_manager = RpcManager {};
    let rpc = MessageHeader::new(MessageType::Data, DataType::Rpc);
    rpc_manager.handle_rpc(
        String::new(),
        rpc,
        vec![9, 0, 0, 0, 1, 1, 1, 1, 2, 2, 2, 2],
        &mut replication_manager,
    );
    rpc_manager.handle_rpc(
        String::new(),
        rpc,
        vec![1, 0, 0, 0, 1, 1, 1, 1, 2, 2, 2],
        &mut replication_manager,
    );
    rpc_manager.handle_rpc(String::new(), rpc, vec![], &mut replication_manager);
    assert_eq!(replication_manager.replicated_nodes, before);
}

#[test]
fn other_kinds_of_data_change_nothing_on_the_server() {
    let (_, mut replication_manager) = two_sessions();
    let before = replication_manager.replicated_nodes.clone();
    let rpc_manager = RpcManager {};
    for data_type in [DataType::NoData, DataType::Replication, DataType::Despawn] {
        rpc_manager.handle_rpc(
            String::new(),
            MessageHeader::new(MessageType::Data, data_type),
            vec![1, 0, 0, 0, 1, 1, 1, 1, 2, 2, 2, 2],
            &mut replication_manager,
        );
    }
    assert_eq!(replication_manager.replicated_nodes, before);
    assert_eq!(session_ids(&replication_manager), vec![100, 200]);
}

#[test]
fn polled_command_is_applied() {
    let (mut network_manager, mut replication_manager) = two_sessions();
    poll(
        &mut network_manager,
        &mut replication_manager,
        &RpcManager {},
        Some(from(
            "10.0.0.1:5000",
            frame(MessageType::Data, DataType::Rpc, &[2, 30, 40]),
        )),
        0,
    );
    assert_eq!(replication_manager.replicated_nodes[1].x, 30);
    assert_eq!(replication_manager.replicated_nodes[1].y, 40);
    assert!(network_manager.outbox.is_empty());
    poll(
        &mut network_manager,
        &mut replication_manager,
        &RpcManager {},
        None,
        0,
    );
    assert!(network_manager.outbox.is_empty());
}

#[test]
fn replication_tick_sends_every_node_to_every_session() {
    let (mut network_manager, mut replication_manager) = two_sessions();
    replication_manager.replicated_nodes.push(ReplicatedNode {
        net_id: 3,
        type_id: 5,
        owner_id: None,
        x: 6,
        y: 7,
    });
    update_replication(&mut network_manager, &replication_manager);
    let first = vec![14, 1, 0, 0, 0, 0, 0, 0, 0, 0, 0, 0x80, 0x3f, 0, 0, 0, 0, 100, 0, 0, 0];
    let second = vec![14, 2, 0, 0, 0, 0, 0, 0, 0, 0, 0, 0, 0x40, 0, 0, 0, 0, 200, 0, 0, 0];
    let third = vec![14, 3, 0, 0, 0, 5, 0, 0, 0, 6, 0, 0, 0, 7, 0, 0, 0];
    assert_eq!(
        sent(&network_manager),
        vec![
            to("10.0.0.1:5000", first.clone()),
            to("10.0.0.2:5000", first),
            to("10.0.0.1:5000", second.clone()),
            to("10.0.0.2:5000", second),
            to("10.0.0.1:5000", third.clone()),
            to("10.0.0.2:5000", third),
        ]
    );
    assert_eq!(node_ids(&replication_manager), vec![1, 2, 3]);
}

#[test]
fn replication_tick_without_sessions_or_nodes_sends_nothing() {
    let mut network_manager = NetworkManager::new(SERVER_IP);
    let mut replication_manager = ReplicationManager::new();
    update_replication(&mut network_manager, &replication_manager);
    assert!(network_manager.outbox.is_empty());
    replication_manager.replicated_nodes.push(ReplicatedNode {
        net_id: 3,
        type_id: 0,
        owner_id: None,
        x: 0,
        y: 0,
    });
    update_replication(&mut network_manager, &replication_manager);
    assert!(network_manager.outbox.is_empty());
}

#[test]
fn frames_of_a_node() {
    let node = ReplicatedNode {
        net_id: 0x0102_0304,
        type_id: 1,
        owner_id: Some(2),
        x: 3,
        y: 4,
    };
    assert_eq!(
        node.replication_frame(),
        vec![14, 4, 3, 2, 1, 1, 0, 0, 0, 3, 0, 0, 0, 4, 0, 0, 0, 2, 0, 0, 0]
    );
    assert_eq!(node.despawn_frame(), vec![15, 4, 3, 2, 1]);
}

#[test]
fn send_data_and_broadcast_queue_in_order() {
    let (mut network_manager, replication_manager) = two_sessions();
    network_manager.send_data(&"10.9.9.9:1".to_string(), &[1, 2]);
    network_manager.broadcast(&replication_manager, &[3]);
    assert_eq!(
        sent(&network_manager),
        vec![
            to("10.9.9.9:1", vec![1, 2]),
            to("10.0.0.1:5000", vec![3]),
            to("10.0.0.2:5000", vec![3]),
        ]
    );
}

#[test]
fn doubled_ids_are_found() {
    let (_, mut replication_manager) = two_sessions();
    replication_manager.register_node(ReplicatedNode {
        net_id: 3,
        type_id: 0,
        owner_id: None,
        x: 0,
        y: 0,
    });
    assert!(replication_manager.has_unique_ids());
    assert_eq!(node_ids(&replication_manager), vec![1, 2, 3]);
    replication_manager.replicated_nodes[2].net_id = 1;
    assert!(!replication_manager.has_unique_ids());
    replication_manager.replicated_nodes[2].net_id = 100;
    assert!(replication_manager.has_unique_ids());
    replication_manager.client_entities[1].client.net_id = 100;
    assert!(!replication_manager.has_unique_ids());
}

#[test]
fn new_link_owns_nothing() {
    let link = ClientEntityLink::new(ConnectedClient {
        net_id: 5,
        address: "a".to_string(),
    });
    assert_eq!(link.client.net_id, 5);
    assert_eq!(link.client.address, "a");
    assert!(link.possessed_entity.is_empty());
}
