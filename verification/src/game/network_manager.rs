//! The client's side of the protocol: the connection state machine, the
//! directory of replicated nodes, and the frames that the client sends.
//!
//! The manager owns no socket and no scene. Whoever drives it hands it the
//! datagrams that arrived and the time that passed; it records the frames to
//! send in `outbox` and what the scene has to show in `scene_changes`, in the
//! order in which they came about.

use vstd::prelude::*;
use vstd::slice::{slice_subrange, slice_to_vec};
use std::collections::HashMap;
use crate::game::connection_state::ConnectionState;
use crate::game::linking_context::{LinkingContext, PLAYER_SCENE};
use crate::common::message_header::{decode, encode, DataType, MessageHeader, MessageType};
use crate::game::player::GDPlayer;
use crate::common::serializer::{le_bytes_u32, u32_from_le, Serializer};

verus! {

broadcast use vstd::std_specs::hash::group_hash_axioms;

/// The idle window of a new client: 100 ms, in microseconds.
pub const DEFAULT_IDLE_TIMEOUT: u64 = 100_000;

/// How many pings a client sends into the silence before it gives up.
pub const MAX_PING_RETRIES: u32 = 3;

/// How many payload bytes a replication frame holds at least: network id,
/// type id, `x` and `y`.
pub const REPLICATION_WIDTH: usize = 16;

/// Something the scene has to follow.
#[derive(Debug, Clone, Copy, PartialEq, Eq, Structural)]
pub enum SceneChange {
    /// The connection changed state: the status display shows the new one.
    StateChanged(ConnectionState),
    /// A node was spawned, placed and registered under its network id.
    Spawned(GDPlayer),
    /// A registered node took new state in place.
    Updated(GDPlayer),
    /// The node under this network id was removed.
    Despawned(u32),
}

/// The client, as contracts see it.
#[verifier::ext_equal]
pub struct ClientView {
    pub connection_state: ConnectionState,
    pub connection_timeout: u64,
    pub idle_timeout: u64,
    pub ping_sent: u32,
    pub linking_context: LinkingContext,
    pub client_id: u32,
    pub replicated_nodes: Map<u32, GDPlayer>,
    pub player: Option<u32>,
    pub outbox: Seq<Seq<u8>>,
    pub scene_changes: Seq<SceneChange>,
}

/// The client's network manager. Times are in microseconds.
pub struct GDNetworkManager {
    pub connection_state: ConnectionState,
    /// Time without a valid frame or a timeout step.
    pub connection_timeout: u64,
    /// The idle window: the timeout step runs once more time than this has
    /// gone by.
    pub idle_timeout: u64,
    pub ping_sent: u32,
    pub linking_context: LinkingContext,
    /// The id that the server assigned; 0 while there is none.
    pub client_id: u32,
    pub replicated_nodes: HashMap<u32, GDPlayer>,
    /// The network id of the node spawned last.
    pub player: Option<u32>,
    /// The frames to send to the server, oldest first.
    pub outbox: Vec<Vec<u8>>,
    /// What the scene has to follow, oldest first.
    pub scene_changes: Vec<SceneChange>,
}

/// The contents of a list of frames.
pub open spec fn frames(outbox: Seq<Vec<u8>>) -> Seq<Seq<u8>> {
    outbox.map_values(|frame: Vec<u8>| frame@)
}

/// A frame as the client sends it: the header byte of the message type,
/// marked as a client command, then the payload.
pub open spec fn client_frame(message_type: MessageType, payload: Seq<u8>) -> Seq<u8> {
    seq![encode(message_type, DataType::Rpc)] + payload
}

impl ClientView {
    /// The accumulated idle time never exceeds the idle window.
    pub open spec fn wf(self) -> bool {
        self.connection_timeout <= self.idle_timeout
    }

    /// A client that has not done anything yet.
    pub open spec fn initial(idle_timeout: u64, linking_context: LinkingContext) -> ClientView {
        ClientView {
            connection_state: ConnectionState::NotConnected,
            connection_timeout: 0,
            idle_timeout,
            ping_sent: 0,
            linking_context,
            client_id: 0,
            replicated_nodes: Map::empty(),
            player: None,
            outbox: Seq::empty(),
            scene_changes: Seq::empty(),
        }
    }

    /// One more frame to send.
    pub open spec fn send_message(self, message_type: MessageType, payload: Seq<u8>) -> ClientView {
        ClientView { outbox: self.outbox.push(client_frame(message_type, payload)), ..self }
    }

    /// A transition: the state is set, the idle time starts anew, and the
    /// status display is told.
    pub open spec fn set_connection_state(self, state: ConnectionState) -> ClientView {
        ClientView {
            connection_state: state,
            connection_timeout: 0,
            scene_changes: self.scene_changes.push(SceneChange::StateChanged(state)),
            ..self
        }
    }

    /// The local teardown: the retry counter starts anew, a `Bye` with the
    /// client's id goes out if asked for, the state becomes `NotConnected`
    /// and the cached id is forgotten.
    pub open spec fn disconnect_socket(self, send_bye: bool) -> ClientView {
        let cleared = ClientView { ping_sent: 0, ..self };
        let told = if send_bye {
            cleared.send_message(MessageType::Bye, le_bytes_u32(self.client_id))
        } else {
            cleared
        };
        ClientView { client_id: 0, ..told.set_connection_state(ConnectionState::NotConnected) }
    }

    /// The timeout step.
    pub open spec fn handle_timeout(self) -> ClientView {
        let next = match self.connection_state {
            ConnectionState::NotConnected => self.send_message(MessageType::Helo, Seq::empty()),
            ConnectionState::Connecting => self.send_message(MessageType::Hsk, Seq::empty()),
            ConnectionState::Connected => self.set_connection_state(ConnectionState::Spurious),
            ConnectionState::Spurious => if self.ping_sent < MAX_PING_RETRIES {
                ClientView {
                    ping_sent: (self.ping_sent + 1) as u32,
                    ..self.send_message(MessageType::Ping, Seq::empty())
                }
            } else {
                self.disconnect_socket(false)
            },
        };
        ClientView { connection_timeout: 0, ..next }
    }

    /// Time goes by: the timeout step runs if the idle time has grown past
    /// the idle window, else the idle time grows.
    pub open spec fn advance(self, delta: u64) -> ClientView {
        if self.connection_timeout + delta > self.idle_timeout {
            self.handle_timeout()
        } else {
            ClientView { connection_timeout: (self.connection_timeout + delta) as u64, ..self }
        }
    }

    /// The node that a replication payload describes, newly spawned.
    pub open spec fn spawned_node(payload: Seq<u8>) -> GDPlayer {
        GDPlayer {
            net_id: u32_from_le(payload),
            ..GDPlayer::fresh(u32_from_le(payload.skip(4)))
        }.with_state(payload.skip(8))
    }

    /// A replication payload for a network id that is not registered: if the
    /// registry knows the type, a node is spawned, given its state and
    /// registered; if not, nothing changes.
    pub open spec fn spawn_replicated_node(self, payload: Seq<u8>) -> ClientView {
        let node = ClientView::spawned_node(payload);
        if self.linking_context.knows(node.type_id) {
            ClientView {
                replicated_nodes: self.replicated_nodes.insert(node.net_id, node),
                player: Some(node.net_id),
                scene_changes: self.scene_changes.push(SceneChange::Spawned(node)),
                ..self
            }
        } else {
            self
        }
    }

    /// A `Data` frame. One that is too short for its kind changes nothing;
    /// every other one starts the idle time anew.
    pub open spec fn handle_data(self, data_type: DataType, payload: Seq<u8>) -> ClientView {
        let kept_alive = ClientView { connection_timeout: 0, ..self };
        match data_type {
            DataType::NoData => kept_alive,
            DataType::Rpc => kept_alive,
            DataType::Replication => if payload.len() < REPLICATION_WIDTH {
                self
            } else {
                let net_id = u32_from_le(payload);
                if self.replicated_nodes.contains_key(net_id) {
                    let node = self.replicated_nodes[net_id].with_state(payload.skip(8));
                    ClientView {
                        replicated_nodes: self.replicated_nodes.insert(net_id, node),
                        scene_changes: self.scene_changes.push(SceneChange::Updated(node)),
                        ..kept_alive
                    }
                } else {
                    kept_alive.spawn_replicated_node(payload)
                }
            },
            DataType::Despawn => if payload.len() < 4 {
                self
            } else {
                let net_id = u32_from_le(payload);
                if self.replicated_nodes.contains_key(net_id) {
                    ClientView {
                        replicated_nodes: self.replicated_nodes.remove(net_id),
                        scene_changes: self.scene_changes.push(SceneChange::Despawned(net_id)),
                        ..kept_alive
                    }
                } else {
                    kept_alive
                }
            },
        }
    }

    /// One datagram from the server. An empty one, one whose header names no
    /// message type, and one that is too short for its kind change nothing.
    pub open spec fn handle_packet(self, packet: Seq<u8>) -> ClientView {
        if packet.len() == 0 {
            self
        } else {
            match decode(packet[0]) {
                Err(_) => self,
                Ok((message_type, data_type)) => {
                    let payload = packet.skip(1);
                    match message_type {
                        MessageType::Helo => self.set_connection_state(
                            ConnectionState::Connecting,
                        ),
                        MessageType::Hsk => if payload.len() < 4 {
                            self
                        } else {
                            ClientView {
                                client_id: u32_from_le(payload),
                                ..self.set_connection_state(ConnectionState::Connected)
                            }.send_message(MessageType::Data, Seq::empty())
                        },
                        MessageType::Ping => self.set_connection_state(ConnectionState::Connected),
                        MessageType::Data => self.handle_data(data_type, payload),
                        MessageType::Bye => self.disconnect_socket(false),
                    }
                },
            }
        }
    }

    /// Datagrams handled in the order in which they arrived.
    pub open spec fn handle_packets(self, packets: Seq<Seq<u8>>) -> ClientView
        decreases packets.len(),
    {
        if packets.len() == 0 {
            self
        } else {
            self.handle_packets(packets.drop_last()).handle_packet(packets.last())
        }
    }

    /// One step of the frame loop: all datagrams that arrived, then the
    /// passing of time.
    pub open spec fn process(self, packets: Seq<Seq<u8>>, delta: u64) -> ClientView {
        self.handle_packets(packets).advance(delta)
    }

    /// The timeout step, `count` times over.
    pub open spec fn timeouts(self, count: nat) -> ClientView
        decreases count,
    {
        if count == 0 {
            self
        } else {
            self.timeouts((count - 1) as nat).handle_timeout()
        }
    }

    /// The payload of a movement command: network id, `x`, `y`.
    pub open spec fn movement_payload(net_id: u32, x: u32, y: u32) -> Seq<u8> {
        le_bytes_u32(net_id) + le_bytes_u32(x) + le_bytes_u32(y)
    }
}

impl View for GDNetworkManager {
    type V = ClientView;

    open spec fn view(&self) -> ClientView {
        ClientView {
            connection_state: self.connection_state,
            connection_timeout: self.connection_timeout,
            idle_timeout: self.idle_timeout,
            ping_sent: self.ping_sent,
            linking_context: self.linking_context,
            client_id: self.client_id,
            replicated_nodes: self.replicated_nodes@,
            player: self.player,
            outbox: frames(self.outbox@),
            scene_changes: self.scene_changes@,
        }
    }
}

impl GDNetworkManager {
    /// A client that is not connected, with the default idle window and the
    /// player registered as type 0.
    pub fn init() -> (manager: Self)
        ensures
            manager@ == ClientView::initial(DEFAULT_IDLE_TIMEOUT, manager.linking_context),
            manager.linking_context.count() == 1,
            manager.linking_context.spawn_functions@[0]@ == PLAYER_SCENE@,
            manager@.wf(),
    {
        Self::with_idle_timeout(DEFAULT_IDLE_TIMEOUT, LinkingContext::new())
    }

    /// A client that is not connected, with an idle window and a spawn
    /// registry of the caller's choice.
    pub fn with_idle_timeout(idle_timeout: u64, linking_context: LinkingContext) -> (manager: Self)
        ensures
            manager@ == ClientView::initial(idle_timeout, linking_context),
            manager@.wf(),
    {
        GDNetworkManager {
            connection_state: ConnectionState::NotConnected,
            connection_timeout: 0,
            idle_timeout,
            ping_sent: 0,
            linking_context,
            client_id: 0,
            replicated_nodes: HashMap::new(),
            player: None,
            outbox: Vec::new(),
            scene_changes: Vec::new(),
        }
    }

    /// The transport is up: the first timeout step runs at once, so the first
    /// `Helo` goes out without waiting for the idle window.
    pub fn ready(&mut self)
        ensures
            final(self)@ == old(self)@.handle_timeout(),
    {
        self.handle_timeout();
    }

    /// The manager leaves the scene: the client tears down and tells the
    /// server.
    pub fn exit_tree(&mut self)
        ensures
            final(self)@ == old(self)@.disconnect_socket(true),
    {
        self.disconnect_socket(true);
    }

    /// One step of the frame loop: handles every datagram of `packets` in
    /// order, then lets `delta` microseconds go by.
    pub fn process(&mut self, packets: &Vec<Vec<u8>>, delta: u64)
        requires
            old(self)@.wf(),
        ensures
            final(self)@ == old(self)@.process(frames(packets@), delta),
            final(self)@.wf(),
    {
        let mut i: usize = 0;
        while i < packets.len()
            invariant
                i <= packets@.len(),
                self@ == old(self)@.handle_packets(frames(packets@).take(i as int)),
                self@.wf(),
            decreases packets@.len() - i,
        {
            let ghost before = self@;
            self.handle_packet(packets[i].as_slice());
            proof {
                let done = frames(packets@).take(i + 1);
                assert(done.drop_last() =~= frames(packets@).take(i as int));
                lemma_packet_preserves_wf(before, packets@[i as int]@);
            }
            i += 1;
        }
        assert(frames(packets@).take(i as int) =~= frames(packets@));
        proof {
            lemma_advance_preserves_wf(self@, delta);
        }
        self.advance(delta);
    }

    /// Handles one datagram from the server. A handshake reply is
    /// acknowledged with an empty `Data` frame.
    pub fn handle_packet(&mut self, packet: &[u8])
        ensures
            final(self)@ == old(self)@.handle_packet(packet@),
    {
        if packet.len() == 0 {
            return ;
        }
        let message_header = MessageHeader::from_data(packet[0]);
        match message_header.decode() {
            Err(_) => {},
            Ok((message_type, _)) => {
                let payload = slice_subrange(packet, 1, packet.len());
                match message_type {
                    MessageType::Helo => self.set_connection_state(ConnectionState::Connecting),
                    MessageType::Hsk => {
                        if payload.len() >= 4 {
                            self.set_connection_state(ConnectionState::Connected);
                            let mut serializer = Serializer::new(slice_to_vec(payload));
                            self.client_id = serializer.read_u32();
                            let mut buffer: Vec<u8> = Vec::new();
                            self.send_message(MessageType::Data, &mut buffer);
                        }
                    },
                    MessageType::Ping => self.set_connection_state(ConnectionState::Connected),
                    MessageType::Data => self.handle_data(message_header, payload),
                    MessageType::Bye => self.disconnect_socket(false),
                }
            },
        }
    }

    /// Lets `delta` microseconds go by.
    pub fn advance(&mut self, delta: u64)
        requires
            old(self)@.wf(),
        ensures
            final(self)@ == old(self)@.advance(delta),
    {
        if delta > self.idle_timeout - self.connection_timeout {
            self.handle_timeout();
        } else {
            self.connection_timeout = self.connection_timeout + delta;
        }
    }

    /// Puts a frame of the given type and payload into the outbox. The
    /// payload is moved out of `buffer`, which is left empty.
    pub fn send_message(&mut self, message_type: MessageType, buffer: &mut Vec<u8>)
        ensures
            final(self)@ == old(self)@.send_message(message_type, old(buffer)@),
            final(buffer)@ == Seq::<u8>::empty(),
    {
        let mut message_content: Vec<u8> = Vec::new();
        message_content.push(MessageHeader::new(message_type, DataType::Rpc).get_data());
        message_content.append(buffer);
        self.outbox.push(message_content);
    }

    /// Sets the state, starts the idle time anew and tells the status
    /// display.
    pub fn set_connection_state(&mut self, connection_state: ConnectionState)
        ensures
            final(self)@ == old(self)@.set_connection_state(connection_state),
    {
        self.connection_state = connection_state;
        self.connection_timeout = 0;
        self.scene_changes.push(SceneChange::StateChanged(connection_state));
    }

    /// The timeout step: `Helo` while not connected, `Hsk` while connecting,
    /// `Spurious` after silence while connected, a `Ping` for each of the
    /// first three steps while spurious and the teardown after them.
    pub fn handle_timeout(&mut self)
        ensures
            final(self)@ == old(self)@.handle_timeout(),
    {
        match self.connection_state {
            ConnectionState::NotConnected => {
                let mut message: Vec<u8> = Vec::new();
                self.send_message(MessageType::Helo, &mut message);
            },
            ConnectionState::Connecting => {
                let mut message: Vec<u8> = Vec::new();
                self.send_message(MessageType::Hsk, &mut message);
            },
            ConnectionState::Connected => self.set_connection_state(ConnectionState::Spurious),
            ConnectionState::Spurious => {
                if self.ping_sent < MAX_PING_RETRIES {
                    let mut message: Vec<u8> = Vec::new();
                    self.send_message(MessageType::Ping, &mut message);
                    self.ping_sent += 1;
                } else {
                    self.disconnect_socket(false)
                }
            },
        }
        self.connection_timeout = 0;
    }

    /// Tears the connection down locally, and tells the server first if
    /// `send_bye` is set.
    pub fn disconnect_socket(&mut self, send_bye: bool)
        ensures
            final(self)@ == old(self)@.disconnect_socket(send_bye),
    {
        self.ping_sent = 0;
        if send_bye {
            let mut serializer = Serializer::new(Vec::new());
            serializer.write_u32(self.client_id);
            let mut message: Vec<u8> = serializer.buffer;
            self.send_message(MessageType::Bye, &mut message);
        }
        self.set_connection_state(ConnectionState::NotConnected);
        self.client_id = 0;
    }

    /// Handles the payload of a `Data` frame according to the data type of
    /// its header.
    pub fn handle_data(&mut self, message_header: MessageHeader, buffer: &[u8])
        ensures
            final(self)@ == old(self)@.handle_data(message_header.data_type(), buffer@),
    {
        match message_header.get_data_type() {
            DataType::NoData => {
                self.connection_timeout = 0;
            },
            DataType::Rpc => {
                self.connection_timeout = 0;
            },
            DataType::Replication => {
                if buffer.len() >= REPLICATION_WIDTH {
                    self.connection_timeout = 0;
                    let mut serializer = Serializer::new(slice_to_vec(buffer));
                    let net_id: u32 = serializer.read_u32();
                    match self.get_node_by_id(net_id) {
                        Some(replicated_node) => {
                            let state = slice_subrange(buffer, 8, buffer.len());
                            let node = self.linking_context.deserialize(
                                replicated_node,
                                slice_to_vec(state),
                            );
                            self.replicated_nodes.insert(net_id, node);
                            self.scene_changes.push(SceneChange::Updated(node));
                        },
                        None => self.spawn_replicated_node(buffer),
                    }
                }
            },
            DataType::Despawn => {
                if buffer.len() >= 4 {
                    self.connection_timeout = 0;
                    let mut serializer = Serializer::new(slice_to_vec(buffer));
                    let net_id: u32 = serializer.read_u32();
                    match self.replicated_nodes.remove(&net_id) {
                        Some(_) => {
                            self.scene_changes.push(SceneChange::Despawned(net_id));
                        },
                        None => {},
                    }
                }
            },
        }
    }

    /// The node registered under a network id, if there is one.
    pub fn get_node_by_id(&self, id: u32) -> (node: Option<GDPlayer>)
        ensures
            node == if self@.replicated_nodes.contains_key(id) {
                Some(self@.replicated_nodes[id])
            } else {
                None
            },
    {
        match self.replicated_nodes.get(&id) {
            Some(node) => Some(*node),
            None => None,
        }
    }

    /// Spawns the node that a replication payload describes and registers it
    /// under its network id. Nothing is spawned where the registry does not
    /// know the type.
    pub fn spawn_replicated_node(&mut self, buffer: &[u8])
        requires
            buffer@.len() >= REPLICATION_WIDTH,
        ensures
            final(self)@ == old(self)@.spawn_replicated_node(buffer@),
    {
        let mut serializer = Serializer::new(slice_to_vec(buffer));
        let net_id: u32 = serializer.read_u32();
        let class_id: u32 = serializer.read_u32();
        if !self.linking_context.resolves(class_id) {
            return ;
        }
        let mut player_node = self.linking_context.spawn(class_id as usize);
        player_node.net_id = net_id;
        let state = slice_subrange(buffer, 8, buffer.len());
        let player_node = self.linking_context.deserialize(player_node, slice_to_vec(state));
        self.player = Some(net_id);
        self.replicated_nodes.insert(net_id, player_node);
        self.scene_changes.push(SceneChange::Spawned(player_node));
    }

    /// Tells the server that a node moved: a `Data` frame with the node's
    /// network id and its new position.
    pub fn replicate_new_movement(&mut self, node: &GDPlayer, x: u32, y: u32)
        ensures
            final(self)@ == old(self)@.send_message(
                MessageType::Data,
                ClientView::movement_payload(node.net_id, x, y),
            ),
    {
        let mut serializer = Serializer::new(Vec::new());
        serializer.write_u32(node.net_id);
        serializer.write_u32(x);
        serializer.write_u32(y);
        let mut payload: Vec<u8> = serializer.buffer;
        self.send_message(MessageType::Data, &mut payload);
    }
}

/// Handling a datagram leaves the idle time inside the idle window.
pub proof fn lemma_packet_preserves_wf(client: ClientView, packet: Seq<u8>)
    requires
        client.wf(),
    ensures
        client.handle_packet(packet).wf(),
        client.handle_packet(packet).idle_timeout == client.idle_timeout,
{
}

/// The passing of time leaves the idle time inside the idle window.
pub proof fn lemma_advance_preserves_wf(client: ClientView, delta: u64)
    requires
        client.wf(),
    ensures
        client.advance(delta).wf(),
        client.advance(delta).idle_timeout == client.idle_timeout,
{
}

/// A `Helo` and then a handshake reply lead to `Connected`, with the id that
/// the reply carries cached as the client's own. This holds from
/// `NotConnected` and from every other state.
pub proof fn lemma_handshake_connects(client: ClientView, helo: Seq<u8>, hsk: Seq<u8>)
    requires
        helo.len() >= 1,
        decode(helo[0]) matches Ok((MessageType::Helo, _)),
        hsk.len() >= 5,
        decode(hsk[0]) matches Ok((MessageType::Hsk, _)),
    ensures
        client.handle_packet(helo).connection_state == ConnectionState::Connecting,
        client.handle_packet(helo).handle_packet(hsk).connection_state
            == ConnectionState::Connected,
        client.handle_packet(helo).handle_packet(hsk).client_id == u32_from_le(hsk.skip(1)),
{
}

/// Every transition starts the idle time anew and tells the status display.
pub proof fn lemma_transition_resets_idle_time(client: ClientView, state: ConnectionState)
    ensures
        client.set_connection_state(state).connection_state == state,
        client.set_connection_state(state).connection_timeout == 0,
        client.set_connection_state(state).scene_changes == client.scene_changes.push(
            SceneChange::StateChanged(state),
        ),
{
}

/// Where more time goes by than the idle window has room for, the timeout
/// step runs.
pub proof fn lemma_idle_window_elapses(client: ClientView, delta: u64)
    requires
        client.wf(),
        delta > client.idle_timeout - client.connection_timeout,
    ensures
        client.advance(delta) == client.handle_timeout(),
{
}

/// A connected client that has sent no ping yet and hears nothing: the first
/// timeout step makes it `Spurious` and sends nothing, each of the next three
/// sends exactly one `Ping`, and the fifth tears the connection down without
/// a `Bye`, forgets the client id and sends nothing more.
pub proof fn lemma_silence_disconnects(client: ClientView)
    requires
        client.connection_state == ConnectionState::Connected,
        client.ping_sent == 0,
    ensures
        client.timeouts(1).connection_state == ConnectionState::Spurious,
        client.timeouts(1).outbox == client.outbox,
        forall|k: nat|
            1 <= k <= 3 ==> {
                &&& (#[trigger] client.timeouts(1 + k)).connection_state
                    == ConnectionState::Spurious
                &&& client.timeouts(1 + k).ping_sent == k
                &&& client.timeouts(1 + k).outbox == client.timeouts(k).outbox.push(
                    client_frame(MessageType::Ping, Seq::empty()),
                )
            },
        client.timeouts(5).connection_state == ConnectionState::NotConnected,
        client.timeouts(5).outbox == client.timeouts(4).outbox,
        client.timeouts(5).outbox.len() == client.outbox.len() + 3,
        client.timeouts(5).client_id == 0,
        client.timeouts(5).ping_sent == 0,
{
    reveal_with_fuel(ClientView::timeouts, 6);
}

/// A replication frame for a network id that is not registered spawns exactly
/// one node of a known type, at the position that the frame gives, and
/// registers it under that id; a second frame for the same id gives the node
/// its new position in place and spawns nothing.
pub proof fn lemma_replication_spawns_once(client: ClientView, first: Seq<u8>, second: Seq<u8>)
    requires
        first.len() >= REPLICATION_WIDTH,
        second.len() >= REPLICATION_WIDTH,
        u32_from_le(first) == u32_from_le(second),
        !client.replicated_nodes.contains_key(u32_from_le(first)),
        client.linking_context.knows(u32_from_le(first.skip(4))),
    ensures
        ({
            let net_id = u32_from_le(first);
            let spawned = client.handle_data(DataType::Replication, first);
            let updated = spawned.handle_data(DataType::Replication, second);
            let node = spawned.replicated_nodes[net_id];
            &&& spawned.replicated_nodes == client.replicated_nodes.insert(net_id, node)
            &&& node.net_id == net_id
            &&& node.type_id == u32_from_le(first.skip(4))
            &&& node.x == u32_from_le(first.skip(8))
            &&& node.y == u32_from_le(first.skip(8).skip(4))
            &&& spawned.scene_changes == client.scene_changes.push(SceneChange::Spawned(node))
            &&& updated.replicated_nodes.dom() == spawned.replicated_nodes.dom()
            &&& updated.replicated_nodes[net_id].net_id == net_id
            &&& updated.replicated_nodes[net_id].type_id == node.type_id
            &&& updated.replicated_nodes[net_id].x == u32_from_le(second.skip(8))
            &&& updated.replicated_nodes[net_id].y == u32_from_le(second.skip(8).skip(4))
            &&& updated.scene_changes == spawned.scene_changes.push(
                SceneChange::Updated(updated.replicated_nodes[net_id]),
            )
        }),
{
}

/// A despawn for a network id that is not registered changes nothing but the
/// idle time, and so does a command frame.
pub proof fn lemma_unknown_despawn_is_no_op(client: ClientView, payload: Seq<u8>)
    requires
        payload.len() >= 4,
        !client.replicated_nodes.contains_key(u32_from_le(payload)),
    ensures
        client.handle_data(DataType::Despawn, payload) == (ClientView {
            connection_timeout: 0,
            ..client
        }),
        client.handle_data(DataType::Rpc, payload) == (ClientView {
            connection_timeout: 0,
            ..client
        }),
{
}

/// The retry counter is not started anew when a `Ping` brings a spurious
/// client back. A connected client that has `ping_sent` pings behind it and
/// hears nothing becomes `Spurious`, sends one `Ping` on each of the next
/// `3 - ping_sent` timeout steps, and is torn down on the step after them.
pub proof fn lemma_silence_uses_up_the_retries(client: ClientView)
    requires
        client.connection_state == ConnectionState::Connected,
        client.ping_sent <= MAX_PING_RETRIES,
    ensures
        ({
            let left = (MAX_PING_RETRIES - client.ping_sent) as nat;
            &&& client.timeouts(1).connection_state == ConnectionState::Spurious
            &&& client.timeouts(1).outbox == client.outbox
            &&& forall|k: nat|
                1 <= k <= left ==> {
                    &&& (#[trigger] client.timeouts(1 + k)).connection_state
                        == ConnectionState::Spurious
                    &&& client.timeouts(1 + k).outbox == client.timeouts(k).outbox.push(
                        client_frame(MessageType::Ping, Seq::empty()),
                    )
                }
            &&& client.timeouts(1 + left).outbox.len() == client.outbox.len() + left
            &&& client.timeouts(2 + left).connection_state == ConnectionState::NotConnected
            &&& client.timeouts(2 + left).outbox == client.timeouts(1 + left).outbox
        }),
{
    reveal_with_fuel(ClientView::timeouts, 6);
    assert(client.timeouts(1 + 3) == client.timeouts(4));
}

/// A frame of the handshake that arrives twice does no harm: the second
/// `Helo` leaves the client connecting, the second reply leaves it connected
/// under the same id, and neither touches the replicated nodes.
pub proof fn lemma_duplicate_handshake_frames(client: ClientView, helo: Seq<u8>, hsk: Seq<u8>)
    requires
        helo.len() >= 1,
        decode(helo[0]) matches Ok((MessageType::Helo, _)),
        hsk.len() >= 5,
        decode(hsk[0]) matches Ok((MessageType::Hsk, _)),
    ensures
        ({
            let once = client.handle_packet(helo);
            let twice = once.handle_packet(helo);
            &&& twice.connection_state == once.connection_state
            &&& twice.client_id == once.client_id
            &&& twice.outbox == once.outbox
            &&& twice.replicated_nodes == client.replicated_nodes
        }),
        ({
            let once = client.handle_packet(hsk);
            let twice = once.handle_packet(hsk);
            &&& twice.connection_state == once.connection_state
            &&& twice.client_id == once.client_id
            &&& twice.replicated_nodes == client.replicated_nodes
        }),
{
}

} // verus!
