//! The server as contracts see it: sessions, authoritative nodes and the
//! datagrams to send, with every handler as a function from state to state.

use vstd::prelude::*;
use crate::common::message_header::{decode, encode, DataType, MessageType};
use crate::common::serializer::{le_bytes_u32, u32_from_le};
use crate::server::replicated_node::{despawn_frame, replication_frame, ReplicatedNode};

verus! {

/// How many payload bytes a command holds: network id, `x` and `y`.
pub const RPC_WIDTH: usize = 12;

/// A session: the client's network id, the address that it speaks from and
/// the network ids of the entities that it owns.
pub struct SessionView {
    pub net_id: u32,
    pub address: String,
    pub possessed_entity: Seq<u32>,
}

/// A datagram to send.
pub struct DatagramView {
    pub address: String,
    pub data: Seq<u8>,
}

/// The server's state.
#[verifier::ext_equal]
pub struct ServerView {
    /// The sessions, oldest first.
    pub sessions: Seq<SessionView>,
    /// The authoritative nodes, oldest first.
    pub nodes: Seq<ReplicatedNode>,
    /// The datagrams to send, oldest first.
    pub outbox: Seq<DatagramView>,
}

/// One datagram with the same bytes for each session, in session order.
pub open spec fn broadcast_datagrams(sessions: Seq<SessionView>, data: Seq<u8>) -> Seq<
    DatagramView,
> {
    sessions.map_values(|session: SessionView| DatagramView { address: session.address, data })
}

/// The nodes after a command: the node with the network id that the payload
/// names stands at the position that the payload gives.
pub open spec fn nodes_after_rpc(nodes: Seq<ReplicatedNode>, payload: Seq<u8>) -> Seq<
    ReplicatedNode,
> {
    nodes.map_values(
        |node: ReplicatedNode|
            if node.net_id == u32_from_le(payload) {
                ReplicatedNode {
                    x: u32_from_le(payload.skip(4)),
                    y: u32_from_le(payload.skip(8)),
                    ..node
                }
            } else {
                node
            },
    )
}

impl ServerView {
    /// No network id stands for two sessions or for two nodes.
    pub open spec fn wf(self) -> bool {
        &&& forall|i: int, j: int|
            0 <= i < j < self.sessions.len() ==> self.sessions[i].net_id != self.sessions[j].net_id
        &&& forall|i: int, j: int|
            0 <= i < j < self.nodes.len() ==> self.nodes[i].net_id != self.nodes[j].net_id
    }

    /// Whether a session has this network id.
    pub open spec fn has_session(self, net_id: u32) -> bool {
        exists|i: int| 0 <= i < self.sessions.len() && self.sessions[i].net_id == net_id
    }

    /// Where the session with this network id stands.
    pub open spec fn session_index(self, net_id: u32) -> int {
        choose|i: int| 0 <= i < self.sessions.len() && self.sessions[i].net_id == net_id
    }

    /// Whether a node has this network id.
    pub open spec fn has_node(self, net_id: u32) -> bool {
        exists|i: int| 0 <= i < self.nodes.len() && self.nodes[i].net_id == net_id
    }

    /// Where the node with this network id stands.
    pub open spec fn node_index(self, net_id: u32) -> int {
        choose|i: int| 0 <= i < self.nodes.len() && self.nodes[i].net_id == net_id
    }

    /// Whether a network id is free: no session and no node has it.
    pub open spec fn is_fresh(self, net_id: u32) -> bool {
        !self.has_session(net_id) && !self.has_node(net_id)
    }

    /// One more datagram to send.
    pub open spec fn send_data(self, address: String, data: Seq<u8>) -> ServerView {
        ServerView { outbox: self.outbox.push(DatagramView { address, data }), ..self }
    }

    /// The same bytes to every session, in session order.
    pub open spec fn broadcast(self, data: Seq<u8>) -> ServerView {
        ServerView { outbox: self.outbox + broadcast_datagrams(self.sessions, data), ..self }
    }

    /// `Helo` is echoed to where it came from. No session comes of it.
    pub open spec fn handle_helo(self, address: String) -> ServerView {
        self.send_data(address, seq![encode(MessageType::Helo, DataType::NoData)])
    }

    /// `Ping` is echoed to where it came from.
    pub open spec fn handle_ping(self, address: String) -> ServerView {
        self.send_data(address, seq![encode(MessageType::Ping, DataType::NoData)])
    }

    /// The node that a new session owns: of type 0, at the given `x` and at
    /// `y` zero.
    pub open spec fn player_node(client_net_id: u32, player_net_id: u32, x: u32) -> ReplicatedNode {
        ReplicatedNode {
            net_id: player_net_id,
            type_id: 0,
            owner_id: Some(client_net_id),
            x,
            y: 0,
        }
    }

    /// The reply to a handshake: header and the client's new network id.
    pub open spec fn hsk_reply(client_net_id: u32) -> Seq<u8> {
        seq![encode(MessageType::Hsk, DataType::NoData)] + le_bytes_u32(client_net_id)
    }

    /// The handshake: a session for the address, one node that it owns, and
    /// the reply with the session's network id.
    pub open spec fn handle_hsk(
        self,
        address: String,
        client_net_id: u32,
        player_net_id: u32,
        x: u32,
    ) -> ServerView {
        ServerView {
            sessions: self.sessions.push(
                SessionView {
                    net_id: client_net_id,
                    address,
                    possessed_entity: seq![player_net_id],
                },
            ),
            nodes: self.nodes.push(ServerView::player_node(client_net_id, player_net_id, x)),
            outbox: self.outbox.push(
                DatagramView { address, data: ServerView::hsk_reply(client_net_id) },
            ),
        }
    }

    /// The end of one entity: if a node has this network id, every session is
    /// told and the node is removed; if none has, nothing changes.
    pub open spec fn destroy_entity(self, entity: u32) -> ServerView {
        if self.has_node(entity) {
            ServerView {
                nodes: self.nodes.remove(self.node_index(entity)),
                ..self.broadcast(despawn_frame(entity))
            }
        } else {
            self
        }
    }

    /// The end of several entities, one after the other.
    pub open spec fn destroy_entities(self, entities: Seq<u32>) -> ServerView
        decreases entities.len(),
    {
        if entities.len() == 0 {
            self
        } else {
            self.destroy_entities(entities.drop_last()).destroy_entity(entities.last())
        }
    }

    /// `Bye` from the session that the payload names: its entities end, each
    /// announced to every session, and the session is removed. A payload
    /// shorter than a network id and a network id that names no session
    /// change nothing.
    pub open spec fn handle_bye(self, payload: Seq<u8>) -> ServerView {
        if payload.len() < 4 || !self.has_session(u32_from_le(payload)) {
            self
        } else {
            let index = self.session_index(u32_from_le(payload));
            let emptied = self.destroy_entities(self.sessions[index].possessed_entity);
            ServerView { sessions: emptied.sessions.remove(index), ..emptied }
        }
    }

    /// A `Data` payload: a command of full width moves the node that it
    /// names; everything else changes nothing.
    pub open spec fn handle_rpc(self, data_type: DataType, payload: Seq<u8>) -> ServerView {
        if data_type == DataType::Rpc && payload.len() >= RPC_WIDTH {
            ServerView { nodes: nodes_after_rpc(self.nodes, payload), ..self }
        } else {
            self
        }
    }

    /// The replication frames of `nodes`, each to every session.
    pub open spec fn replicate(self, nodes: Seq<ReplicatedNode>) -> ServerView
        decreases nodes.len(),
    {
        if nodes.len() == 0 {
            self
        } else {
            self.replicate(nodes.drop_last()).broadcast(replication_frame(nodes.last()))
        }
    }

    /// The fixed tick: every node's replication frame to every session.
    pub open spec fn update_replication(self) -> ServerView {
        self.replicate(self.nodes)
    }

    /// Whether a datagram is handed on to the command dispatcher: it is if
    /// its header is valid and names `Data`.
    pub open spec fn forwards(packet: Seq<u8>) -> bool {
        packet.len() > 0 && decode(packet[0]) matches Ok((MessageType::Data, _))
    }

    /// One datagram, up to the command dispatcher. An empty datagram and one
    /// whose header names no message type change nothing. A handshake opens a
    /// session only where both ids drawn for it are free and differ.
    pub open spec fn dispatch(
        self,
        address: String,
        packet: Seq<u8>,
        client_net_id: u32,
        player_net_id: u32,
        x: u32,
    ) -> ServerView {
        if packet.len() == 0 {
            self
        } else {
            match decode(packet[0]) {
                Err(_) => self,
                Ok((message_type, _)) => match message_type {
                    MessageType::Helo => self.handle_helo(address),
                    MessageType::Hsk => if self.is_fresh(client_net_id) && self.is_fresh(
                        player_net_id,
                    ) && client_net_id != player_net_id {
                        self.handle_hsk(address, client_net_id, player_net_id, x)
                    } else {
                        self
                    },
                    MessageType::Ping => self.handle_ping(address),
                    MessageType::Data => self,
                    MessageType::Bye => self.handle_bye(packet.skip(1)),
                },
            }
        }
    }

    /// One datagram, through to the end: what `dispatch` does, and for a
    /// `Data` frame what the command dispatcher does.
    pub open spec fn poll(
        self,
        address: String,
        packet: Seq<u8>,
        client_net_id: u32,
        player_net_id: u32,
        x: u32,
    ) -> ServerView {
        if ServerView::forwards(packet) {
            self.handle_rpc(decode(packet[0]).unwrap().1, packet.skip(1))
        } else {
            self.dispatch(address, packet, client_net_id, player_net_id, x)
        }
    }
}

/// Whether a datagram with these bytes for this address was put into the
/// outbox at or after place `from`.
pub open spec fn sent_since(outbox: Seq<DatagramView>, from: int, address: String, data: Seq<u8>) -> bool {
    exists|j: int|
        from <= j < outbox.len() && #[trigger] outbox[j] == (DatagramView { address, data })
}

/// The end of one entity keeps ids unique and the sessions as they are,
/// removes the node with that id and no other, and, if there was such a
/// node, sends its despawn frame to every session and nothing else.
pub proof fn lemma_destroy_entity(server: ServerView, entity: u32)
    requires
        server.wf(),
    ensures
        ({
            let after = server.destroy_entity(entity);
            &&& after.wf()
            &&& after.sessions == server.sessions
            &&& forall|id: u32| after.has_node(id) <==> server.has_node(id) && id != entity
            &&& after.outbox == if server.has_node(entity) {
                server.outbox + broadcast_datagrams(server.sessions, despawn_frame(entity))
            } else {
                server.outbox
            }
        }),
{
    let after = server.destroy_entity(entity);
    if server.has_node(entity) {
        let index = server.node_index(entity);
        assert forall|id: u32| after.has_node(id) <==> server.has_node(id) && id != entity by {
            if after.has_node(id) {
                let i = choose|i: int| 0 <= i < after.nodes.len() && after.nodes[i].net_id == id;
                let place = if i < index {
                    i
                } else {
                    i + 1
                };
                assert(server.nodes[place].net_id == id);
            }
            if server.has_node(id) && id != entity {
                let i = choose|i: int| 0 <= i < server.nodes.len() && server.nodes[i].net_id == id;
                let kept = if i < index {
                    i
                } else {
                    i - 1
                };
                assert(after.nodes[kept].net_id == id);
            }
        }
    }
}

/// The end of several entities keeps ids unique and the sessions as they
/// are, keeps what was in the outbox, removes exactly the nodes that are
/// named, and sends the despawn frame of every named entity that had a node
/// to every session.
pub proof fn lemma_destroy_entities(server: ServerView, entities: Seq<u32>)
    requires
        server.wf(),
    ensures
        ({
            let after = server.destroy_entities(entities);
            &&& after.wf()
            &&& after.sessions == server.sessions
            &&& server.outbox.len() <= after.outbox.len()
            &&& after.outbox.take(server.outbox.len() as int) == server.outbox
            &&& forall|id: u32| after.has_node(id) <==> server.has_node(id) && !entities.contains(id)
            &&& forall|k: int, i: int|
                #![trigger entities[k], server.sessions[i]]
                0 <= k < entities.len() && server.has_node(entities[k]) && 0 <= i
                    < server.sessions.len() ==> sent_since(
                    after.outbox,
                    server.outbox.len() as int,
                    server.sessions[i].address,
                    despawn_frame(entities[k]),
                )
        }),
    decreases entities.len(),
{
    let after = server.destroy_entities(entities);
    if entities.len() == 0 {
        assert(after.outbox.take(server.outbox.len() as int) =~= server.outbox);
    } else {
        let front = entities.drop_last();
        let last = entities.last();
        let middle = server.destroy_entities(front);
        lemma_destroy_entities(server, front);
        lemma_destroy_entity(middle, last);
        assert(after.outbox.take(server.outbox.len() as int) =~= server.outbox);
        assert forall|id: u32| after.has_node(id) <==> server.has_node(id) && !entities.contains(
            id,
        ) by {
            if entities.contains(id) {
                let k = choose|k: int| 0 <= k < entities.len() && entities[k] == id;
                if k < front.len() {
                    assert(front[k] == id);
                }
            }
            if front.contains(id) {
                let k = choose|k: int| 0 <= k < front.len() && front[k] == id;
                assert(entities[k] == id);
            }
            if id == last {
                assert(entities[entities.len() - 1] == id);
            }
        }
        assert forall|k: int, i: int|
            #![trigger entities[k], server.sessions[i]]
            0 <= k < entities.len() && server.has_node(entities[k]) && 0 <= i
                < server.sessions.len() implies sent_since(
            after.outbox,
            server.outbox.len() as int,
            server.sessions[i].address,
            despawn_frame(entities[k]),
        ) by {
            let wanted = DatagramView {
                address: server.sessions[i].address,
                data: despawn_frame(entities[k]),
            };
            let in_front = exists|m: int| 0 <= m < front.len() && front[m] == entities[k];
            if in_front {
                let m = choose|m: int| 0 <= m < front.len() && front[m] == entities[k];
                assert(front[m] == entities[m]);
                assert(sent_since(
                    middle.outbox,
                    server.outbox.len() as int,
                    server.sessions[i].address,
                    despawn_frame(front[m]),
                ));
                let j = choose|j: int|
                    server.outbox.len() <= j < middle.outbox.len() && #[trigger] middle.outbox[j]
                        == wanted;
                assert(after.outbox[j] == wanted);
            } else {
                if k < front.len() {
                    assert(front[k] == entities[k]);
                }
                assert(k == entities.len() - 1);
                assert(!front.contains(last));
                assert(middle.has_node(last));
                let j = middle.outbox.len() + i;
                assert(broadcast_datagrams(middle.sessions, despawn_frame(last))[i] == wanted);
                assert(after.outbox[j] == wanted);
            }
        }
    }
}

/// `Bye` from a known session: the session is removed and no other; every
/// entity that it owned is gone and no other node is; for every owned entity
/// that had a node, every session (so every other session too) was sent its
/// despawn frame; ids stay unique; and the same `Bye` once more changes
/// nothing.
pub proof fn lemma_bye_ends_session(server: ServerView, payload: Seq<u8>)
    requires
        server.wf(),
        payload.len() >= 4,
        server.has_session(u32_from_le(payload)),
    ensures
        ({
            let net_id = u32_from_le(payload);
            let index = server.session_index(net_id);
            let owned = server.sessions[index].possessed_entity;
            let after = server.handle_bye(payload);
            &&& after.wf()
            &&& after.sessions == server.sessions.remove(index)
            &&& !after.has_session(net_id)
            &&& forall|id: u32| after.has_node(id) <==> server.has_node(id) && !owned.contains(id)
            &&& after.outbox.take(server.outbox.len() as int) == server.outbox
            &&& forall|k: int, i: int|
                #![trigger owned[k], server.sessions[i]]
                0 <= k < owned.len() && server.has_node(owned[k]) && 0 <= i < server.sessions.len()
                    ==> sent_since(
                    after.outbox,
                    server.outbox.len() as int,
                    server.sessions[i].address,
                    despawn_frame(owned[k]),
                )
            &&& after.handle_bye(payload) == after
        }),
{
    let net_id = u32_from_le(payload);
    let index = server.session_index(net_id);
    let owned = server.sessions[index].possessed_entity;
    let emptied = server.destroy_entities(owned);
    let after = server.handle_bye(payload);
    lemma_destroy_entities(server, owned);
    assert(!after.has_session(net_id)) by {
        if after.has_session(net_id) {
            let i = choose|i: int| 0 <= i < after.sessions.len() && after.sessions[i].net_id == net_id;
            let place = if i < index {
                i
            } else {
                i + 1
            };
            assert(server.sessions[place].net_id == net_id);
        }
    }
    assert forall|id: u32| after.has_node(id) <==> server.has_node(id) && !owned.contains(id) by {
        assert(after.nodes == emptied.nodes);
        assert(after.has_node(id) == emptied.has_node(id));
    }
}

/// `Bye` for a network id that names no session changes nothing.
pub proof fn lemma_unknown_bye_is_no_op(server: ServerView, payload: Seq<u8>)
    requires
        payload.len() < 4 || !server.has_session(u32_from_le(payload)),
    ensures
        server.handle_bye(payload) == server,
{
}

/// A command moves the node that it names and no other, keeps every network
/// id, type and owner, and keeps ids unique. It asks for no owner.
pub proof fn lemma_rpc_moves_named_node(server: ServerView, payload: Seq<u8>)
    requires
        payload.len() >= RPC_WIDTH,
    ensures
        ({
            let after = server.handle_rpc(DataType::Rpc, payload);
            &&& after.sessions == server.sessions
            &&& after.outbox == server.outbox
            &&& after.nodes.len() == server.nodes.len()
            &&& forall|i: int|
                0 <= i < server.nodes.len() ==> {
                    &&& (#[trigger] after.nodes[i]).net_id == server.nodes[i].net_id
                    &&& after.nodes[i].type_id == server.nodes[i].type_id
                    &&& after.nodes[i].owner_id == server.nodes[i].owner_id
                    &&& server.nodes[i].net_id == u32_from_le(payload) ==> after.nodes[i].x
                        == u32_from_le(payload.skip(4)) && after.nodes[i].y == u32_from_le(
                        payload.skip(8),
                    )
                    &&& server.nodes[i].net_id != u32_from_le(payload) ==> after.nodes[i]
                        == server.nodes[i]
                }
            &&& server.wf() ==> after.wf()
        }),
{
}

/// A command for a network id that no node has changes nothing.
pub proof fn lemma_unknown_rpc_is_no_op(server: ServerView, data_type: DataType, payload: Seq<u8>)
    requires
        !server.has_node(u32_from_le(payload)),
    ensures
        server.handle_rpc(data_type, payload) == server,
{
    assert(nodes_after_rpc(server.nodes, payload) =~= server.nodes);
}

/// The replication tick changes neither sessions nor nodes, keeps what was
/// in the outbox, and adds one datagram for every pair of a node and a
/// session.
pub proof fn lemma_replicate_cost(server: ServerView, nodes: Seq<ReplicatedNode>)
    ensures
        server.replicate(nodes).sessions == server.sessions,
        server.replicate(nodes).nodes == server.nodes,
        server.replicate(nodes).outbox.len() == server.outbox.len() + nodes.len()
            * server.sessions.len(),
        server.replicate(nodes).outbox.take(server.outbox.len() as int) == server.outbox,
        forall|n: int, i: int|
            #![trigger nodes[n], server.sessions[i]]
            0 <= n < nodes.len() && 0 <= i < server.sessions.len() ==> server.replicate(
                nodes,
            ).outbox[server.outbox.len() + n * server.sessions.len() + i] == (DatagramView {
                address: server.sessions[i].address,
                data: replication_frame(nodes[n]),
            }),
    decreases nodes.len(),
{
    let after = server.replicate(nodes);
    let width = server.sessions.len() as int;
    if nodes.len() == 0 {
        assert(after.outbox.take(server.outbox.len() as int) =~= server.outbox);
    } else {
        let front = nodes.drop_last();
        let middle = server.replicate(front);
        lemma_replicate_cost(server, front);
        assert(front.len() * width + width == nodes.len() * width) by (nonlinear_arith)
            requires
                front.len() + 1 == nodes.len(),
        ;
        assert(after.outbox.take(server.outbox.len() as int) =~= server.outbox);
        assert forall|n: int, i: int|
            #![trigger nodes[n], server.sessions[i]]
            0 <= n < nodes.len() && 0 <= i < server.sessions.len() implies after.outbox[server.outbox.len()
                + n * server.sessions.len() + i] == (DatagramView {
            address: server.sessions[i].address,
            data: replication_frame(nodes[n]),
        }) by {
            if n < front.len() {
                assert(n * width + i < front.len() * width) by (nonlinear_arith)
                    requires
                        0 <= n < front.len(),
                        0 <= i < width,
                ;
                assert(front[n] == nodes[n]);
                assert(middle.outbox[server.outbox.len() + n * width + i] == (DatagramView {
                    address: server.sessions[i].address,
                    data: replication_frame(front[n]),
                }));
            } else {
                assert(n == front.len());
                assert(broadcast_datagrams(middle.sessions, replication_frame(nodes.last()))[i]
                    == (DatagramView {
                    address: server.sessions[i].address,
                    data: replication_frame(nodes[n]),
                }));
                assert(after.outbox[middle.outbox.len() + i] == broadcast_datagrams(
                    middle.sessions,
                    replication_frame(nodes.last()),
                )[i]);
            }
        }
    }
}

/// Whatever datagram arrives and whatever ids are drawn for a handshake, the
/// network ids of sessions and of nodes stay unique.
pub proof fn lemma_poll_keeps_ids_unique(
    server: ServerView,
    address: String,
    packet: Seq<u8>,
    client_net_id: u32,
    player_net_id: u32,
    x: u32,
)
    requires
        server.wf(),
    ensures
        server.dispatch(address, packet, client_net_id, player_net_id, x).wf(),
        server.poll(address, packet, client_net_id, player_net_id, x).wf(),
        server.update_replication().wf(),
{
    lemma_replicate_cost(server, server.nodes);
    if packet.len() > 0 {
        match decode(packet[0]) {
            Ok((message_type, data_type)) => {
                if message_type == MessageType::Bye {
                    let payload = packet.skip(1);
                    if payload.len() >= 4 && server.has_session(u32_from_le(payload)) {
                        lemma_bye_ends_session(server, payload);
                    }
                }
                if message_type == MessageType::Data && data_type == DataType::Rpc
                    && packet.skip(1).len() >= RPC_WIDTH {
                    lemma_rpc_moves_named_node(server, packet.skip(1));
                }
            },
            Err(_) => {},
        }
    }
}

} // verus!
