//! The server's handlers for the datagrams of the handshake and of the end
//! of a session.
//!
//! The manager owns no socket. Whoever drives it hands it each datagram that
//! arrived and sends what it finds in `outbox`, oldest first.

use vstd::prelude::*;
use vstd::slice::{slice_subrange, slice_to_vec};
use crate::common::message_header::{
    decode, encode, lemma_decode_encode, DataType, EnumError, MessageHeader, MessageType,
};
use crate::common::serializer::{lemma_u32_round_trip, u32_from_le, Serializer};
use crate::server::connected_client::ConnectedClient;
use crate::server::network_id::random_network_id;
use crate::server::replicated_node::ReplicatedNode;
use crate::server::replication::{on_destroy_entity, DestroyEntity};
use crate::server::replication_manager::{ClientEntityLink, ReplicationManager};
use crate::server::rpc_manager::RpcManager;
use crate::server::server_view::{broadcast_datagrams, DatagramView, ServerView};

verus! {

/// A datagram: where it goes to or came from, and its bytes.
pub struct Datagram {
    pub address: String,
    pub data: Vec<u8>,
}

impl View for Datagram {
    type V = DatagramView;

    open spec fn view(&self) -> DatagramView {
        DatagramView { address: self.address, data: self.data@ }
    }
}

/// The contents of a list of datagrams.
pub open spec fn datagrams(outbox: Seq<Datagram>) -> Seq<DatagramView> {
    outbox.map_values(|datagram: Datagram| datagram@)
}

/// The server's network manager.
pub struct NetworkManager {
    /// The address that the server is bound to.
    pub address: String,
    /// The datagrams to send, oldest first.
    pub outbox: Vec<Datagram>,
}

/// What the manager has to send.
impl View for NetworkManager {
    type V = Seq<DatagramView>;

    open spec fn view(&self) -> Seq<DatagramView> {
        datagrams(self.outbox@)
    }
}

/// The server as a whole: the registry together with what is to be sent.
pub open spec fn server_view(
    network_manager: &NetworkManager,
    replication_manager: &ReplicationManager,
) -> ServerView {
    ServerView { outbox: network_manager@, ..replication_manager@ }
}

impl NetworkManager {
    /// A manager for the server at `addr`, with nothing to send.
    pub fn new(addr: &str) -> (manager: Self)
        ensures
            manager.address@ == addr@,
            manager@ == Seq::<DatagramView>::empty(),
    {
        NetworkManager { address: addr.to_owned(), outbox: Vec::new() }
    }

    /// Puts a datagram for `addr` into the outbox.
    pub fn send_data(&mut self, addr: &String, buffer: &[u8])
        ensures
            final(self)@ == old(self)@.push(DatagramView { address: *addr, data: buffer@ }),
            final(self).address == old(self).address,
    {
        let datagram = Datagram { address: addr.clone(), data: slice_to_vec(buffer) };
        self.outbox.push(datagram);
    }

    /// Puts the same bytes for every session into the outbox, in session
    /// order.
    pub fn broadcast(&mut self, replication_manager: &ReplicationManager, buffer: &[u8])
        ensures
            final(self)@ == old(self)@ + broadcast_datagrams(
                replication_manager@.sessions,
                buffer@,
            ),
            final(self).address == old(self).address,
    {
        let ghost all = broadcast_datagrams(replication_manager@.sessions, buffer@);
        let mut i: usize = 0;
        while i < replication_manager.client_entities.len()
            invariant
                i <= replication_manager.client_entities@.len(),
                all == broadcast_datagrams(replication_manager@.sessions, buffer@),
                self@ == old(self)@ + all.take(i as int),
                self.address == old(self).address,
            decreases replication_manager.client_entities@.len() - i,
        {
            self.send_data(&replication_manager.client_entities[i].client.address, buffer);
            i += 1;
        }
    }

    /// Answers a `Helo` with a `Helo` to the same address.
    pub fn handle_helo(&mut self, addr: String)
        ensures
            final(self)@ == old(self)@.push(
                DatagramView {
                    address: addr,
                    data: seq![
                        encode(MessageType::Helo, DataType::NoData),
                    ],
                },
            ),
            final(self).address == old(self).address,
    {
        let mut serializer = Serializer::new(Vec::new());
        serializer.write_u8(MessageHeader::new(MessageType::Helo, DataType::NoData).get_data());
        self.send_data(&addr, serializer.get_data());
    }

    /// Answers a `Ping` with a `Ping` to the same address.
    pub fn handle_ping(&mut self, addr: String)
        ensures
            final(self)@ == old(self)@.push(
                DatagramView {
                    address: addr,
                    data: seq![
                        encode(MessageType::Ping, DataType::NoData),
                    ],
                },
            ),
            final(self).address == old(self).address,
    {
        let mut serializer = Serializer::new(Vec::new());
        serializer.write_u8(MessageHeader::new(MessageType::Ping, DataType::NoData).get_data());
        self.send_data(&addr, serializer.get_data());
    }

    /// Opens a session for `addr` under `client_net_id`, spawns the one node
    /// that it owns under `player_net_id` at (`x`, 0) and answers with the
    /// session's network id. Both ids have to be free and to differ.
    pub fn handle_hsk(
        &mut self,
        addr: String,
        client_net_id: u32,
        player_net_id: u32,
        x: u32,
        replication_manager: &mut ReplicationManager,
    )
        requires
            old(replication_manager).wf(),
            old(replication_manager)@.is_fresh(client_net_id),
            old(replication_manager)@.is_fresh(player_net_id),
            client_net_id != player_net_id,
        ensures
            server_view(final(self), final(replication_manager)) == server_view(
                old(self),
                old(replication_manager),
            ).handle_hsk(addr, client_net_id, player_net_id, x),
            final(replication_manager).wf(),
            final(self).address == old(self).address,
    {
        let connected_client = ConnectedClient { net_id: client_net_id, address: addr.clone() };
        let player = ReplicatedNode {
            net_id: player_net_id,
            type_id: 0,
            owner_id: Some(client_net_id),
            x,
            y: 0,
        };
        replication_manager.replicated_nodes.push(player);
        let mut client_entity = ClientEntityLink::new(connected_client);
        client_entity.possessed_entity.push(player_net_id);
        replication_manager.client_entities.push(client_entity);

        let mut serializer = Serializer::new(Vec::new());
        serializer.write_u8(MessageHeader::new(MessageType::Hsk, DataType::NoData).get_data());
        serializer.write_u32(client_net_id);
        self.send_data(&addr, serializer.get_data());
        proof {
            let before = server_view(old(self), old(replication_manager));
            let after = server_view(self, replication_manager);
            let expected = before.handle_hsk(addr, client_net_id, player_net_id, x);
            assert(after.sessions =~= expected.sessions);
            assert(after.nodes =~= expected.nodes);
            assert(after.outbox =~= expected.outbox);
            lemma_handshake_opens_session(before, addr, client_net_id, player_net_id, x);
        }
    }

    /// Ends the session that the payload names: each of its entities is
    /// announced as despawned to every session and removed, then the session
    /// is removed. Nothing happens where the payload is shorter than a
    /// network id or names no session.
    pub fn handle_bye(&mut self, buffer: Vec<u8>, replication_manager: &mut ReplicationManager)
        requires
            old(replication_manager).wf(),
        ensures
            server_view(final(self), final(replication_manager)) == server_view(
                old(self),
                old(replication_manager),
            ).handle_bye(buffer@),
            final(replication_manager).wf(),
            final(self).address == old(self).address,
    {
        if buffer.len() < 4 {
            return ;
        }
        let mut serializer = Serializer::new(buffer);
        let net_id: u32 = serializer.read_u32();
        let index = match replication_manager.find_client(net_id) {
            Some(index) => index,
            None => {
                return ;
            },
        };
        let ghost start = server_view(old(self), old(replication_manager));
        let ghost possessed = old(replication_manager).client_entities@[index as int].possessed_entity@;
        assert(start.sessions[index as int].possessed_entity == possessed);
        let count: usize = replication_manager.client_entities[index].possessed_entity.len();
        let mut k: usize = 0;
        while k < count
            invariant
                k <= count,
                count == possessed.len(),
                index < replication_manager.client_entities@.len(),
                replication_manager.client_entities@ == old(replication_manager).client_entities@,
                possessed == replication_manager.client_entities@[index as int].possessed_entity@,
                server_view(self, replication_manager) == start.destroy_entities(
                    possessed.take(k as int),
                ),
                replication_manager.wf(),
                self.address == old(self).address,
            decreases count - k,
        {
            let entity: u32 = replication_manager.client_entities[index].possessed_entity[k];
            on_destroy_entity(DestroyEntity { entity }, self, replication_manager);
            proof {
                assert(possessed.take(k + 1).drop_last() =~= possessed.take(k as int));
            }
            k += 1;
        }
        assert(possessed.take(k as int) =~= possessed);
        let ghost emptied = server_view(self, replication_manager);
        replication_manager.client_entities.remove(index);
        proof {
            let after = server_view(self, replication_manager);
            assert(after.sessions =~= emptied.sessions.remove(index as int));
        }
    }

    /// Handles one datagram up to the command dispatcher, with the ids and
    /// the position that a handshake would use. A `Data` frame is handed
    /// back for the dispatcher: where it came from, its header and its
    /// payload.
    pub fn dispatch(
        &mut self,
        received: Datagram,
        client_net_id: u32,
        player_net_id: u32,
        x: u32,
        replication_manager: &mut ReplicationManager,
    ) -> (forwarded: Option<(String, MessageHeader, Vec<u8>)>)
        requires
            old(replication_manager).wf(),
        ensures
            server_view(final(self), final(replication_manager)) == server_view(
                old(self),
                old(replication_manager),
            ).dispatch(received.address, received.data@, client_net_id, player_net_id, x),
            final(replication_manager).wf(),
            final(self).address == old(self).address,
            forwarded.is_some() <==> ServerView::forwards(received.data@),
            forwarded matches Some((address, header, payload)) ==> {
                &&& address == received.address
                &&& header.data == received.data@[0]
                &&& payload@ == received.data@.skip(1)
            },
    {
        if received.data.len() == 0 {
            return None;
        }
        let message_header = MessageHeader::from_data(received.data[0]);
        match message_header.decode() {
            Err(_) => None,
            Ok((message_type, _)) => {
                let payload = slice_subrange(received.data.as_slice(), 1, received.data.len());
                match message_type {
                    MessageType::Helo => {
                        self.handle_helo(received.address);
                        None
                    },
                    MessageType::Hsk => {
                        if replication_manager.is_fresh(client_net_id)
                            && replication_manager.is_fresh(player_net_id) && client_net_id
                            != player_net_id {
                            self.handle_hsk(
                                received.address,
                                client_net_id,
                                player_net_id,
                                x,
                                replication_manager,
                            );
                        }
                        None
                    },
                    MessageType::Ping => {
                        self.handle_ping(received.address);
                        None
                    },
                    MessageType::Data => {
                        let buffer = slice_to_vec(payload);
                        Some((received.address, message_header, buffer))
                    },
                    MessageType::Bye => {
                        self.handle_bye(slice_to_vec(payload), replication_manager);
                        None
                    },
                }
            },
        }
    }

    /// Handles what the socket gave, if it gave anything, up to the command
    /// dispatcher. The network ids of a handshake are drawn at random; a
    /// draw that is not free opens no session, and the client asks again.
    /// `x` is where the node of a new session is put.
    pub fn poll(
        &mut self,
        received: Option<Datagram>,
        x: u32,
        replication_manager: &mut ReplicationManager,
    ) -> (forwarded: Option<(String, MessageHeader, Vec<u8>)>)
        requires
            old(replication_manager).wf(),
        ensures
            received matches Some(datagram) ==> exists|client_net_id: u32, player_net_id: u32|
                server_view(final(self), final(replication_manager)) == #[trigger] server_view(
                    old(self),
                    old(replication_manager),
                ).dispatch(datagram.address, datagram.data@, client_net_id, player_net_id, x),
            received is None ==> server_view(final(self), final(replication_manager))
                == server_view(old(self), old(replication_manager)),
            final(replication_manager).wf(),
            final(self).address == old(self).address,
            forwarded.is_some() <==> received.is_some() && ServerView::forwards(
                received.unwrap().data@,
            ),
            forwarded matches Some((address, header, payload)) ==> {
                &&& address == received.unwrap().address
                &&& header.data == received.unwrap().data@[0]
                &&& payload@ == received.unwrap().data@.skip(1)
            },
    {
        match received {
            Some(datagram) => {
                let client_net_id: u32 = random_network_id();
                let player_net_id: u32 = random_network_id();
                self.dispatch(datagram, client_net_id, player_net_id, x, replication_manager)
            },
            None => None,
        }
    }
}

/// One step of the server's frame loop: handles what the socket gave, and
/// hands a `Data` frame to the command dispatcher.
pub fn poll(
    network_manager: &mut NetworkManager,
    replication_manager: &mut ReplicationManager,
    rpc_manager: &RpcManager,
    received: Option<Datagram>,
    x: u32,
)
    requires
        old(replication_manager).wf(),
    ensures
        received matches Some(datagram) ==> exists|client_net_id: u32, player_net_id: u32|
            server_view(final(network_manager), final(replication_manager))
                == #[trigger] server_view(old(network_manager), old(replication_manager)).poll(
                datagram.address,
                datagram.data@,
                client_net_id,
                player_net_id,
                x,
            ),
        received is None ==> server_view(final(network_manager), final(replication_manager))
            == server_view(old(network_manager), old(replication_manager)),
        final(replication_manager).wf(),
        final(network_manager).address == old(network_manager).address,
{
    let ghost start = server_view(network_manager, replication_manager);
    match network_manager.poll(received, x, replication_manager) {
        Some((client_addr, message_header, buffer)) => {
            rpc_manager.handle_rpc(client_addr, message_header, buffer, replication_manager);
            proof {
                let datagram = received.unwrap();
                assert(server_view(network_manager, replication_manager) == start.poll(
                    datagram.address,
                    datagram.data@,
                    0,
                    0,
                    x,
                ));
            }
        },
        None => {
            proof {
                if received.is_some() {
                    let datagram = received.unwrap();
                    let (c, p) = choose|c: u32, p: u32|
                        server_view(network_manager, replication_manager)
                            == #[trigger] start.dispatch(
                            datagram.address,
                            datagram.data@,
                            c,
                            p,
                            x,
                        );
                    assert(server_view(network_manager, replication_manager) == start.poll(
                        datagram.address,
                        datagram.data@,
                        c,
                        p,
                        x,
                    ));
                }
            }
        },
    }
}

/// A handshake with free ids opens exactly one session and spawns exactly
/// one node, owned by the new session; the new ids differ from every id that
/// was live; the reply goes to the client's address and is five bytes long:
/// the `Hsk` header and the session's network id. Uniqueness of ids is kept.
pub proof fn lemma_handshake_opens_session(
    server: ServerView,
    address: String,
    client_net_id: u32,
    player_net_id: u32,
    x: u32,
)
    requires
        server.wf(),
        server.is_fresh(client_net_id),
        server.is_fresh(player_net_id),
    ensures
        ({
            let after = server.handle_hsk(address, client_net_id, player_net_id, x);
            let reply = after.outbox.last();
            &&& after.wf()
            &&& after.sessions.len() == server.sessions.len() + 1
            &&& after.sessions.take(server.sessions.len() as int) == server.sessions
            &&& after.sessions.last().net_id == client_net_id
            &&& after.sessions.last().address == address
            &&& after.sessions.last().possessed_entity == seq![player_net_id]
            &&& forall|i: int|
                0 <= i < server.sessions.len() ==> server.sessions[i].net_id != client_net_id
            &&& forall|i: int| 0 <= i < server.nodes.len() ==> server.nodes[i].net_id != client_net_id
            &&& after.nodes.len() == server.nodes.len() + 1
            &&& after.nodes.take(server.nodes.len() as int) == server.nodes
            &&& after.nodes.last().net_id == player_net_id
            &&& after.nodes.last().owner_id == Some(client_net_id)
            &&& after.nodes.last().type_id == 0
            &&& after.nodes.last().x == x
            &&& after.nodes.last().y == 0
            &&& after.outbox.len() == server.outbox.len() + 1
            &&& reply.address == address
            &&& reply.data.len() == 5
            &&& decode(reply.data[0]) == Ok::<
                (MessageType, DataType),
                EnumError,
            >((MessageType::Hsk, DataType::NoData))
            &&& u32_from_le(reply.data.skip(1)) == client_net_id
        }),
{
    lemma_decode_encode(MessageType::Hsk, DataType::NoData);
    lemma_u32_round_trip(client_net_id);
}

} // verus!
