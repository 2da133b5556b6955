//! The session registry and the directory of authoritative nodes.

use vstd::prelude::*;
use crate::server::connected_client::ConnectedClient;
use crate::server::replicated_node::ReplicatedNode;
use crate::server::server_view::{ServerView, SessionView};

verus! {

/// A session: the client and the network ids of the entities that it owns.
pub struct ClientEntityLink {
    pub client: ConnectedClient,
    pub possessed_entity: Vec<u32>,
}

/// The server's registry: the sessions in the order in which they were
/// opened, and the authoritative nodes in the order in which they were
/// spawned.
pub struct ReplicationManager {
    pub client_entities: Vec<ClientEntityLink>,
    pub replicated_nodes: Vec<ReplicatedNode>,
}

impl View for ClientEntityLink {
    type V = SessionView;

    open spec fn view(&self) -> SessionView {
        SessionView {
            net_id: self.client.net_id,
            address: self.client.address,
            possessed_entity: self.possessed_entity@,
        }
    }
}

/// The sessions that a list of links stands for.
pub open spec fn sessions(links: Seq<ClientEntityLink>) -> Seq<SessionView> {
    links.map_values(|link: ClientEntityLink| link@)
}

/// The registry as contracts see it: a server with nothing to send.
impl View for ReplicationManager {
    type V = ServerView;

    open spec fn view(&self) -> ServerView {
        ServerView {
            sessions: sessions(self.client_entities@),
            nodes: self.replicated_nodes@,
            outbox: Seq::empty(),
        }
    }
}

impl ClientEntityLink {
    /// A session that owns nothing yet.
    pub fn new(client: ConnectedClient) -> (link: Self)
        ensures
            link.client == client,
            link.possessed_entity@ == Seq::<u32>::empty(),
    {
        ClientEntityLink { client, possessed_entity: Vec::new() }
    }
}

impl ReplicationManager {
    /// No network id stands for two sessions or for two nodes.
    pub open spec fn wf(&self) -> bool {
        self@.wf()
    }

    /// A registry without sessions and without nodes.
    pub fn new() -> (manager: Self)
        ensures
            manager.client_entities@.len() == 0,
            manager.replicated_nodes@.len() == 0,
            manager.wf(),
    {
        ReplicationManager { client_entities: Vec::new(), replicated_nodes: Vec::new() }
    }

    /// Where the session with a network id stands, if there is one.
    pub fn find_client(&self, net_id: u32) -> (found: Option<usize>)
        ensures
            found.is_some() <==> self@.has_session(net_id),
            found matches Some(i) ==> i < self.client_entities@.len()
                && self.client_entities@[i as int].client.net_id == net_id && forall|j: int|
                0 <= j < i ==> self.client_entities@[j].client.net_id != net_id,
            self.wf() && found.is_some() ==> found.unwrap() == self@.session_index(net_id),
    {
        let ghost view = self@;
        let mut i: usize = 0;
        while i < self.client_entities.len()
            invariant
                i <= self.client_entities@.len(),
                view == self@,
                forall|j: int| 0 <= j < i ==> view.sessions[j].net_id != net_id,
                forall|j: int| 0 <= j < i ==> self.client_entities@[j].client.net_id != net_id,
            decreases self.client_entities@.len() - i,
        {
            if self.client_entities[i].client.net_id == net_id {
                assert(view.sessions[i as int].net_id == net_id);
                return Some(i);
            }
            i += 1;
        }
        None
    }

    /// Where the node with a network id stands, if there is one.
    pub fn find_node(&self, net_id: u32) -> (found: Option<usize>)
        ensures
            found.is_some() <==> self@.has_node(net_id),
            found matches Some(i) ==> i < self.replicated_nodes@.len()
                && self.replicated_nodes@[i as int].net_id == net_id && forall|j: int|
                0 <= j < i ==> self.replicated_nodes@[j].net_id != net_id,
            self.wf() && found.is_some() ==> found.unwrap() == self@.node_index(net_id),
    {
        let ghost view = self@;
        let mut i: usize = 0;
        while i < self.replicated_nodes.len()
            invariant
                i <= self.replicated_nodes@.len(),
                view == self@,
                forall|j: int| 0 <= j < i ==> view.nodes[j].net_id != net_id,
            decreases self.replicated_nodes@.len() - i,
        {
            if self.replicated_nodes[i].net_id == net_id {
                return Some(i);
            }
            i += 1;
        }
        None
    }

    /// Whether a network id is free: no session and no node has it.
    pub fn is_fresh(&self, net_id: u32) -> (fresh: bool)
        ensures
            fresh == self@.is_fresh(net_id),
    {
        self.find_client(net_id).is_none() && self.find_node(net_id).is_none()
    }

    /// Whether no network id stands for two sessions or for two nodes: what
    /// every handler asks of the registry.
    pub fn has_unique_ids(&self) -> (unique: bool)
        ensures
            unique == self.wf(),
    {
        let ghost view = self@;
        let mut j: usize = 0;
        while j < self.client_entities.len()
            invariant
                j <= self.client_entities@.len(),
                view == self@,
                forall|a: int, b: int|
                    0 <= a < b < j ==> view.sessions[a].net_id != view.sessions[b].net_id,
            decreases self.client_entities@.len() - j,
        {
            let mut i: usize = 0;
            while i < j
                invariant
                    i <= j < self.client_entities@.len(),
                    view == self@,
                    forall|a: int| 0 <= a < i ==> view.sessions[a].net_id != view.sessions[j as int].net_id,
                decreases j - i,
            {
                if self.client_entities[i].client.net_id == self.client_entities[j].client.net_id {
                    assert(view.sessions[i as int].net_id == view.sessions[j as int].net_id);
                    return false;
                }
                i += 1;
            }
            j += 1;
        }
        let mut j: usize = 0;
        while j < self.replicated_nodes.len()
            invariant
                j <= self.replicated_nodes@.len(),
                view == self@,
                forall|a: int, b: int|
                    0 <= a < b < view.sessions.len() ==> view.sessions[a].net_id
                        != view.sessions[b].net_id,
                forall|a: int, b: int| 0 <= a < b < j ==> view.nodes[a].net_id != view.nodes[b].net_id,
            decreases self.replicated_nodes@.len() - j,
        {
            let mut i: usize = 0;
            while i < j
                invariant
                    i <= j < self.replicated_nodes@.len(),
                    view == self@,
                    forall|a: int| 0 <= a < i ==> view.nodes[a].net_id != view.nodes[j as int].net_id,
                decreases j - i,
            {
                if self.replicated_nodes[i].net_id == self.replicated_nodes[j].net_id {
                    return false;
                }
                i += 1;
            }
            j += 1;
        }
        true
    }

    /// Takes a node that the game spawned into the directory. Its network id
    /// has to be free.
    pub fn register_node(&mut self, node: ReplicatedNode)
        requires
            old(self).wf(),
            old(self)@.is_fresh(node.net_id),
        ensures
            final(self)@ == (ServerView { nodes: old(self)@.nodes.push(node), ..old(self)@ }),
            final(self).client_entities@ == old(self).client_entities@,
            final(self).wf(),
    {
        self.replicated_nodes.push(node);
    }
}

} // verus!
