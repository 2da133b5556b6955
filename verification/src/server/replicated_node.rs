//! The authoritative copy of a replicated entity and its frames.

use vstd::prelude::*;
use crate::common::message_header::{encode, DataType, MessageHeader, MessageType};
use crate::common::serializer::{le_bytes_u32, Serializer};
use crate::game::player::state_bytes;

verus! {

/// A replicated entity as the server holds it. The position is kept as the
/// bit patterns of two 32-bit floats.
#[derive(Debug, Clone, Copy, PartialEq, Eq, Structural)]
pub struct ReplicatedNode {
    pub net_id: u32,
    pub type_id: u32,
    pub owner_id: Option<u32>,
    pub x: u32,
    pub y: u32,
}

/// The frame that replicates a node: header, network id, type id, `x`, `y`
/// and, if the node has one, its owner.
pub open spec fn replication_frame(node: ReplicatedNode) -> Seq<u8> {
    seq![encode(MessageType::Data, DataType::Replication)] + le_bytes_u32(node.net_id)
        + le_bytes_u32(node.type_id) + le_bytes_u32(node.x) + le_bytes_u32(node.y)
        + match node.owner_id {
        Some(owner) => le_bytes_u32(owner),
        None => Seq::<u8>::empty(),
    }
}

/// The frame that tells of the end of an entity: header and network id.
pub open spec fn despawn_frame(net_id: u32) -> Seq<u8> {
    seq![encode(MessageType::Data, DataType::Despawn)] + le_bytes_u32(net_id)
}

/// A replication frame is the header, the network id, the type id and then
/// the node's state as a node writes it itself.
pub proof fn lemma_replication_frame_layout(node: ReplicatedNode)
    ensures
        replication_frame(node).len() == if node.owner_id.is_some() {
            21int
        } else {
            17int
        },
        replication_frame(node) == seq![encode(MessageType::Data, DataType::Replication)]
            + le_bytes_u32(node.net_id) + le_bytes_u32(node.type_id) + state_bytes(
            node.x,
            node.y,
            node.owner_id,
        ),
{
}

impl ReplicatedNode {
    /// The frame that replicates this node.
    pub fn replication_frame(&self) -> (frame: Vec<u8>)
        ensures
            frame@ == replication_frame(*self),
    {
        let message_header = MessageHeader::new(MessageType::Data, DataType::Replication);
        let mut serializer = Serializer::new(Vec::new());
        serializer.write_u8(message_header.get_data());
        serializer.write_u32(self.net_id);
        serializer.write_u32(self.type_id);
        serializer.write_u32(self.x);
        serializer.write_u32(self.y);
        match self.owner_id {
            Some(owner) => {
                serializer.write_u32(owner);
            },
            None => {},
        }
        serializer.buffer
    }

    /// The frame that tells of the end of this node.
    pub fn despawn_frame(&self) -> (frame: Vec<u8>)
        ensures
            frame@ == despawn_frame(self.net_id),
    {
        let message_header = MessageHeader::new(MessageType::Data, DataType::Despawn);
        let mut serializer = Serializer::new(Vec::new());
        serializer.write_u8(message_header.get_data());
        serializer.write_u32(self.net_id);
        serializer.buffer
    }
}

} // verus!
