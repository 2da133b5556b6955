//! The replicated player node and the capability that lets a node travel.

use vstd::prelude::*;
use crate::common::serializer::{le_bytes_u32, lemma_u32_round_trip, u32_from_le, Serializer};

verus! {

/// What a replicated node offers so that its state can travel: it writes its
/// state as bytes and takes it back from bytes.
pub trait Serializable {
    fn serialize(&mut self) -> Vec<u8>;

    fn deserialize(&mut self, bytes: Vec<u8>);
}

/// A replicated player as one peer holds it. The position is kept as the bit
/// patterns of two 32-bit floats.
#[derive(Debug, Clone, Copy, PartialEq, Eq, Structural)]
pub struct GDPlayer {
    pub net_id: u32,
    pub type_id: u32,
    pub owner_id: Option<u32>,
    pub x: u32,
    pub y: u32,
}

/// The bytes of a node's state: `x`, `y`, then the owner if it has one.
pub open spec fn state_bytes(x: u32, y: u32, owner_id: Option<u32>) -> Seq<u8> {
    le_bytes_u32(x) + le_bytes_u32(y) + match owner_id {
        Some(owner) => le_bytes_u32(owner),
        None => Seq::<u8>::empty(),
    }
}

impl GDPlayer {
    /// A node of the given type as the spawn registry hands it out: at the
    /// origin, without an owner, not yet registered under a network id.
    pub open spec fn fresh(type_id: u32) -> GDPlayer {
        GDPlayer { net_id: 0, type_id, owner_id: None, x: 0, y: 0 }
    }

    /// The node after it has taken its state from `bytes`: twelve bytes or
    /// more set position and owner, eight to eleven set the position alone,
    /// fewer change nothing.
    pub open spec fn with_state(self, bytes: Seq<u8>) -> GDPlayer {
        if bytes.len() >= 12 {
            GDPlayer {
                x: u32_from_le(bytes),
                y: u32_from_le(bytes.skip(4)),
                owner_id: Some(u32_from_le(bytes.skip(8))),
                ..self
            }
        } else if bytes.len() >= 8 {
            GDPlayer { x: u32_from_le(bytes), y: u32_from_le(bytes.skip(4)), ..self }
        } else {
            self
        }
    }

    /// A new node of the given type, at the origin and without an owner.
    pub fn init(type_id: u32) -> (node: Self)
        ensures
            node == GDPlayer::fresh(type_id),
    {
        GDPlayer { net_id: 0, type_id, owner_id: None, x: 0, y: 0 }
    }

    /// Whether the client with the given id owns this node.
    pub fn is_locally_owned(&self, client_id: u32) -> (owned: bool)
        ensures
            owned <==> self.owner_id == Some(client_id),
    {
        match self.owner_id {
            Some(owner) => owner == client_id,
            None => false,
        }
    }
}

impl Serializable for GDPlayer {
    /// Writes `x`, `y` and, if the node has one, its owner, each as four
    /// little-endian bytes.
    fn serialize(&mut self) -> (bytes: Vec<u8>)
        ensures
            bytes@ == state_bytes(old(self).x, old(self).y, old(self).owner_id),
            *final(self) == *old(self),
    {
        let mut serializer = Serializer::new(Vec::new());
        serializer.write_u32(self.x);
        serializer.write_u32(self.y);
        match self.owner_id {
            Some(owner) => {
                serializer.write_u32(owner);
            },
            None => {},
        }
        serializer.buffer
    }

    /// Takes position and owner from `bytes`, as far as they are there.
    fn deserialize(&mut self, bytes: Vec<u8>)
        ensures
            *final(self) == old(self).with_state(bytes@),
    {
        let len: usize = bytes.len();
        if len >= 8 {
            let mut serializer = Serializer::new(bytes);
            self.x = serializer.read_u32();
            self.y = serializer.read_u32();
            if len >= 12 {
                self.owner_id = Some(serializer.read_u32());
            }
        }
    }
}

/// A node's state comes back from the bytes that it wrote: position always,
/// the owner where the node has one.
pub proof fn lemma_state_round_trip(node: GDPlayer, other: GDPlayer)
    ensures
        ({
            let read = other.with_state(state_bytes(node.x, node.y, node.owner_id));
            &&& read.x == node.x
            &&& read.y == node.y
            &&& node.owner_id.is_some() ==> read.owner_id == node.owner_id
            &&& node.owner_id.is_none() ==> read.owner_id == other.owner_id
            &&& read.net_id == other.net_id
            &&& read.type_id == other.type_id
        }),
{
    lemma_u32_round_trip(node.x);
    lemma_u32_round_trip(node.y);
    match node.owner_id {
        Some(owner) => {
            lemma_u32_round_trip(owner);
        },
        None => {},
    }
}

} // verus!
