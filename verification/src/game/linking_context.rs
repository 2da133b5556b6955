//! The registry of spawnable node types.

use vstd::prelude::*;
use vstd::string::StringExecFns;
use crate::game::player::{state_bytes, GDPlayer, Serializable};

verus! {

/// The scene that stands for the player, registered first.
pub const PLAYER_SCENE: &'static str = "scenes/player.tscn";

/// The spawn registry: the type id of a replicated node is the index of its
/// scene here.
pub struct LinkingContext {
    pub spawn_functions: Vec<String>,
}

impl LinkingContext {
    /// How many types are registered.
    pub open spec fn count(&self) -> nat {
        self.spawn_functions@.len()
    }

    /// Whether a type id names a registered type.
    pub open spec fn knows(&self, type_id: u32) -> bool {
        (type_id as int) < self.spawn_functions@.len()
    }

    /// The registry with the player scene as type 0.
    pub fn new() -> (context: Self)
        ensures
            context.count() == 1,
            context.spawn_functions@[0]@ == PLAYER_SCENE@,
    {
        let mut spawn_functions: Vec<String> = Vec::new();
        Self::register(PLAYER_SCENE, &mut spawn_functions);
        LinkingContext { spawn_functions }
    }

    /// Registers a scene under the next free type id.
    pub fn register(scene_path: &str, spawn_functions: &mut Vec<String>)
        ensures
            final(spawn_functions)@.len() == old(spawn_functions)@.len() + 1,
            final(spawn_functions)@.take(old(spawn_functions)@.len() as int) == old(
                spawn_functions,
            )@,
            final(spawn_functions)@.last()@ == scene_path@,
    {
        let path = String::from_str(scene_path);
        spawn_functions.push(path);
    }

    /// Whether a type id names a registered type.
    pub fn resolves(&self, type_id: u32) -> (known: bool)
        ensures
            known == self.knows(type_id),
    {
        (type_id as usize) < self.spawn_functions.len()
    }

    /// The scene registered under a type id.
    pub fn scene_path(&self, type_id: usize) -> (path: &String)
        requires
            type_id < self.count(),
        ensures
            *path == self.spawn_functions@[type_id as int],
    {
        &self.spawn_functions[type_id]
    }

    /// A new node of a registered type.
    pub fn spawn(&self, type_id: usize) -> (node: GDPlayer)
        requires
            type_id < self.count(),
            type_id <= u32::MAX,
        ensures
            node == GDPlayer::fresh(type_id as u32),
    {
        GDPlayer::init(type_id as u32)
    }

    /// The state of a node as bytes.
    pub fn serialize(&self, node: GDPlayer) -> (data: Vec<u8>)
        ensures
            data@ == state_bytes(node.x, node.y, node.owner_id),
    {
        let mut node = node;
        node.serialize()
    }

    /// The node after it has taken its state from `data`.
    pub fn deserialize(&self, node: GDPlayer, data: Vec<u8>) -> (updated: GDPlayer)
        ensures
            updated == node.with_state(data@),
    {
        let mut node = node;
        node.deserialize(data);
        node
    }
}

} // verus!
