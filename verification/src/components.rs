//! Plain data carried by the entities of a session.

use vstd::prelude::*;

verus! {

/// Identifier of a synchronised entity, unique for the lifetime of a session.
#[derive(Debug, Default, Copy, Clone, PartialEq, Eq, Hash, Structural)]
pub struct Uuid(pub u32);

/// Handle of a live connection, as the transport names it.
#[derive(Debug, Copy, Clone, PartialEq, Eq, Hash, Structural)]
pub struct Client(pub u32);

/// A point or direction in space.
///
/// Each coordinate is the bit pattern of a single-precision number. The
/// core never computes with coordinates: it stores them, hands them on and
/// compares them bit for bit.
#[derive(Debug, Default, Copy, Clone, PartialEq, Eq, Hash, Structural)]
pub struct Vec3 {
    pub x: u32,
    pub y: u32,
    pub z: u32,
}

impl Vec3 {
    /// The vector with the given coordinate bit patterns.
    pub fn new(x: u32, y: u32, z: u32) -> (v: Vec3)
        ensures
            v == (Vec3 { x, y, z }),
    {
        Vec3 { x, y, z }
    }
}

/// Where an entity is.
#[derive(Debug, Default, Copy, Clone, PartialEq, Eq, Hash, Structural)]
pub struct Position(pub Vec3);

/// Where a player is heading.
#[derive(Debug, Copy, Clone, PartialEq, Eq, Hash, Structural)]
pub struct Waypoint(pub Vec3);

/// Marks an entity as a player in synchronisation packets.
#[derive(Debug, Copy, Clone, PartialEq, Eq, Hash, Structural)]
pub struct Player;

/// Whether a player is ready to start.
#[derive(Debug, Copy, Clone, PartialEq, Eq, Hash, Structural)]
pub enum ReadyState {
    Ready,
    NotReady,
}

/// The player that launched a projectile, by identifier.
#[derive(Debug, Copy, Clone, PartialEq, Eq, Hash, Structural)]
pub struct Owner(pub(crate) Uuid);

impl Owner {
    /// The owner's identifier.
    pub open(crate) spec fn id(&self) -> Uuid {
        self.0
    }

    pub fn new(entity: Uuid) -> (owner: Owner)
        ensures
            owner.id() == entity,
    {
        Owner(entity)
    }

    pub fn entity(&self) -> (entity: Uuid)
        ensures
            entity == self.id(),
    {
        self.0
    }
}

} // verus!
