//! The component kinds that are synchronised to clients.

use vstd::prelude::*;
use crate::components::{Player, Position, Uuid};
use vstd::std_specs::convert::FromSpecImpl;

verus! {

/// The value of one synchronised component.
#[derive(Debug, Copy, Clone, PartialEq, Eq, Structural)]
pub enum EcsCompPacket {
    Position(Position),
    Player(Player),
}

/// The kind of a synchronised component, without a value.
#[derive(Debug, Copy, Clone, PartialEq, Eq, Structural)]
pub enum EcsCompPacketPhantom {
    Position,
    Player,
}

impl EcsCompPacket {
    /// The kind of component this value belongs to.
    pub open spec fn kind(self) -> EcsCompPacketPhantom {
        match self {
            EcsCompPacket::Position(_) => EcsCompPacketPhantom::Position,
            EcsCompPacket::Player(_) => EcsCompPacketPhantom::Player,
        }
    }
}

impl From<Position> for EcsCompPacket {
    fn from(val: Position) -> (packet: EcsCompPacket) {
        EcsCompPacket::Position(val)
    }
}

impl FromSpecImpl<Position> for EcsCompPacket {
    open spec fn obeys_from_spec() -> bool {
        true
    }

    open spec fn from_spec(val: Position) -> EcsCompPacket {
        EcsCompPacket::Position(val)
    }
}

impl From<Player> for EcsCompPacket {
    fn from(val: Player) -> (packet: EcsCompPacket) {
        EcsCompPacket::Player(val)
    }
}

impl FromSpecImpl<Player> for EcsCompPacket {
    open spec fn obeys_from_spec() -> bool {
        true
    }

    open spec fn from_spec(val: Player) -> EcsCompPacket {
        EcsCompPacket::Player(val)
    }
}

/// A client's copy of the synchronised components of one entity.
#[derive(Debug, Default, Copy, Clone, PartialEq, Eq, Structural)]
pub struct Replica {
    pub position: Option<Position>,
    pub player: Option<Player>,
}

impl Replica {
    /// The copy with the component `packet` set.
    pub open spec fn with(self, packet: EcsCompPacket) -> Replica {
        match packet {
            EcsCompPacket::Position(position) => Replica { position: Some(position), ..self },
            EcsCompPacket::Player(player) => Replica { player: Some(player), ..self },
        }
    }

    /// The copy without the component of kind `kind`.
    pub open spec fn without(self, kind: EcsCompPacketPhantom) -> Replica {
        match kind {
            EcsCompPacketPhantom::Position => Replica { position: None, ..self },
            EcsCompPacketPhantom::Player => Replica { player: None, ..self },
        }
    }

    /// The copy after `update`.
    pub open spec fn updated(self, update: CompUpdateKind) -> Replica {
        match update {
            CompUpdateKind::Inserted(packet) => self.with(packet),
            CompUpdateKind::Modified(packet) => self.with(packet),
            CompUpdateKind::Removed(kind) => self.without(kind),
        }
    }
}

impl EcsCompPacket {
    /// Gives the copy the component it has acquired.
    pub fn apply_insert(self, replica: &mut Replica)
        ensures
            *final(replica) == old(replica).with(self),
    {
        match self {
            EcsCompPacket::Position(position) => {
                replica.position = Some(position);
            },
            EcsCompPacket::Player(player) => {
                replica.player = Some(player);
            },
        }
    }

    /// Gives the copy the new value of the component.
    pub fn apply_modify(self, replica: &mut Replica)
        ensures
            *final(replica) == old(replica).with(self),
    {
        match self {
            EcsCompPacket::Position(position) => {
                replica.position = Some(position);
            },
            EcsCompPacket::Player(player) => {
                replica.player = Some(player);
            },
        }
    }

    /// Takes from the copy the component it has lost.
    pub fn apply_remove(phantom: EcsCompPacketPhantom, replica: &mut Replica)
        ensures
            *final(replica) == old(replica).without(phantom),
    {
        match phantom {
            EcsCompPacketPhantom::Position => {
                replica.position = None;
            },
            EcsCompPacketPhantom::Player => {
                replica.player = None;
            },
        }
    }
}

/// One change of a synchronised component.
#[derive(Debug, Copy, Clone, PartialEq, Eq, Structural)]
pub enum CompUpdateKind {
    /// The entity has acquired the component.
    Inserted(EcsCompPacket),
    /// The component has a new value.
    Modified(EcsCompPacket),
    /// The entity has lost the component.
    Removed(EcsCompPacketPhantom),
}

impl CompUpdateKind {
    /// Carries the change out on a client's copy.
    pub fn apply(self, replica: &mut Replica)
        ensures
            *final(replica) == old(replica).updated(self),
    {
        match self {
            CompUpdateKind::Inserted(packet) => packet.apply_insert(replica),
            CompUpdateKind::Modified(packet) => packet.apply_modify(replica),
            CompUpdateKind::Removed(kind) => EcsCompPacket::apply_remove(kind, replica),
        }
    }

    /// The kind of component that changed.
    pub open spec fn kind(self) -> EcsCompPacketPhantom {
        match self {
            CompUpdateKind::Inserted(packet) => packet.kind(),
            CompUpdateKind::Modified(packet) => packet.kind(),
            CompUpdateKind::Removed(kind) => kind,
        }
    }
}

/// The component changes of one tick, each with the entity it concerns.
#[derive(Debug, Clone, PartialEq, Eq)]
pub struct CompSyncPackage {
    pub comp_updates: Vec<(Uuid, CompUpdateKind)>,
}

/// One entity with the values of its synchronised components.
#[derive(Debug, Clone, PartialEq, Eq)]
pub struct EntityPackage {
    pub uid: Uuid,
    pub comps: Vec<EcsCompPacket>,
}

} // verus!
