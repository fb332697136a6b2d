//! What the server tells clients.

use vstd::prelude::*;
use crate::components::{ReadyState, Uuid};
use crate::ecs_message::{CompUpdateKind, EntityPackage};
use crate::events::{InsertPlayerEvent, SpawnEvent};
use vstd::std_specs::convert::FromSpecImpl;

verus! {

#[derive(Debug, Copy, Clone, PartialEq, Eq, Structural)]
pub enum RejectReason {
    LobbyFull,
}

/// One entity of the world as a newly joined client first sees it.
#[derive(Debug, Clone, PartialEq, Eq)]
pub struct WorldSync {
    pub entity_package: EntityPackage,
}

#[derive(Debug, Clone, PartialEq, Eq)]
pub enum LobbyServerMessage {
    /// The identifier given to the client that joined.
    Welcome(Uuid),
    /// An entity that already exists when the client joins.
    WelcomeWorld(WorldSync),
    Reject { reason: RejectReason, disconnect: bool },
    PlayerJoined(Uuid, String),
    PlayersList(Vec<String>),
    ReadyState(ReadyState),
    SetHost(Uuid),
    StartLoading,
}

#[derive(Debug, Copy, Clone, PartialEq, Eq, Structural)]
pub enum LoadingServerMessage {
    PlayerLoaded(Uuid),
    LoadingComplete,
}

/// How far the shopping timer has run, in nanoseconds.
#[derive(Debug, Copy, Clone, PartialEq, Eq, Structural)]
pub struct TimerInfo {
    pub duration: u64,
    pub elapsed: u64,
}

#[derive(Debug, Copy, Clone, PartialEq, Eq, Structural)]
pub enum ShoppingServerMessage {
    Timer(TimerInfo),
}

/// A change of one synchronised component of one entity.
#[derive(Debug, Copy, Clone, PartialEq, Eq, Structural)]
pub struct ComponentSyncMessage(pub Uuid, pub CompUpdateKind);

#[derive(Debug, Clone, PartialEq, Eq)]
pub enum ServerMessage {
    Lobby(LobbyServerMessage),
    Loading(LoadingServerMessage),
    Shopping(ShoppingServerMessage),
    InsertPlayer(InsertPlayerEvent),
    Spawn(SpawnEvent),
    Despawn(Uuid),
    ComponentSync(ComponentSyncMessage),
}

impl From<LobbyServerMessage> for ServerMessage {
    fn from(val: LobbyServerMessage) -> (msg: ServerMessage) {
        ServerMessage::Lobby(val)
    }
}

impl FromSpecImpl<LobbyServerMessage> for ServerMessage {
    open spec fn obeys_from_spec() -> bool {
        true
    }

    open spec fn from_spec(val: LobbyServerMessage) -> ServerMessage {
        ServerMessage::Lobby(val)
    }
}

impl From<LoadingServerMessage> for ServerMessage {
    fn from(val: LoadingServerMessage) -> (msg: ServerMessage) {
        ServerMessage::Loading(val)
    }
}

impl FromSpecImpl<LoadingServerMessage> for ServerMessage {
    open spec fn obeys_from_spec() -> bool {
        true
    }

    open spec fn from_spec(val: LoadingServerMessage) -> ServerMessage {
        ServerMessage::Loading(val)
    }
}

impl From<ShoppingServerMessage> for ServerMessage {
    fn from(val: ShoppingServerMessage) -> (msg: ServerMessage) {
        ServerMessage::Shopping(val)
    }
}

impl FromSpecImpl<ShoppingServerMessage> for ServerMessage {
    open spec fn obeys_from_spec() -> bool {
        true
    }

    open spec fn from_spec(val: ShoppingServerMessage) -> ServerMessage {
        ServerMessage::Shopping(val)
    }
}

impl From<SpawnEvent> for ServerMessage {
    fn from(val: SpawnEvent) -> (msg: ServerMessage) {
        ServerMessage::Spawn(val)
    }
}

impl FromSpecImpl<SpawnEvent> for ServerMessage {
    open spec fn obeys_from_spec() -> bool {
        true
    }

    open spec fn from_spec(val: SpawnEvent) -> ServerMessage {
        ServerMessage::Spawn(val)
    }
}

} // verus!
