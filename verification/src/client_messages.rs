//! What clients send, and which of it only the host may send.

use vstd::prelude::*;
use crate::components::{ReadyState, Uuid, Vec3};

verus! {

/// A message that may be restricted to the host.
pub trait Verify {
    /// Whether a sender that is, or is not, the host may send this message.
    spec fn permitted(&self, is_host: bool) -> bool;

    fn verify(&self, is_host: bool) -> (ok: bool)
        ensures
            ok == self.permitted(is_host),
    ;
}

#[derive(Debug, Clone, PartialEq, Eq)]
pub enum LobbyClientMessage {
    Join(String),
    ChangeReadyState(ReadyState),
    GetPlayerList,
    AddBot,
    StartGame,
}

impl Verify for LobbyClientMessage {
    /// Adding a bot and starting the game are for the host alone.
    open spec fn permitted(&self, is_host: bool) -> bool {
        match self {
            LobbyClientMessage::AddBot | LobbyClientMessage::StartGame => is_host,
            _ => true,
        }
    }

    fn verify(&self, is_host: bool) -> (ok: bool) {
        match self {
            LobbyClientMessage::Join(_)
            | LobbyClientMessage::ChangeReadyState(_)
            | LobbyClientMessage::GetPlayerList => true,
            LobbyClientMessage::AddBot | LobbyClientMessage::StartGame => is_host,
        }
    }
}

#[derive(Debug, Copy, Clone, PartialEq, Eq, Structural)]
pub enum ActionMessage {
    Move { target: Vec3 },
    Attack { target: Uuid },
    FireBall(Vec3),
}

impl Verify for ActionMessage {
    /// Every player may act.
    open spec fn permitted(&self, is_host: bool) -> bool {
        true
    }

    fn verify(&self, is_host: bool) -> (ok: bool) {
        true
    }
}

#[derive(Debug, Clone, PartialEq, Eq)]
pub enum ClientMessage {
    LobbyMessage(LobbyClientMessage),
    Loaded,
    Action(ActionMessage),
}

impl Verify for ClientMessage {
    open spec fn permitted(&self, is_host: bool) -> bool {
        match self {
            ClientMessage::LobbyMessage(message) => message.permitted(is_host),
            ClientMessage::Loaded => true,
            ClientMessage::Action(message) => message.permitted(is_host),
        }
    }

    fn verify(&self, is_host: bool) -> (ok: bool) {
        match self {
            ClientMessage::LobbyMessage(message) => message.verify(is_host),
            ClientMessage::Loaded => true,
            ClientMessage::Action(message) => message.verify(is_host),
        }
    }
}

} // verus!
