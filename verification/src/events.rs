//! Events raised inside a session and told to clients.

use vstd::prelude::*;
use crate::components::{Client, Uuid, Vec3};

verus! {

/// A new entity that clients have to show.
#[derive(Debug, Copy, Clone, PartialEq, Eq, Structural)]
pub enum SpawnEvent {
    Projectile(Uuid),
    Entity(Uuid),
}

/// A player that enters the arena.
#[derive(Debug, Copy, Clone, PartialEq, Eq, Structural)]
pub struct InsertPlayerEvent {
    pub id: Uuid,
    pub position: Vec3,
    /// Whether the receiving client controls this player.
    pub is_local: bool,
    /// The player's place in the colour table.
    pub color: usize,
}

/// Something a client has asked for.
#[derive(Debug, Clone, PartialEq, Eq)]
pub struct ClientEvent<T> {
    pub client: Client,
    pub event: T,
}

impl<T> ClientEvent<T> {
    /// The client that asked.
    pub open spec fn sender(&self) -> Client {
        self.client
    }

    /// What it asked for.
    pub open spec fn request(&self) -> T {
        self.event
    }

    pub fn new(client: Client, event: T) -> (made: ClientEvent<T>)
        ensures
            made.sender() == client,
            made.request() == event,
    {
        ClientEvent { client, event }
    }

    pub fn client(&self) -> (client: &Client)
        ensures
            *client == self.sender(),
    {
        &self.client
    }

    pub fn event(&self) -> (event: &T)
        ensures
            *event == self.request(),
    {
        &self.event
    }
}

} // verus!
