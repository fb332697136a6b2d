//! Connections: who leaves, who is host next, and where a client's
//! message goes.

use vstd::prelude::*;
use crate::client_messages::{ActionMessage, ClientMessage, Verify};
use crate::components::{Client, Uuid};
use crate::events::ClientEvent;
use crate::loading::LoadCompleteEvent;
use crate::lobby::{handle_ready_changed, ready_state_pack, set_host_pack, LobbyEvent};
use crate::network::Pack;
use crate::server::{
    client_index, find_client, lemma_distinct_remove, lobby_ready, player_clients, player_ids,
    shot_ids, PlayerRecord, Server, ServerPacket, SyncLedger,
};
use crate::server_messages::{LobbyServerMessage, ServerMessage};
use crate::states::ServerState;

verus! {

/// What the transport reports of a connection.
#[derive(Debug, Copy, Clone, PartialEq, Eq, Structural)]
pub enum NetworkEvent {
    Connected(Client),
    Disconnected(Client),
}

/// A client's message on its way to the part of the session that deals
/// with it.
#[derive(Debug, Clone, PartialEq, Eq)]
pub enum ServerEvent {
    Lobby(LobbyEvent),
    Action(ClientEvent<ActionMessage>),
    Loading(LoadCompleteEvent),
}

/// The event that `message` from `client` becomes.
pub open spec fn classified(client: Client, message: ClientMessage) -> ServerEvent {
    match message {
        ClientMessage::LobbyMessage(request) => ServerEvent::Lobby(
            ClientEvent { client, event: request },
        ),
        ClientMessage::Loaded => ServerEvent::Loading(LoadCompleteEvent { client }),
        ClientMessage::Action(action) => ServerEvent::Action(ClientEvent { client, event: action }),
    }
}

/// The host after the player `gone` has left and `roster` remains: the
/// host stays unless it was the one to leave; then it is the first player
/// that remains, if any.
pub open spec fn next_host(host: Option<Uuid>, gone: Uuid, roster: Seq<PlayerRecord>) -> Option<Uuid> {
    if host != Some(gone) {
        host
    } else if roster.len() > 0 {
        Some(roster[0].id)
    } else {
        None
    }
}

impl Server {
    /// The session after the player at `at` has left: it is off the
    /// roster and waits to be announced as despawned; if it was the host,
    /// the first remaining player is host and every client is told so; in
    /// the lobby, the aggregate ready state is up to date and every client
    /// is told of it.
    pub open(crate) spec fn has_left(self, before: Server, at: int) -> bool {
        let gone = before.roster()[at].id;
        let host = next_host(before.host_id(), gone, self.roster());
        let host_notice = if before.host_id() == Some(gone) && host is Some {
            seq![set_host_pack(host->0)]
        } else {
            Seq::<ServerPacket>::empty()
        };
        let ready_notice = if before.phase() == ServerState::Lobby {
            seq![ready_state_pack(self.ready())]
        } else {
            Seq::<ServerPacket>::empty()
        };
        &&& self == Server {
            host: self.host,
            players: self.players,
            lobby_ready_state: self.lobby_ready_state,
            ledger: self.ledger,
            packets: self.packets,
            ..before
        }
        &&& self.roster() == before.roster().remove(at)
        &&& self.host_id() == host
        &&& self.ready() == if before.phase() == ServerState::Lobby {
            lobby_ready(self.roster())
        } else {
            before.ready()
        }
        &&& self.pending() == SyncLedger { despawned: self.pending().despawned, ..before.pending() }
        &&& self.pending().despawned() == before.pending().despawned().push(gone)
        &&& self.outbox() == before.outbox() + host_notice + ready_notice
    }

    /// What `handle_network_event` does to the session `before` and
    /// answers: when the connection of a player is lost, the player has
    /// left and its identifier is the answer; anything else changes
    /// nothing.
    pub open(crate) spec fn network_event_result(
        self,
        before: Server,
        event: NetworkEvent,
        left: Option<Uuid>,
    ) -> bool {
        match event {
            NetworkEvent::Disconnected(client) => match client_index(before.roster(), client) {
                Some(at) => left == Some(before.roster()[at].id) && self.has_left(before, at),
                None => left is None && self == before,
            },
            NetworkEvent::Connected(_) => left is None && self == before,
        }
    }

    /// Takes note of what the transport reports of a connection.
    pub fn handle_network_event(&mut self, event: NetworkEvent) -> (left: Option<Uuid>)
        requires
            old(self).wf(),
        ensures
            final(self).wf(),
            final(self).network_event_result(*old(self), event, left),
    {
        let client = match event {
            NetworkEvent::Connected(_) => {
                return None;
            },
            NetworkEvent::Disconnected(client) => client,
        };
        let at = match find_client(&self.players, client) {
            Some(at) => at,
            None => {
                return None;
            },
        };
        let gone = self.players.remove(at);
        self.ledger.despawned.push(gone.id);
        let was_host = match self.host {
            Some(host) => host.0 == gone.id.0,
            None => false,
        };
        if was_host {
            if self.players.len() > 0 {
                let host = self.players[0].id;
                self.host = Some(host);
                self.packets.push(
                    Pack::all(ServerMessage::Lobby(LobbyServerMessage::SetHost(host))),
                );
            } else {
                self.host = None;
            }
        }
        if self.state == ServerState::Lobby {
            handle_ready_changed(&self.players, &mut self.lobby_ready_state, &mut self.packets);
        }
        proof {
            let before = *old(self);
            assert(self.outbox() =~= before.outbox() + (if before.host_id() == Some(gone.id)
                && self.host_id() is Some {
                seq![set_host_pack(self.host_id()->0)]
            } else {
                Seq::<ServerPacket>::empty()
            }) + (if before.phase() == ServerState::Lobby {
                seq![ready_state_pack(self.ready())]
            } else {
                Seq::<ServerPacket>::empty()
            }));
            self.lemma_left(before, at as int);
        }
        Some(gone.id)
    }

    /// A session that a player has left is well formed.
    pub(crate) proof fn lemma_left(self, before: Server, at: int)
        requires
            before.wf(),
            0 <= at < before.roster().len(),
            self.has_left(before, at),
        ensures
            self.wf(),
    {
        let roster = self.roster();
        let old_ids = player_ids(before.roster());
        let old_clients = player_clients(before.roster());
        let shots = shot_ids(before.shots());
        assert(player_ids(roster) =~= old_ids.remove(at));
        assert(player_clients(roster) =~= old_clients.remove(at));
        assert(player_ids(roster) + shots =~= (old_ids + shots).remove(at));
        lemma_distinct_remove(old_ids + shots, at, before.next_id());
        let clients = player_clients(roster);
        assert forall|i: int, j: int|
            0 <= i < j < clients.len() && clients[i] is Some implies clients[i] != clients[j] by {
            let a = if i < at { i } else { i + 1 };
            let b = if j < at { j } else { j + 1 };
            assert(clients[i] == old_clients[a]);
            assert(clients[j] == old_clients[b]);
        }
        assert forall|i: int| 0 <= i < roster.len() implies (#[trigger] roster[i]).wf() by {
            let a = if i < at { i } else { i + 1 };
            assert(roster[i] == before.roster()[a]);
        }
        match self.host_id() {
            Some(host) => {
                if before.host_id() == Some(old_ids[at]) {
                    assert(player_ids(roster)[0] == host);
                } else {
                    let a = choose|a: int| 0 <= a < old_ids.len() && old_ids[a] == host;
                    let i = if a < at { a } else { a - 1 };
                    assert(player_ids(roster)[i] == host);
                }
            },
            None => {
                if before.host_id() is Some && before.host_id() != Some(old_ids[at]) {
                    let a = choose|a: int|
                        0 <= a < old_ids.len() && old_ids[a] == before.host_id()->0;
                    assert(false);
                }
            },
        }
    }

    /// Where `message` from `client` goes: a message that only the host
    /// may send is dropped unless `client` is the host's connection; any
    /// other becomes the event for the part of the session that deals
    /// with it.
    pub fn route(&self, client: Client, message: ClientMessage) -> (routed: Option<ServerEvent>)
        requires
            self.wf(),
        ensures
            routed == if message.permitted(self.hosted_by(client)) {
                Some(classified(client, message))
            } else {
                None
            },
    {
        let is_host = self.is_host_client(client);
        if !message.verify(is_host) {
            return None;
        }
        match message {
            ClientMessage::LobbyMessage(request) => Some(
                ServerEvent::Lobby(ClientEvent::new(client, request)),
            ),
            ClientMessage::Action(action) => Some(
                ServerEvent::Action(ClientEvent::new(client, action)),
            ),
            ClientMessage::Loaded => Some(ServerEvent::Loading(LoadCompleteEvent { client })),
        }
    }
}

} // verus!
