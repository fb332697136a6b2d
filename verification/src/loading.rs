//! The loading gate: the match goes on once every connected client has
//! reported that it has loaded.

use vstd::prelude::*;
use crate::arena::ArenaBuilder;
use crate::components::{Client, Uuid, Vec3};
use crate::network::{Dest, Pack};
use crate::server::{
    client_index, find_client, lemma_same_people, PlayerRecord, Server, ServerPacket,
    ShoppingTimer,
};
use crate::server_messages::{LoadingServerMessage, LobbyServerMessage, ServerMessage};
use crate::states::ServerState;
use crate::timer::{Countdown, TimerState, NANOS_PER_SECOND};

verus! {

/// A client that reports that it has loaded.
#[derive(Debug, Copy, Clone, PartialEq, Eq, Structural)]
pub struct LoadCompleteEvent {
    pub client: Client,
}

/// `player` at the start of loading: awaited if it has a connection.
pub open spec fn awaited(player: PlayerRecord) -> PlayerRecord {
    PlayerRecord { loading: player.client is Some, ..player }
}

/// `player` once its client has loaded.
pub open spec fn loaded(player: PlayerRecord) -> PlayerRecord {
    PlayerRecord { loading: false, ..player }
}

/// Whether no player of `roster` is awaited.
pub open spec fn all_loaded(roster: Seq<PlayerRecord>) -> bool {
    forall|i: int| 0 <= i < roster.len() ==> !(#[trigger] roster[i]).loading
}

/// The message that tells every client to start loading.
pub open spec fn start_loading_pack() -> ServerPacket {
    Pack { msg: ServerMessage::Lobby(LobbyServerMessage::StartLoading), dest: Dest::All }
}

/// The message that tells every client that loading is over.
pub open spec fn loading_complete_pack() -> ServerPacket {
    Pack { msg: ServerMessage::Loading(LoadingServerMessage::LoadingComplete), dest: Dest::All }
}

/// The message that tells every client but `client` that the player `id`
/// has loaded.
pub open spec fn player_loaded_pack(id: Uuid, client: Client) -> ServerPacket {
    Pack {
        msg: ServerMessage::Loading(LoadingServerMessage::PlayerLoaded(id)),
        dest: Dest::AllExcept(client),
    }
}

/// Marks every connected player as awaited and tells all clients to start
/// loading.
pub fn notify_clients(players: &mut Vec<PlayerRecord>, packets: &mut Vec<ServerPacket>)
    ensures
        final(players)@ == old(players)@.map_values(|player: PlayerRecord| awaited(player)),
        final(packets)@ == old(packets)@.push(start_loading_pack()),
{
    let ghost before = players@;
    let mut i: usize = 0;
    while i < players.len()
        invariant
            i <= players.len(),
            players@.len() == before.len(),
            forall|j: int| 0 <= j < i ==> players@[j] == awaited(before[j]),
            forall|j: int| i <= j < before.len() ==> players@[j] == before[j],
        decreases players.len() - i,
    {
        players[i].loading = players[i].client.is_some();
        i = i + 1;
    }
    assert(players@ =~= before.map_values(|player: PlayerRecord| awaited(player)));
    packets.push(Pack::all(ServerMessage::Lobby(LobbyServerMessage::StartLoading)));
}

/// Whether no player is awaited any more.
pub fn everyone_loaded(players: &Vec<PlayerRecord>) -> (done: bool)
    ensures
        done == all_loaded(players@),
{
    let mut i: usize = 0;
    while i < players.len()
        invariant
            i <= players.len(),
            forall|j: int| 0 <= j < i ==> !(#[trigger] players@[j]).loading,
        decreases players.len() - i,
    {
        if players[i].loading {
            return false;
        }
        i = i + 1;
    }
    true
}

impl Server {
    /// The session after the step from the lobby into loading: players
    /// with a connection are awaited, the arena stands in its first round
    /// with the given spawn points, and all clients are told to load.
    pub open(crate) spec fn loading_started(self, before: Server, spawn_points: Seq<Vec3>) -> bool {
        &&& self == Server {
            state: self.state,
            players: self.players,
            arena: self.arena,
            packets: self.packets,
            ..before
        }
        &&& self.phase() == ServerState::WaitLoading
        &&& self.roster() == before.roster().map_values(|player: PlayerRecord| awaited(player))
        &&& self.arena_of() matches Some(arena) && arena.points() == spawn_points && arena.rounds()
            == before.settings().total_rounds && arena.round() == if arena.rounds() == 0 {
            0u32
        } else {
            1u32
        }
        &&& self.outbox() == before.outbox().push(start_loading_pack())
    }

    /// Steps from the lobby into loading.
    pub(crate) fn enter_wait_loading(&mut self, spawn_points: Vec<Vec3>)
        requires
            old(self).wf(),
            old(self).phase() == ServerState::Lobby,
        ensures
            final(self).wf(),
            final(self).loading_started(*old(self), spawn_points@),
    {
        self.state = ServerState::WaitLoading;
        notify_clients(&mut self.players, &mut self.packets);
        let arena = ArenaBuilder::new().with_spawn_points(spawn_points).with_rounds(
            self.config.total_rounds,
        ).build();
        self.arena = Some(arena);
        proof {
            lemma_same_people(old(self).roster(), self.roster());
        }
    }

    /// The session after `client`, the connection of the awaited or
    /// loaded player at `at`, has reported that it has loaded.
    pub open(crate) spec fn has_loaded(self, before: Server, client: Client, at: int) -> bool {
        &&& self == Server { players: self.players, packets: self.packets, ..before }
        &&& self.roster() == before.roster().update(at, loaded(before.roster()[at]))
        &&& self.outbox() == before.outbox().push(
            player_loaded_pack(before.roster()[at].id, client),
        )
    }

    /// Takes note that `client` has loaded and tells the other clients.
    /// Outside the loading phase, and for a connection without a player,
    /// nothing happens. Answers the player's identifier if it was noted.
    pub fn handle_loading_event(&mut self, event: LoadCompleteEvent) -> (noted: Option<Uuid>)
        requires
            old(self).wf(),
        ensures
            final(self).wf(),
            match client_index(old(self).roster(), event.client) {
                Some(at) if old(self).phase() == ServerState::WaitLoading => {
                    &&& noted == Some(old(self).roster()[at].id)
                    &&& final(self).has_loaded(*old(self), event.client, at)
                },
                _ => noted is None && *final(self) == *old(self),
            },
    {
        if self.state != ServerState::WaitLoading {
            return None;
        }
        match find_client(&self.players, event.client) {
            Some(at) => {
                let id = self.players[at].id;
                self.players[at].loading = false;
                self.packets.push(
                    Pack::except(
                        ServerMessage::Loading(LoadingServerMessage::PlayerLoaded(id)),
                        event.client,
                    ),
                );
                proof {
                    assert(self.roster() =~= old(self).roster().update(
                        at as int,
                        loaded(old(self).roster()[at as int]),
                    ));
                    lemma_same_people(old(self).roster(), self.roster());
                }
                Some(id)
            },
            None => None,
        }
    }

    /// The session after the step from loading into shopping: all clients
    /// are told that loading is over, and the shopping countdown starts
    /// anew.
    pub open(crate) spec fn shopping_started(self, before: Server) -> bool {
        &&& self == Server {
            state: self.state,
            shopping_timer: self.shopping_timer,
            packets: self.packets,
            ..before
        }
        &&& self.phase() == ServerState::Shopping
        &&& self.shopping() == (TimerState {
            duration: (before.settings().shopping_seconds as nat) * (NANOS_PER_SECOND as nat),
            elapsed: 0,
            finished: false,
            just_finished: false,
            paused: false,
            repeating: false,
        })
        &&& self.outbox() == before.outbox().push(loading_complete_pack())
    }

    /// What `check_players_loading` does to the session `before` and
    /// answers: while loading, once no player is awaited, shopping has
    /// started; otherwise nothing has changed.
    pub open(crate) spec fn players_loading_result(self, before: Server, stepped: bool) -> bool {
        &&& stepped == (before.phase() == ServerState::WaitLoading && all_loaded(before.roster()))
        &&& if stepped {
            self.shopping_started(before)
        } else {
            self == before
        }
    }

    /// Steps from loading into shopping once no player is awaited.
    /// Answers whether the step was made.
    pub fn check_players_loading(&mut self) -> (stepped: bool)
        requires
            old(self).wf(),
        ensures
            final(self).wf(),
            final(self).players_loading_result(*old(self), stepped),
    {
        if self.state != ServerState::WaitLoading {
            return false;
        }
        if !everyone_loaded(&self.players) {
            return false;
        }
        self.packets.push(Pack::all(ServerMessage::Loading(LoadingServerMessage::LoadingComplete)));
        self.state = ServerState::Shopping;
        self.shopping_timer = ShoppingTimer {
            timer: Countdown::from_seconds(self.config.shopping_seconds),
        };
        true
    }
}

} // verus!
