//! The lobby: players join, bots are added, everyone readies up and the
//! host starts the game.

use vstd::prelude::*;
use crate::client_messages::LobbyClientMessage;
use crate::components::{Client, ReadyState, Uuid, Vec3};
use crate::events::ClientEvent;
use crate::network::{Dest, Pack};
use crate::resources::MAX_PLAYERS;
use crate::server::{
    client_index, find_client, find_player, host_wf, lemma_distinct_push,
    lemma_parts_distinct, lemma_same_people, lobby_ready, player_clients, player_ids, player_index, shot_ids,
    LobbyReadyState, PlayerRecord, Server, ServerPacket, SyncLedger,
};
use crate::server_messages::{LobbyServerMessage, RejectReason, ServerMessage};
use crate::states::ServerState;
use crate::sync::{sync_world, welcomes_world};

verus! {

/// Something a client asks of the lobby.
pub type LobbyEvent = ClientEvent<LobbyClientMessage>;

/// Why the lobby did not do what it was asked.
#[derive(Debug, Copy, Clone, PartialEq, Eq, Structural)]
pub enum LobbyError {
    /// The session is not in the lobby phase.
    NotInLobby,
    /// The connection has a player already.
    AlreadyJoined,
    /// The lobby has no room for another player.
    LobbyFull,
    /// Every identifier has been handed out.
    OutOfIds,
    /// The connection has no player.
    UnknownClient,
    /// The connection is not the host's.
    NotHost,
    /// Not everyone is ready, or the host is alone.
    NotReady,
}

/// The record of a client that has just joined.
pub open spec fn new_player(id: Uuid, name: String, client: Client) -> PlayerRecord {
    PlayerRecord {
        id,
        name,
        ready_state: ReadyState::NotReady,
        bot: false,
        client: Some(client),
        loading: false,
        position: None,
        health: None,
        damage: None,
        waypoint: None,
        dead: false,
        winner: false,
        synced_position: None,
        synced_player: false,
    }
}

/// Whether `player` is a bot that has just been added under `id`.
pub open spec fn is_new_bot(player: PlayerRecord, id: Uuid) -> bool {
    &&& player.id == id
    &&& player.name@ == "BOT"@
    &&& player.ready_state == ReadyState::Ready
    &&& player.bot
    &&& player.client is None
    &&& !player.loading
    &&& player.position is None
    &&& player.health is None
    &&& player.damage is None
    &&& player.waypoint is None
    &&& !player.dead
    &&& !player.winner
    &&& player.synced_position is None
    &&& !player.synced_player
}

/// The message that turns `client` away from a full lobby.
pub open spec fn reject_pack(client: Client, disconnect: bool) -> ServerPacket {
    Pack {
        msg: ServerMessage::Lobby(
            LobbyServerMessage::Reject { reason: RejectReason::LobbyFull, disconnect },
        ),
        dest: Dest::Single(client),
    }
}

/// The message that tells the players addressed by `dest` that `player`
/// is in the lobby.
pub open spec fn player_joined_pack(player: PlayerRecord, dest: Dest) -> ServerPacket {
    Pack { msg: ServerMessage::Lobby(LobbyServerMessage::PlayerJoined(player.id, player.name)), dest }
}

/// The message that tells every client who the host is.
pub open spec fn set_host_pack(host: Uuid) -> ServerPacket {
    Pack { msg: ServerMessage::Lobby(LobbyServerMessage::SetHost(host)), dest: Dest::All }
}

/// The message that tells every client the aggregate ready state.
pub open spec fn ready_state_pack(ready: ReadyState) -> ServerPacket {
    Pack { msg: ServerMessage::Lobby(LobbyServerMessage::ReadyState(ready)), dest: Dest::All }
}

/// What a joining client is told first, and what the others are told of
/// it: its identifier, the host, each player already there, and, to all
/// but the newcomer, the newcomer.
pub open spec fn join_notices(
    roster: Seq<PlayerRecord>,
    host: Uuid,
    joiner: PlayerRecord,
    client: Client,
) -> Seq<ServerPacket> {
    seq![
        Pack {
            msg: ServerMessage::Lobby(LobbyServerMessage::Welcome(joiner.id)),
            dest: Dest::Single(client),
        },
        Pack {
            msg: ServerMessage::Lobby(LobbyServerMessage::SetHost(host)),
            dest: Dest::Single(client),
        },
    ] + Seq::new(roster.len(), |i: int| player_joined_pack(roster[i], Dest::Single(client)))
        + seq![player_joined_pack(joiner, Dest::AllExcept(client))]
}

/// Whether everyone in a lobby of more than one player is ready.
pub fn compute_lobby_ready(players: &Vec<PlayerRecord>) -> (ready: ReadyState)
    ensures
        ready == lobby_ready(players@),
{
    if players.len() <= 1 {
        return ReadyState::NotReady;
    }
    let mut i: usize = 0;
    while i < players.len()
        invariant
            i <= players.len(),
            players.len() > 1,
            forall|j: int| 0 <= j < i ==> (#[trigger] players@[j]).ready_state == ReadyState::Ready,
        decreases players.len() - i,
    {
        if players[i].ready_state != ReadyState::Ready {
            return ReadyState::NotReady;
        }
        i = i + 1;
    }
    ReadyState::Ready
}

/// Computes the aggregate ready state anew and tells every client.
pub fn handle_ready_changed(
    players: &Vec<PlayerRecord>,
    lobby_ready_state: &mut LobbyReadyState,
    packets: &mut Vec<ServerPacket>,
)
    ensures
        final(lobby_ready_state).0 == lobby_ready(players@),
        final(packets)@ == old(packets)@.push(ready_state_pack(lobby_ready(players@))),
{
    let ready = compute_lobby_ready(players);
    *lobby_ready_state = LobbyReadyState(ready);
    packets.push(Pack::all(ServerMessage::Lobby(LobbyServerMessage::ReadyState(ready))));
}

/// Tells `client` alone of each player of the roster, in roster order.
fn send_roster(packets: &mut Vec<ServerPacket>, players: &Vec<PlayerRecord>, client: Client)
    ensures
        final(packets)@ == old(packets)@ + Seq::new(
            players@.len(),
            |i: int| player_joined_pack(players@[i], Dest::Single(client)),
        ),
{
    let ghost before = packets@;
    let mut i: usize = 0;
    while i < players.len()
        invariant
            i <= players.len(),
            packets@ == before + Seq::new(
                i as nat,
                |k: int| player_joined_pack(players@[k], Dest::Single(client)),
            ),
        decreases players.len() - i,
    {
        let ghost so_far = packets@;
        let player = &players[i];
        packets.push(
            Pack::single(
                ServerMessage::Lobby(LobbyServerMessage::PlayerJoined(player.id, player.name.clone())),
                client,
            ),
        );
        assert(packets@ =~= before + Seq::new(
            (i + 1) as nat,
            |k: int| player_joined_pack(players@[k], Dest::Single(client)),
        ));
        i = i + 1;
    }
}

impl Server {
    /// The session with one more message in its outbox.
    pub open(crate) spec fn has_told(self, before: Server, pack: ServerPacket) -> bool {
        &&& self == Server { packets: self.packets, ..before }
        &&& self.outbox() == before.outbox().push(pack)
    }

    /// What `join` answers to `client`.
    pub open(crate) spec fn join_outcome(self, client: Client) -> Result<Uuid, LobbyError> {
        if self.phase() != ServerState::Lobby {
            Err(LobbyError::NotInLobby)
        } else if client_index(self.roster(), client) is Some {
            Err(LobbyError::AlreadyJoined)
        } else if self.roster().len() >= MAX_PLAYERS {
            Err(LobbyError::LobbyFull)
        } else if self.next_id() == u32::MAX {
            Err(LobbyError::OutOfIds)
        } else {
            Ok(Uuid(self.next_id()))
        }
    }

    /// The session after a player has entered the lobby as the roster's
    /// last: the identifier counter has moved on, a lobby without host has
    /// the newcomer as host, the newcomer waits to be announced as
    /// spawned, and the aggregate ready state is up to date.
    pub open(crate) spec fn has_entered(self, before: Server, id: Uuid) -> bool {
        &&& self == Server {
            id_factory: self.id_factory,
            host: self.host,
            players: self.players,
            lobby_ready_state: self.lobby_ready_state,
            ledger: self.ledger,
            packets: self.packets,
            ..before
        }
        &&& self.next_id() == before.next_id() + 1
        &&& self.host_id() == Some(
            match before.host_id() {
                Some(host) => host,
                None => id,
            },
        )
        &&& self.roster().len() == before.roster().len() + 1
        &&& self.roster().drop_last() == before.roster()
        &&& self.roster().last().id == id
        &&& self.ready() == lobby_ready(self.roster())
        &&& self.pending() == SyncLedger { spawned: self.pending().spawned, ..before.pending() }
        &&& self.pending().spawned() == before.pending().spawned().push(id)
    }

    /// The session after `client` has joined under `name` and got `id`:
    /// the player has entered, the newcomer and the others have been told
    /// as [`join_notices`] says, the newcomer has been shown every player,
    /// itself included, and everyone has been told the aggregate ready
    /// state.
    pub open(crate) spec fn has_joined(
        self,
        before: Server,
        client: Client,
        name: String,
        id: Uuid,
    ) -> bool {
        let old_len = before.roster().len() as int;
        let base = before.outbox().len() as int;
        &&& self.has_entered(before, id)
        &&& self.roster().last() == new_player(id, name, client)
        &&& self.outbox().len() == base + 2 * old_len + 5
        &&& self.outbox().subrange(0, base + old_len + 3) == before.outbox() + join_notices(
            before.roster(),
            self.host_id()->0,
            self.roster().last(),
            client,
        )
        &&& forall|k: int|
            0 <= k <= old_len ==> welcomes_world(
                #[trigger] self.outbox()[base + old_len + 3 + k],
                client,
                self.roster()[k],
            )
        &&& self.outbox().last() == ready_state_pack(self.ready())
    }

    /// What `join` does to the session `before` and answers: a client
    /// that is let in has joined; a full lobby turns the client away with
    /// a message that asks it to disconnect; the other refusals change
    /// nothing.
    pub open(crate) spec fn join_result(
        self,
        before: Server,
        client: Client,
        name: String,
        joined: Result<Uuid, LobbyError>,
    ) -> bool {
        &&& joined == before.join_outcome(client)
        &&& match joined {
            Ok(id) => self.has_joined(before, client, name, id),
            Err(LobbyError::LobbyFull) => self.has_told(before, reject_pack(client, true)),
            Err(_) => self == before,
        }
    }

    /// Lets `client` into the lobby under `name`.
    ///
    /// A client is let in while the session is in the lobby phase, the
    /// client has no player yet, the lobby has room and identifiers are
    /// left.
    pub fn join(&mut self, client: Client, name: String) -> (joined: Result<Uuid, LobbyError>)
        requires
            old(self).wf(),
        ensures
            final(self).wf(),
            final(self).join_result(*old(self), client, name, joined),
    {
        if self.state != ServerState::Lobby {
            return Err(LobbyError::NotInLobby);
        }
        if find_client(&self.players, client).is_some() {
            return Err(LobbyError::AlreadyJoined);
        }
        if self.players.len() >= MAX_PLAYERS {
            self.packets.push(
                Pack::single(
                    ServerMessage::Lobby(
                        LobbyServerMessage::Reject {
                            reason: RejectReason::LobbyFull,
                            disconnect: true,
                        },
                    ),
                    client,
                ),
            );
            return Err(LobbyError::LobbyFull);
        }
        if self.id_factory.exhausted() {
            return Err(LobbyError::OutOfIds);
        }
        let id = self.id_factory.generate();
        let host = match self.host {
            Some(host) => host,
            None => {
                self.host = Some(id);
                id
            },
        };
        self.packets.push(Pack::single(ServerMessage::Lobby(LobbyServerMessage::Welcome(id)), client));
        self.packets.push(
            Pack::single(ServerMessage::Lobby(LobbyServerMessage::SetHost(host)), client),
        );
        send_roster(&mut self.packets, &self.players, client);
        self.packets.push(
            Pack::except(
                ServerMessage::Lobby(LobbyServerMessage::PlayerJoined(id, name.clone())),
                client,
            ),
        );
        let ghost notices = self.packets@;
        self.players.push(
            PlayerRecord {
                id,
                name,
                ready_state: ReadyState::NotReady,
                bot: false,
                client: Some(client),
                loading: false,
                position: None,
                health: None,
                damage: None,
                waypoint: None,
                dead: false,
                winner: false,
                synced_position: None,
                synced_player: false,
            },
        );
        self.ledger.spawned.push(id);
        sync_world(&mut self.packets, &self.players, client);
        let ghost welcomed = self.packets@;
        handle_ready_changed(&self.players, &mut self.lobby_ready_state, &mut self.packets);
        proof {
            let before = *old(self);
            assert(self.roster().drop_last() =~= before.roster());
            assert(notices =~= before.outbox() + join_notices(
                before.roster(),
                host,
                self.roster().last(),
                client,
            ));
            assert(self.outbox().subrange(0, notices.len() as int) =~= welcomed.subrange(
                0,
                notices.len() as int,
            ));
            assert forall|k: int| 0 <= k <= before.roster().len() implies welcomes_world(
                #[trigger] self.outbox()[notices.len() + k],
                client,
                self.roster()[k],
            ) by {
                assert(self.outbox()[notices.len() + k] == welcomed[notices.len() + k]);
            }
            self.lemma_entered(before, id);
        }
        Ok(id)
    }

    /// The connection of the host, if the host has one.
    pub open(crate) spec fn host_client(self) -> Option<Client> {
        match self.host_id() {
            Some(host) => match player_index(self.roster(), host) {
                Some(at) => self.roster()[at].client,
                None => None,
            },
            None => None,
        }
    }

    /// Whether `client` is the connection of the host.
    pub open(crate) spec fn hosted_by(self, client: Client) -> bool {
        client_index(self.roster(), client) matches Some(at) && self.host_id() == Some(
            self.roster()[at].id,
        )
    }

    /// Whether the player `id` is the host.
    pub fn is_host(&self, id: Uuid) -> (hosts: bool)
        ensures
            hosts == (self.host_id() == Some(id)),
    {
        match self.host {
            Some(host) => host.0 == id.0,
            None => false,
        }
    }

    /// What `set_host` does to the session `before` and answers: a player
    /// of the roster is made the host, and every client is told so; no
    /// host is set only for an empty roster; anything else is refused and
    /// changes nothing.
    pub open(crate) spec fn set_host_result(self, before: Server, host: Option<Uuid>, set: bool) -> bool {
        &&& set == host_wf(host, player_ids(before.roster()))
        &&& if set {
            &&& self == Server { host: self.host, packets: self.packets, ..before }
            &&& self.host_id() == host
            &&& self.outbox() == match host {
                Some(id) => before.outbox().push(set_host_pack(id)),
                None => before.outbox(),
            }
        } else {
            self == before
        }
    }

    /// Makes the player `host` the host, or, for an empty roster, sets no
    /// host. Answers whether the host was set.
    pub fn set_host(&mut self, host: Option<Uuid>) -> (set: bool)
        requires
            old(self).wf(),
        ensures
            final(self).wf(),
            final(self).set_host_result(*old(self), host, set),
    {
        proof {
            lemma_parts_distinct(player_ids(self.roster()), shot_ids(self.shots()));
        }
        match host {
            Some(id) => match find_player(&self.players, id) {
                Some(at) => {
                    proof {
                        assert(player_ids(self.roster())[at as int] == id);
                    }
                    self.host = host;
                    self.packets.push(
                        Pack::all(ServerMessage::Lobby(LobbyServerMessage::SetHost(id))),
                    );
                    true
                },
                None => false,
            },
            None => {
                if self.players.len() == 0 {
                    self.host = None;
                    true
                } else {
                    false
                }
            },
        }
    }

    /// Whether `client` is the connection of the host.
    pub fn is_host_client(&self, client: Client) -> (hosts: bool)
        requires
            self.wf(),
        ensures
            hosts == self.hosted_by(client),
    {
        match find_client(&self.players, client) {
            Some(at) => match self.host {
                Some(host) => host.0 == self.players[at].id.0,
                None => false,
            },
            None => false,
        }
    }

    /// What `add_bot` answers.
    pub open(crate) spec fn add_bot_outcome(self) -> Result<Uuid, LobbyError> {
        if self.phase() != ServerState::Lobby {
            Err(LobbyError::NotInLobby)
        } else if self.roster().len() >= MAX_PLAYERS {
            Err(LobbyError::LobbyFull)
        } else if self.next_id() == u32::MAX {
            Err(LobbyError::OutOfIds)
        } else {
            Ok(Uuid(self.next_id()))
        }
    }

    /// What `add_bot` does to the session `before` and answers: a bot that
    /// is let in has entered as a ready player named `BOT`, and every
    /// client is told of it and of the aggregate ready state; a full lobby
    /// tells the host, if it has a connection, without asking it to
    /// disconnect; the other refusals change nothing.
    pub open(crate) spec fn add_bot_result(self, before: Server, added: Result<Uuid, LobbyError>) -> bool {
        &&& added == before.add_bot_outcome()
        &&& match added {
            Ok(id) => {
                &&& self.has_entered(before, id)
                &&& is_new_bot(self.roster().last(), id)
                &&& self.outbox() == before.outbox().push(
                    player_joined_pack(self.roster().last(), Dest::All),
                ).push(ready_state_pack(self.ready()))
            },
            Err(LobbyError::LobbyFull) => match before.host_client() {
                Some(client) => self.has_told(before, reject_pack(client, false)),
                None => self == before,
            },
            Err(_) => self == before,
        }
    }

    /// Adds a bot to the lobby, while the session is in the lobby phase,
    /// the lobby has room and identifiers are left.
    pub fn add_bot(&mut self) -> (added: Result<Uuid, LobbyError>)
        requires
            old(self).wf(),
        ensures
            final(self).wf(),
            final(self).add_bot_result(*old(self), added),
    {
        if self.state != ServerState::Lobby {
            return Err(LobbyError::NotInLobby);
        }
        if self.players.len() >= MAX_PLAYERS {
            let host_client = match self.host {
                Some(host) => match find_player(&self.players, host) {
                    Some(at) => self.players[at].client,
                    None => None,
                },
                None => None,
            };
            match host_client {
                Some(client) => {
                    self.packets.push(
                        Pack::single(
                            ServerMessage::Lobby(
                                LobbyServerMessage::Reject {
                                    reason: RejectReason::LobbyFull,
                                    disconnect: false,
                                },
                            ),
                            client,
                        ),
                    );
                },
                None => {},
            }
            return Err(LobbyError::LobbyFull);
        }
        if self.id_factory.exhausted() {
            return Err(LobbyError::OutOfIds);
        }
        let id = self.id_factory.generate();
        if self.host.is_none() {
            self.host = Some(id);
        }
        let name = "BOT".to_owned();
        self.packets.push(
            Pack::all(ServerMessage::Lobby(LobbyServerMessage::PlayerJoined(id, name.clone()))),
        );
        self.players.push(
            PlayerRecord {
                id,
                name,
                ready_state: ReadyState::Ready,
                bot: true,
                client: None,
                loading: false,
                position: None,
                health: None,
                damage: None,
                waypoint: None,
                dead: false,
                winner: false,
                synced_position: None,
                synced_player: false,
            },
        );
        self.ledger.spawned.push(id);
        handle_ready_changed(&self.players, &mut self.lobby_ready_state, &mut self.packets);
        proof {
            let before = *old(self);
            assert(self.roster().drop_last() =~= before.roster());
            self.lemma_entered(before, id);
        }
        Ok(id)
    }

    /// What `change_ready_state` answers to `client`.
    pub open(crate) spec fn change_ready_outcome(self, client: Client) -> Result<(), LobbyError> {
        if self.phase() != ServerState::Lobby {
            Err(LobbyError::NotInLobby)
        } else if client_index(self.roster(), client) is None {
            Err(LobbyError::UnknownClient)
        } else {
            Ok(())
        }
    }

    /// What `change_ready_state` does to the session `before` and
    /// answers: the player of a known client has the ready state it asked
    /// for, the aggregate ready state is up to date and every client is
    /// told of it; a refusal changes nothing.
    pub open(crate) spec fn change_ready_result(
        self,
        before: Server,
        client: Client,
        ready: ReadyState,
        changed: Result<(), LobbyError>,
    ) -> bool {
        &&& changed == before.change_ready_outcome(client)
        &&& match changed {
            Ok(()) => {
                let at = client_index(before.roster(), client)->0;
                &&& self == Server {
                    players: self.players,
                    lobby_ready_state: self.lobby_ready_state,
                    packets: self.packets,
                    ..before
                }
                &&& self.roster() == before.roster().update(
                    at,
                    PlayerRecord { ready_state: ready, ..before.roster()[at] },
                )
                &&& self.ready() == lobby_ready(self.roster())
                &&& self.outbox() == before.outbox().push(ready_state_pack(self.ready()))
            },
            Err(_) => self == before,
        }
    }

    /// Sets the ready state of the player of `client`.
    pub fn change_ready_state(&mut self, client: Client, ready: ReadyState) -> (changed: Result<
        (),
        LobbyError,
    >)
        requires
            old(self).wf(),
        ensures
            final(self).wf(),
            final(self).change_ready_result(*old(self), client, ready, changed),
    {
        if self.state != ServerState::Lobby {
            return Err(LobbyError::NotInLobby);
        }
        match find_client(&self.players, client) {
            Some(at) => {
                self.players[at].ready_state = ready;
                handle_ready_changed(&self.players, &mut self.lobby_ready_state, &mut self.packets);
                proof {
                    let before = *old(self);
                    assert(self.roster() =~= before.roster().update(
                        at as int,
                        PlayerRecord { ready_state: ready, ..before.roster()[at as int] },
                    ));
                    lemma_same_people(before.roster(), self.roster());
                }
                Ok(())
            },
            None => Err(LobbyError::UnknownClient),
        }
    }

    /// What `start_game` answers to `client`.
    pub open(crate) spec fn start_game_outcome(self, client: Client) -> Result<(), LobbyError> {
        if self.phase() != ServerState::Lobby {
            Err(LobbyError::NotInLobby)
        } else if !self.hosted_by(client) {
            Err(LobbyError::NotHost)
        } else if self.ready() != ReadyState::Ready {
            Err(LobbyError::NotReady)
        } else {
            Ok(())
        }
    }

    /// What `start_game` does to the session `before` and answers: for
    /// the host of a ready lobby, loading has started; a refusal changes
    /// nothing.
    pub open(crate) spec fn start_game_result(
        self,
        before: Server,
        client: Client,
        spawn_points: Seq<Vec3>,
        started: Result<(), LobbyError>,
    ) -> bool {
        &&& started == before.start_game_outcome(client)
        &&& match started {
            Ok(()) => self.loading_started(before, spawn_points),
            Err(_) => self == before,
        }
    }

    /// Starts the game on behalf of `client`, with `spawn_points` as the
    /// places where players enter the arena: for the host, when everyone
    /// in a lobby of more than one player is ready, the session steps
    /// from the lobby into loading.
    pub fn start_game(&mut self, client: Client, spawn_points: Vec<Vec3>) -> (started: Result<
        (),
        LobbyError,
    >)
        requires
            old(self).wf(),
        ensures
            final(self).wf(),
            final(self).start_game_result(*old(self), client, spawn_points@, started),
    {
        if self.state != ServerState::Lobby {
            return Err(LobbyError::NotInLobby);
        }
        if !self.is_host_client(client) {
            return Err(LobbyError::NotHost);
        }
        if self.lobby_ready_state.0 != ReadyState::Ready {
            return Err(LobbyError::NotReady);
        }
        self.enter_wait_loading(spawn_points);
        Ok(())
    }

    /// What `handle_lobby_event` does to the session `before` and answers
    /// with: what the function for the request does, with the identifier
    /// of a player that was let in; a request for the list of players
    /// changes nothing.
    pub open(crate) spec fn lobby_event_result(
        self,
        before: Server,
        event: LobbyEvent,
        spawn_points: Seq<Vec3>,
        handled: Result<Option<Uuid>, LobbyError>,
    ) -> bool {
        let client = event.sender();
        match event.request() {
            LobbyClientMessage::Join(name) => {
                let joined = before.join_outcome(client);
                &&& self.join_result(before, client, name, joined)
                &&& handled == match joined {
                    Ok(id) => Ok::<Option<Uuid>, LobbyError>(Some(id)),
                    Err(error) => Err(error),
                }
            },
            LobbyClientMessage::ChangeReadyState(ready) => {
                let changed = before.change_ready_outcome(client);
                &&& self.change_ready_result(before, client, ready, changed)
                &&& handled == match changed {
                    Ok(()) => Ok::<Option<Uuid>, LobbyError>(None),
                    Err(error) => Err(error),
                }
            },
            LobbyClientMessage::GetPlayerList => {
                &&& self == before
                &&& handled == Ok::<Option<Uuid>, LobbyError>(None)
            },
            LobbyClientMessage::AddBot => {
                let added = before.add_bot_outcome();
                &&& self.add_bot_result(before, added)
                &&& handled == match added {
                    Ok(id) => Ok::<Option<Uuid>, LobbyError>(Some(id)),
                    Err(error) => Err(error),
                }
            },
            LobbyClientMessage::StartGame => {
                let started = before.start_game_outcome(client);
                &&& self.start_game_result(before, client, spawn_points, started)
                &&& handled == match started {
                    Ok(()) => Ok::<Option<Uuid>, LobbyError>(None),
                    Err(error) => Err(error),
                }
            },
        }
    }

    /// Does what a client asks of the lobby. `spawn_points` are the places
    /// where players enter the arena if this request starts the game.
    pub fn handle_lobby_event(&mut self, event: LobbyEvent, spawn_points: Vec<Vec3>) -> (handled:
        Result<Option<Uuid>, LobbyError>)
        requires
            old(self).wf(),
        ensures
            final(self).wf(),
            final(self).lobby_event_result(*old(self), event, spawn_points@, handled),
    {
        let client = event.client;
        match event.event {
            LobbyClientMessage::Join(name) => match self.join(client, name) {
                Ok(id) => Ok(Some(id)),
                Err(error) => Err(error),
            },
            LobbyClientMessage::ChangeReadyState(ready) => match self.change_ready_state(
                client,
                ready,
            ) {
                Ok(()) => Ok(None),
                Err(error) => Err(error),
            },
            LobbyClientMessage::GetPlayerList => Ok(None),
            LobbyClientMessage::AddBot => match self.add_bot() {
                Ok(id) => Ok(Some(id)),
                Err(error) => Err(error),
            },
            LobbyClientMessage::StartGame => match self.start_game(client, spawn_points) {
                Ok(()) => Ok(None),
                Err(error) => Err(error),
            },
        }
    }

    /// A session that a player has entered is well formed, if its record
    /// is and its connection, if it has one, is new.
    pub(crate) proof fn lemma_entered(self, before: Server, id: Uuid)
        requires
            before.wf(),
            before.phase() == ServerState::Lobby,
            before.roster().len() < MAX_PLAYERS,
            before.next_id() < u32::MAX,
            id == Uuid(before.next_id()),
            self.has_entered(before, id),
            self.roster().last().wf(),
            self.roster().last().client matches Some(client) ==> client_index(
                before.roster(),
                client,
            ) is None,
        ensures
            self.wf(),
    {
        let roster = self.roster();
        let last = roster.last();
        assert(roster =~= before.roster().push(last));
        assert(player_ids(roster) =~= player_ids(before.roster()).push(id));
        assert(player_clients(roster) =~= player_clients(before.roster()).push(last.client));
        assert(shot_ids(self.shots()) =~= Seq::<Uuid>::empty());
        assert(shot_ids(before.shots()) =~= Seq::<Uuid>::empty());
        assert(player_ids(roster) + shot_ids(self.shots()) =~= (player_ids(before.roster())
            + shot_ids(before.shots())).push(id));
        lemma_distinct_push(
            player_ids(before.roster()) + shot_ids(before.shots()),
            id,
            before.next_id(),
        );
        let clients = player_clients(roster);
        assert forall|i: int, j: int|
            0 <= i < j < clients.len() && clients[i] is Some implies clients[i] != clients[j] by {
            if j < before.roster().len() {
                assert(clients[i] == player_clients(before.roster())[i]);
                assert(clients[j] == player_clients(before.roster())[j]);
            } else {
                assert(clients[i] == player_clients(before.roster())[i]);
                if last.client is Some {
                    assert(!player_clients(before.roster()).contains(last.client));
                }
            }
        }
        assert forall|i: int| 0 <= i < roster.len() implies (#[trigger] roster[i]).wf() by {
            if i < before.roster().len() {
                assert(roster[i] == before.roster()[i]);
            }
        }
        match before.host_id() {
            Some(host) => {
                let at = choose|at: int|
                    0 <= at < player_ids(before.roster()).len() && player_ids(before.roster())[at]
                        == host;
                assert(player_ids(roster)[at] == host);
            },
            None => {
                assert(player_ids(roster)[roster.len() - 1] == id);
            },
        }
    }
}

} // verus!
