//! The tick of a session: what each phase does when time passes, and what
//! the session shows of itself.

use vstd::prelude::*;
use crate::arena::Arena;
use crate::battle::{
    apply_damage_system, check_winner_system, checked, crowned, damaged, handle_health_system,
    survivors, RoundResult,
};
use crate::components::{Client, ReadyState, Uuid};
use crate::loading::all_loaded;
use crate::sequences::lemma_filter_push;
use crate::server::{
    lemma_same_people, shot_views, LobbyReadyState, PlayerRecord, Projectile, Server,
    ServerConfig, ServerPacket,
};
use crate::states::{BattleState, ServerState};

verus! {

/// The roster after one tick of the fight: queued damage has been
/// applied, players without health left are dead, and if one player is
/// left alive, it is the winner.
pub open(crate) spec fn resolved(roster: Seq<PlayerRecord>) -> Seq<PlayerRecord> {
    let hurt = roster.map_values(|player: PlayerRecord| checked(damaged(player)));
    if survivors(hurt).len() == 1 {
        hurt.map_values(|player: PlayerRecord| crowned(player))
    } else {
        hurt
    }
}

/// The connections of the players of `roster` that have one, in order.
pub open spec fn connected(roster: Seq<PlayerRecord>) -> Seq<Client> {
    roster.filter(|player: PlayerRecord| player.client is Some).map_values(
        |player: PlayerRecord| player.client->0,
    )
}

impl Server {
    /// The session after the step from its first phase into the lobby.
    pub open(crate) spec fn lobby_entered(self, before: Server) -> bool {
        &&& self == Server {
            state: self.state,
            lobby_ready_state: self.lobby_ready_state,
            ..before
        }
        &&& self.phase() == ServerState::Lobby
        &&& self.ready() == ReadyState::NotReady
    }

    /// The session after one tick of the fight: the roster is
    /// [`resolved`].
    pub open(crate) spec fn fought(self, before: Server) -> bool {
        &&& self == Server { players: self.players, ..before }
        &&& self.roster() == resolved(before.roster())
    }

    /// What `update` does to the session `before` and answers, by phase.
    ///
    /// The first phase leads into the lobby. While loading, the session
    /// goes shopping once no player is awaited. While shopping, the
    /// countdown advances and, once finished, leads into battle. While a
    /// battle is prepared, the countdown to its start advances. While the
    /// battle is on, the fight is resolved, the round ends if a player has
    /// won it, which is then the answer, and the fire balls age. The lobby
    /// and the result do nothing when time passes.
    pub open(crate) spec fn update_result(
        self,
        before: Server,
        delta_nanos: u64,
        over: Option<RoundResult>,
    ) -> bool {
        match before.phase() {
            ServerState::Init => over is None && self.lobby_entered(before),
            ServerState::Lobby | ServerState::ShowResult => over is None && self == before,
            ServerState::WaitLoading => over is None && self.players_loading_result(
                before,
                all_loaded(before.roster()),
            ),
            ServerState::Shopping => over is None && exists|ticked: Server|
                #![trigger ticked.update_timer_result(before, delta_nanos)]
                ticked.update_timer_result(before, delta_nanos) && self.check_timer_result(
                    ticked,
                    ticked.shopping().finished,
                ),
            ServerState::Battle => match before.stage() {
                BattleState::Prepare => over is None && self.check_preparation_result(
                    before,
                    delta_nanos,
                    self.stage() == BattleState::Battle,
                ),
                BattleState::Battle => exists|hurt: Server, judged: Server|
                    #![trigger hurt.fought(before), judged.switch_state_result(hurt, over)]
                    hurt.fought(before) && judged.switch_state_result(hurt, over)
                        && self.lifetime_result(judged, delta_nanos),
                BattleState::Idle => over is None && self == before,
            },
        }
    }

    /// Lets `delta_nanos` nanoseconds pass. What clients have to be told
    /// of entities afterwards is queued by `sync_system`.
    pub fn update(&mut self, delta_nanos: u64) -> (over: Option<RoundResult>)
        requires
            old(self).wf(),
        ensures
            final(self).wf(),
            final(self).update_result(*old(self), delta_nanos, over),
    {
        let ghost before = *old(self);
        match self.state {
            ServerState::Init => {
                self.state = ServerState::Lobby;
                self.lobby_ready_state = LobbyReadyState(ReadyState::NotReady);
                None
            },
            ServerState::Lobby | ServerState::ShowResult => None,
            ServerState::WaitLoading => {
                self.check_players_loading();
                None
            },
            ServerState::Shopping => {
                self.update_timer(delta_nanos);
                let ghost ticked = *self;
                self.check_timer();
                assert(ticked.update_timer_result(before, delta_nanos));
                None
            },
            ServerState::Battle => match self.battle_state {
                BattleState::Prepare => {
                    self.check_preparation_timer(delta_nanos);
                    None
                },
                BattleState::Battle => {
                    apply_damage_system(&mut self.players);
                    handle_health_system(&mut self.players);
                    check_winner_system(&mut self.players);
                    proof {
                        let hurt = before.roster().map_values(
                            |player: PlayerRecord| checked(damaged(player)),
                        );
                        assert(before.roster().map_values(
                            |player: PlayerRecord| damaged(player),
                        ).map_values(|player: PlayerRecord| checked(player)) =~= hurt);
                        lemma_same_people(before.roster(), self.roster());
                    }
                    let ghost hurt = *self;
                    let over = self.check_switch_state_system();
                    let ghost judged = *self;
                    self.track_lifetime_system(delta_nanos);
                    assert(hurt.fought(before) && judged.switch_state_result(hurt, over));
                    over
                },
                BattleState::Idle => None,
            },
        }
    }

    /// The settings of the session.
    pub fn config(&self) -> (config: ServerConfig)
        ensures
            config == self.settings(),
    {
        self.config
    }

    /// The phase of the session.
    pub fn state(&self) -> (state: ServerState)
        ensures
            state == self.phase(),
    {
        self.state
    }

    /// The stage of the battle.
    pub fn battle_state(&self) -> (stage: BattleState)
        ensures
            stage == self.stage(),
    {
        self.battle_state
    }

    /// The host, if there is one.
    pub fn host(&self) -> (host: Option<Uuid>)
        ensures
            host == self.host_id(),
    {
        self.host
    }

    /// The players, in the order in which they joined.
    pub fn players(&self) -> (players: &Vec<PlayerRecord>)
        ensures
            players@ == self.roster(),
    {
        &self.players
    }

    /// The projectiles in flight, oldest first.
    pub fn projectiles(&self) -> (projectiles: &Vec<Projectile>)
        ensures
            shot_views(projectiles@) == self.shots(),
    {
        &self.projectiles
    }

    /// The aggregate ready state last computed.
    pub fn lobby_ready_state(&self) -> (ready: LobbyReadyState)
        ensures
            ready.0 == self.ready(),
    {
        self.lobby_ready_state
    }

    /// The arena, once it has been set up.
    pub fn arena(&self) -> (arena: &Option<Arena>)
        ensures
            *arena == self.arena_of(),
    {
        &self.arena
    }

    /// The messages waiting to be sent, oldest first.
    pub fn packets(&self) -> (packets: &Vec<ServerPacket>)
        ensures
            packets@ == self.outbox(),
    {
        &self.packets
    }

    /// The session after its outbox has been emptied.
    pub open(crate) spec fn emptied(self, before: Server) -> bool {
        &&& self == Server { packets: self.packets, ..before }
        &&& self.outbox().len() == 0
    }

    /// Hands out the messages waiting to be sent, oldest first, and
    /// leaves none waiting.
    pub fn take_packets(&mut self) -> (packets: Vec<ServerPacket>)
        ensures
            packets@ == old(self).outbox(),
            final(self).emptied(*old(self)),
            old(self).wf() ==> final(self).wf(),
    {
        let mut packets: Vec<ServerPacket> = Vec::new();
        std::mem::swap(&mut packets, &mut self.packets);
        packets
    }

    /// The connections of the players that have one, in roster order.
    pub fn clients(&self) -> (clients: Vec<Client>)
        ensures
            clients@ == connected(self.roster()),
    {
        let ghost has_client = |player: PlayerRecord| player.client is Some;
        let ghost client_of = |player: PlayerRecord| player.client->0;
        let mut clients: Vec<Client> = Vec::new();
        let mut i: usize = 0;
        assert(self.players@.subrange(0, 0) =~= Seq::<PlayerRecord>::empty());
        assert(clients@ =~= self.players@.subrange(0, 0).filter(has_client).map_values(client_of));
        while i < self.players.len()
            invariant
                i <= self.players.len(),
                has_client == |player: PlayerRecord| player.client is Some,
                client_of == |player: PlayerRecord| player.client->0,
                clients@ == self.players@.subrange(0, i as int).filter(has_client).map_values(
                    client_of,
                ),
            decreases self.players.len() - i,
        {
            proof {
                let seen = self.players@.subrange(0, i as int);
                let player = self.players@[i as int];
                assert(self.players@.subrange(0, i + 1) =~= seen.push(player));
                lemma_filter_push(seen, player, has_client);
                assert(seen.filter(has_client).push(player).map_values(client_of) =~= seen.filter(
                    has_client,
                ).map_values(client_of).push(client_of(player)));
            }
            match self.players[i].client {
                Some(client) => {
                    clients.push(client);
                },
                None => {},
            }
            i = i + 1;
        }
        assert(self.players@.subrange(0, i as int) =~= self.players@);
        clients
    }
}

} // verus!
