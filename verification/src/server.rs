//! The state of one session and what holds of it between calls.

use vstd::prelude::*;
use crate::arena::Arena;
use crate::components::{Client, Owner, Position, ReadyState, Uuid, Waypoint};
use crate::damage::{Damage, FireBall};
use crate::health::Health;
use crate::network::Pack;
use crate::resources::{DespawnedList, IdFactory, MAX_PLAYERS};
use crate::server_messages::ServerMessage;
use crate::states::{BattleState, ServerState};
use crate::timer::{Countdown, LifeTime, TimerState};

verus! {

/// A message on its way to clients.
pub type ServerPacket = Pack<ServerMessage>;

/// Everything the session knows of one player.
#[derive(Debug)]
pub struct PlayerRecord {
    pub id: Uuid,
    pub name: String,
    pub ready_state: ReadyState,
    /// Whether the server plays this player.
    pub bot: bool,
    /// The connection of the player; a bot has none.
    pub client: Option<Client>,
    /// Whether the player's client still has to report that it has loaded.
    pub loading: bool,
    pub position: Option<Position>,
    pub health: Option<Health>,
    /// The damage effect waiting to be applied.
    pub damage: Option<Damage>,
    pub waypoint: Option<Waypoint>,
    pub dead: bool,
    pub winner: bool,
    /// The position last told to clients.
    pub synced_position: Option<Position>,
    /// Whether clients have been told that this entity is a player.
    pub synced_player: bool,
}

impl PlayerRecord {
    /// Bots are the players without a connection, and only a connected
    /// player can be awaited.
    pub open spec fn wf(&self) -> bool {
        &&& self.bot <==> self.client is None
        &&& self.loading ==> !self.bot
    }

    /// Whether the player has health and none of it is left.
    pub open spec fn out_of_health(&self) -> bool {
        self.health is Some && self.health->0.points() == 0
    }
}

/// A fire ball in flight.
#[derive(Debug)]
pub struct Projectile {
    pub id: Uuid,
    pub position: Position,
    pub fire_ball: FireBall,
    pub owner: Owner,
    pub life_time: LifeTime,
    /// The position last told to clients.
    pub synced_position: Option<Position>,
}

/// A projectile with its timer read out.
pub struct ProjectileView {
    pub id: Uuid,
    pub position: Position,
    pub fire_ball: FireBall,
    pub owner: Owner,
    pub timer: TimerState,
    pub synced_position: Option<Position>,
}

impl View for Projectile {
    type V = ProjectileView;

    open spec fn view(&self) -> ProjectileView {
        ProjectileView {
            id: self.id,
            position: self.position,
            fire_ball: self.fire_ball,
            owner: self.owner,
            timer: self.life_time.timer.state(),
            synced_position: self.synced_position,
        }
    }
}

/// The views of `shots`, in order.
pub open spec fn shot_views(shots: Seq<Projectile>) -> Seq<ProjectileView> {
    shots.map_values(|shot: Projectile| shot@)
}

/// The aggregate ready state of the lobby.
#[derive(Debug, Copy, Clone, PartialEq, Eq, Structural)]
pub struct LobbyReadyState(pub ReadyState);

/// Times and forces of a session.
#[derive(Debug, Copy, Clone, PartialEq, Eq, Structural)]
pub struct ServerConfig {
    /// How long players may shop, in seconds.
    pub shopping_seconds: u32,
    /// How long players wait in place before a battle, in seconds.
    pub preparation_seconds: u32,
    /// The number of rounds of a match.
    pub total_rounds: u32,
    /// The bit pattern of the force with which a fire ball pushes.
    pub knockback_force: u32,
}

/// The players that joined and left since clients were last told.
#[derive(Debug)]
pub struct SyncLedger {
    pub(crate) spawned: Vec<Uuid>,
    pub(crate) despawned: DespawnedList,
}

/// The shopping countdown.
#[derive(Debug)]
pub struct ShoppingTimer {
    pub timer: Countdown,
}

/// The countdown before a battle starts.
#[derive(Debug)]
pub struct PreparationTimer(pub Countdown);

/// One session: its phase, its players and projectiles, and the messages
/// waiting to be sent.
#[derive(Debug)]
pub struct Server {
    pub(crate) config: ServerConfig,
    pub(crate) state: ServerState,
    pub(crate) battle_state: BattleState,
    pub(crate) id_factory: IdFactory,
    pub(crate) host: Option<Uuid>,
    pub(crate) players: Vec<PlayerRecord>,
    pub(crate) projectiles: Vec<Projectile>,
    pub(crate) lobby_ready_state: LobbyReadyState,
    pub(crate) arena: Option<Arena>,
    pub(crate) shopping_timer: ShoppingTimer,
    pub(crate) preparation_timer: PreparationTimer,
    pub(crate) ledger: SyncLedger,
    pub(crate) packets: Vec<ServerPacket>,
}

/// The identifiers of `roster`, in order.
pub open spec fn player_ids(roster: Seq<PlayerRecord>) -> Seq<Uuid> {
    roster.map_values(|player: PlayerRecord| player.id)
}

/// The connections of `roster`, in order.
pub open spec fn player_clients(roster: Seq<PlayerRecord>) -> Seq<Option<Client>> {
    roster.map_values(|player: PlayerRecord| player.client)
}

/// The identifiers of `shots`, in order.
pub open spec fn shot_ids(shots: Seq<ProjectileView>) -> Seq<Uuid> {
    shots.map_values(|shot: ProjectileView| shot.id)
}

/// No identifier occurs twice in `ids`.
pub open spec fn distinct(ids: Seq<Uuid>) -> bool {
    forall|i: int, j: int| 0 <= i < j < ids.len() ==> ids[i] != ids[j]
}

/// Every identifier in `ids` has been issued by a factory that hands out
/// `next` next.
pub open spec fn issued(ids: Seq<Uuid>, next: u32) -> bool {
    forall|i: int| 0 <= i < ids.len() ==> (#[trigger] ids[i]).0 < next
}

/// No connection has two players.
pub open spec fn one_player_each(clients: Seq<Option<Client>>) -> bool {
    forall|i: int, j: int|
        0 <= i < j < clients.len() && clients[i] is Some ==> clients[i] != clients[j]
}

/// None of the identifiers `left` is among the identifiers `live`.
pub open spec fn none_live(left: Seq<Uuid>, live: Seq<Uuid>) -> bool {
    forall|k: int| 0 <= k < left.len() ==> !live.contains(#[trigger] left[k])
}

/// Every record of `roster` is well formed.
pub open spec fn records_wf(roster: Seq<PlayerRecord>) -> bool {
    forall|i: int| 0 <= i < roster.len() ==> (#[trigger] roster[i]).wf()
}

/// The host is a player of the roster, and there is one unless the roster
/// is empty.
pub open spec fn host_wf(host: Option<Uuid>, ids: Seq<Uuid>) -> bool {
    match host {
        Some(id) => ids.contains(id),
        None => ids.len() == 0,
    }
}

/// Whether every player of `roster` is ready.
pub open spec fn all_ready(roster: Seq<PlayerRecord>) -> bool {
    forall|i: int| 0 <= i < roster.len() ==> (#[trigger] roster[i]).ready_state == ReadyState::Ready
}

/// The aggregate ready state of a lobby with this roster: ready when more
/// than one player is there and all of them are ready.
pub open spec fn lobby_ready(roster: Seq<PlayerRecord>) -> ReadyState {
    if roster.len() > 1 && all_ready(roster) {
        ReadyState::Ready
    } else {
        ReadyState::NotReady
    }
}

/// The place of the player with connection `client` in `roster`, if any.
pub open spec fn client_index(roster: Seq<PlayerRecord>, client: Client) -> Option<int> {
    let clients = player_clients(roster);
    if clients.contains(Some(client)) {
        Some(clients.index_of(Some(client)))
    } else {
        None
    }
}

/// The place of the player with identifier `id` in `roster`, if any.
pub open spec fn player_index(roster: Seq<PlayerRecord>, id: Uuid) -> Option<int> {
    let ids = player_ids(roster);
    if ids.contains(id) {
        Some(ids.index_of(id))
    } else {
        None
    }
}

/// Finds the player with connection `client`.
pub fn find_client(players: &Vec<PlayerRecord>, client: Client) -> (found: Option<usize>)
    requires
        one_player_each(player_clients(players@)),
    ensures
        found matches Some(i) ==> i < players.len() && players[i as int].client == Some(client),
        match found {
            Some(i) => client_index(players@, client) == Some(i as int),
            None => client_index(players@, client) is None,
        },
{
    let ghost clients = player_clients(players@);
    let mut i: usize = 0;
    while i < players.len()
        invariant
            i <= players.len(),
            clients == player_clients(players@),
            one_player_each(clients),
            forall|j: int| 0 <= j < i ==> clients[j] != Some(client),
        decreases players.len() - i,
    {
        let same = match players[i].client {
            Some(other) => other.0 == client.0,
            None => false,
        };
        if same {
            proof {
                assert(clients[i as int] == Some(client));
                assert(clients.contains(Some(client)));
                let first = clients.index_of(Some(client));
                if first > i {
                    assert(clients[i as int] != clients[first]);
                }
            }
            return Some(i);
        }
        i = i + 1;
    }
    None
}

/// Finds the player with identifier `id`.
pub fn find_player(players: &Vec<PlayerRecord>, id: Uuid) -> (found: Option<usize>)
    requires
        distinct(player_ids(players@)),
    ensures
        found matches Some(i) ==> i < players.len() && players[i as int].id == id,
        match found {
            Some(i) => player_index(players@, id) == Some(i as int),
            None => player_index(players@, id) is None,
        },
{
    let ghost ids = player_ids(players@);
    let mut i: usize = 0;
    while i < players.len()
        invariant
            i <= players.len(),
            ids == player_ids(players@),
            distinct(ids),
            forall|j: int| 0 <= j < i ==> ids[j] != id,
        decreases players.len() - i,
    {
        if players[i].id.0 == id.0 {
            proof {
                assert(ids[i as int] == id);
                assert(ids.contains(id));
                let first = ids.index_of(id);
                if first > i {
                    assert(ids[i as int] != ids[first]);
                }
            }
            return Some(i);
        }
        i = i + 1;
    }
    None
}

/// Records that keep their identifiers and connections keep their places.
pub proof fn lemma_same_people(before: Seq<PlayerRecord>, after: Seq<PlayerRecord>)
    requires
        after.len() == before.len(),
        forall|i: int|
            0 <= i < before.len() ==> (#[trigger] after[i]).id == before[i].id && after[i].client
                == before[i].client,
    ensures
        player_ids(after) == player_ids(before),
        player_clients(after) == player_clients(before),
{
    assert(player_ids(after) =~= player_ids(before));
    assert(player_clients(after) =~= player_clients(before));
}

/// The place of the projectile with identifier `id` in `shots`, if any.
pub open spec fn shot_index(shots: Seq<ProjectileView>, id: Uuid) -> Option<int> {
    let ids = shot_ids(shots);
    if ids.contains(id) {
        Some(ids.index_of(id))
    } else {
        None
    }
}

/// Finds the projectile with identifier `id`.
pub fn find_shot(projectiles: &Vec<Projectile>, id: Uuid) -> (found: Option<usize>)
    requires
        distinct(shot_ids(shot_views(projectiles@))),
    ensures
        found matches Some(i) ==> i < projectiles.len() && projectiles[i as int].id == id,
        match found {
            Some(i) => shot_index(shot_views(projectiles@), id) == Some(i as int),
            None => shot_index(shot_views(projectiles@), id) is None,
        },
{
    let ghost ids = shot_ids(shot_views(projectiles@));
    let mut i: usize = 0;
    while i < projectiles.len()
        invariant
            i <= projectiles.len(),
            ids == shot_ids(shot_views(projectiles@)),
            distinct(ids),
            forall|j: int| 0 <= j < i ==> ids[j] != id,
        decreases projectiles.len() - i,
    {
        if projectiles[i].id.0 == id.0 {
            proof {
                assert(ids[i as int] == id);
                assert(ids.contains(id));
                let first = ids.index_of(id);
                if first > i {
                    assert(ids[i as int] != ids[first]);
                }
            }
            return Some(i);
        }
        i = i + 1;
    }
    None
}

/// Identifiers that are distinct together are distinct apart, and none
/// is on both sides.
pub proof fn lemma_parts_distinct(ids: Seq<Uuid>, shots: Seq<Uuid>)
    requires
        distinct(ids + shots),
    ensures
        distinct(ids),
        distinct(shots),
        forall|i: int, j: int| 0 <= i < ids.len() && 0 <= j < shots.len() ==> ids[i] != shots[j],
{
    let all = ids + shots;
    assert forall|i: int, j: int| 0 <= i < j < ids.len() implies ids[i] != ids[j] by {
        assert(all[i] == ids[i] && all[j] == ids[j]);
    }
    assert forall|i: int, j: int| 0 <= i < j < shots.len() implies shots[i] != shots[j] by {
        assert(all[ids.len() + i] == shots[i] && all[ids.len() + j] == shots[j]);
    }
    assert forall|i: int, j: int| 0 <= i < ids.len() && 0 <= j < shots.len() implies ids[i]
        != shots[j] by {
        assert(all[i] == ids[i] && all[ids.len() + j] == shots[j]);
    }
}

/// Records that keep their ready states keep the lobby as ready as it
/// was.
pub proof fn lemma_same_readiness(before: Seq<PlayerRecord>, after: Seq<PlayerRecord>)
    requires
        after.len() == before.len(),
        forall|i: int|
            0 <= i < before.len() ==> (#[trigger] after[i]).ready_state == before[i].ready_state,
    ensures
        lobby_ready(after) == lobby_ready(before),
{
    if all_ready(before) {
        assert forall|i: int| 0 <= i < after.len() implies (#[trigger] after[i]).ready_state
            == ReadyState::Ready by {
            assert(before[i].ready_state == ReadyState::Ready);
        }
    }
    if all_ready(after) {
        assert forall|i: int| 0 <= i < before.len() implies (#[trigger] before[i]).ready_state
            == ReadyState::Ready by {
            assert(after[i].ready_state == ReadyState::Ready);
        }
    }
}

/// Identifiers that were issued together were issued apart.
pub proof fn lemma_shots_issued(ids: Seq<Uuid>, shots: Seq<Uuid>, next: u32)
    requires
        issued(ids + shots, next),
    ensures
        issued(ids, next),
        issued(shots, next),
{
    let all = ids + shots;
    assert forall|i: int| 0 <= i < ids.len() implies (#[trigger] ids[i]).0 < next by {
        assert(all[i] == ids[i]);
    }
    assert forall|i: int| 0 <= i < shots.len() implies (#[trigger] shots[i]).0 < next by {
        assert(all[ids.len() + i] == shots[i]);
    }
}

/// Identifiers that are not among the live ones are not among fewer of
/// them.
pub proof fn lemma_none_live_of_fewer(left: Seq<Uuid>, live: Seq<Uuid>, fewer: Seq<Uuid>)
    requires
        none_live(left, live),
        forall|i: int| 0 <= i < fewer.len() ==> live.contains(#[trigger] fewer[i]),
    ensures
        none_live(left, fewer),
{
    assert forall|k: int| 0 <= k < left.len() implies !fewer.contains(#[trigger] left[k]) by {
        if fewer.contains(left[k]) {
            let i = choose|i: int| 0 <= i < fewer.len() && fewer[i] == left[k];
            assert(live.contains(fewer[i]));
        }
    }
}

/// A fresh identifier can join identifiers that were issued before it.
pub proof fn lemma_distinct_push(ids: Seq<Uuid>, id: Uuid, next: u32)
    requires
        distinct(ids),
        issued(ids, next),
        id.0 == next,
        next < u32::MAX,
    ensures
        distinct(ids.push(id)),
        issued(ids.push(id), (next + 1) as u32),
{
    let more = ids.push(id);
    assert forall|i: int, j: int| 0 <= i < j < more.len() implies more[i] != more[j] by {
        assert(more[i] == ids[i]);
        if j < ids.len() {
            assert(more[j] == ids[j]);
        } else {
            assert(ids[i].0 < next);
        }
    }
    assert forall|i: int| 0 <= i < more.len() implies (#[trigger] more[i]).0 < next + 1 by {
        if i < ids.len() {
            assert(more[i] == ids[i]);
        }
    }
}

/// Taking an identifier away keeps the others distinct and issued.
pub proof fn lemma_distinct_remove(ids: Seq<Uuid>, at: int, next: u32)
    requires
        distinct(ids),
        issued(ids, next),
        0 <= at < ids.len(),
    ensures
        distinct(ids.remove(at)),
        issued(ids.remove(at), next),
        !ids.remove(at).contains(ids[at]),
{
    let fewer = ids.remove(at);
    assert forall|i: int, j: int| 0 <= i < j < fewer.len() implies fewer[i] != fewer[j] by {
        let a = if i < at { i } else { i + 1 };
        let b = if j < at { j } else { j + 1 };
        assert(fewer[i] == ids[a]);
        assert(fewer[j] == ids[b]);
    }
    assert forall|i: int| 0 <= i < fewer.len() implies (#[trigger] fewer[i]).0 < next by {
        let a = if i < at { i } else { i + 1 };
        assert(fewer[i] == ids[a]);
    }
    if fewer.contains(ids[at]) {
        let i = choose|i: int| 0 <= i < fewer.len() && fewer[i] == ids[at];
        let a = if i < at { i } else { i + 1 };
        assert(fewer[i] == ids[a]);
        if a < at {
            assert(ids[a] != ids[at]);
        } else {
            assert(ids[at] != ids[a]);
        }
    }
}

impl SyncLedger {
    /// The identifiers of the players that joined since the last flush.
    pub open(crate) spec fn spawned(&self) -> Seq<Uuid> {
        self.spawned@
    }

    /// The identifiers of the players that left since the last flush.
    pub open(crate) spec fn despawned(&self) -> Seq<Uuid> {
        self.despawned@
    }
}

impl Server {
    /// The settings of the session.
    pub open(crate) spec fn settings(&self) -> ServerConfig {
        self.config
    }

    /// The phase of the session.
    pub open(crate) spec fn phase(&self) -> ServerState {
        self.state
    }

    /// The stage of the battle.
    pub open(crate) spec fn stage(&self) -> BattleState {
        self.battle_state
    }

    /// The identifier that is issued next.
    pub open(crate) spec fn next_id(&self) -> u32 {
        self.id_factory.next()
    }

    /// The host, if there is one.
    pub open(crate) spec fn host_id(&self) -> Option<Uuid> {
        self.host
    }

    /// The players, in the order in which they joined.
    pub open(crate) spec fn roster(&self) -> Seq<PlayerRecord> {
        self.players@
    }

    /// The projectiles in flight, oldest first.
    pub open(crate) spec fn shots(&self) -> Seq<ProjectileView> {
        shot_views(self.projectiles@)
    }

    /// The aggregate ready state last computed.
    pub open(crate) spec fn ready(&self) -> ReadyState {
        self.lobby_ready_state.0
    }

    /// The arena, once it has been set up.
    pub open(crate) spec fn arena_of(&self) -> Option<Arena> {
        self.arena
    }

    /// The state of the shopping countdown.
    pub open(crate) spec fn shopping(&self) -> TimerState {
        self.shopping_timer.timer.state()
    }

    /// The state of the countdown before the battle.
    pub open(crate) spec fn preparation(&self) -> TimerState {
        self.preparation_timer.0.state()
    }

    /// What waits to be told about entities.
    pub open(crate) spec fn pending(&self) -> SyncLedger {
        self.ledger
    }

    /// The messages waiting to be sent, oldest first.
    pub open(crate) spec fn outbox(&self) -> Seq<ServerPacket> {
        self.packets@
    }

    /// What holds of a session between calls.
    pub open(crate) spec fn wf(&self) -> bool {
        let ids = player_ids(self.roster());
        let shots = shot_ids(self.shots());
        &&& self.roster().len() <= MAX_PLAYERS
        &&& records_wf(self.roster())
        &&& one_player_each(player_clients(self.roster()))
        &&& distinct(ids + shots)
        &&& issued(ids + shots, self.next_id())
        &&& host_wf(self.host_id(), ids)
        &&& issued(self.pending().despawned(), self.next_id())
        &&& none_live(self.pending().despawned(), ids + shots)
        &&& self.phase() == ServerState::Init ==> self.roster().len() == 0
        &&& self.phase() == ServerState::Lobby ==> self.ready() == lobby_ready(self.roster())
        &&& (self.phase() == ServerState::Init || self.phase() == ServerState::Lobby
            || self.arena_of() is Some)
        &&& (self.stage() != BattleState::Idle <==> self.phase() == ServerState::Battle)
        &&& (self.phase() != ServerState::Battle ==> self.shots().len() == 0)
    }

    /// A session in its first phase, without players.
    pub fn new(config: ServerConfig) -> (server: Server)
        ensures
            server.wf(),
            server.settings() == config,
            server.phase() == ServerState::Init,
            server.stage() == BattleState::Idle,
            server.next_id() == 0,
            server.host_id() is None,
            server.roster().len() == 0,
            server.shots().len() == 0,
            server.arena_of() is None,
            server.pending().spawned().len() == 0,
            server.pending().despawned().len() == 0,
            server.outbox().len() == 0,
    {
        let server = Server {
            config,
            state: ServerState::Init,
            battle_state: BattleState::Idle,
            id_factory: IdFactory::default(),
            host: None,
            players: Vec::new(),
            projectiles: Vec::new(),
            lobby_ready_state: LobbyReadyState(ReadyState::NotReady),
            arena: None,
            shopping_timer: ShoppingTimer { timer: Countdown::from_seconds(config.shopping_seconds) },
            preparation_timer: PreparationTimer(
                Countdown::from_seconds(config.preparation_seconds),
            ),
            ledger: SyncLedger {
                spawned: Vec::new(),
                despawned: DespawnedList::default(),
            },
            packets: Vec::new(),
        };
        assert(player_ids(server.roster()) + shot_ids(server.shots()) =~= Seq::<Uuid>::empty());
        server
    }
}

} // verus!
