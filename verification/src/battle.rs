//! The battle: players are put in place, move, throw fire balls, take
//! damage and die, until one of them is left.

use vstd::prelude::*;
use crate::components::{Client, Owner, Position, Uuid, Vec3, Waypoint};
use crate::damage::{Attack, Damage, FireBall};
use crate::events::InsertPlayerEvent;
use crate::health::Health;
use crate::network::{Dest, Pack};
use crate::sequences::lemma_filter_push;
use crate::client_messages::ActionMessage;
use crate::events::{ClientEvent, SpawnEvent};
use crate::server::{
    client_index, distinct, find_client, issued, find_player, find_shot, lemma_distinct_push,
    lemma_distinct_remove, lemma_none_live_of_fewer, lemma_parts_distinct, lemma_same_people,
    lemma_same_readiness, none_live,
    player_ids, player_index,
    shot_ids, shot_index, shot_views, PlayerRecord, PreparationTimer, Projectile,
    ProjectileView, Server, ServerPacket, ShoppingTimer,
};
use crate::timer::LifeTime;
use crate::server_messages::ServerMessage;
use crate::states::{BattleState, ServerState};
use crate::timer::{Countdown, TimerState, NANOS_PER_SECOND};

verus! {

/// The hit points a player enters a battle with.
pub const PLAYER_HEALTH: u32 = 20;

/// The damage of a fire ball.
pub const FIREBALL_DAMAGE: u32 = 10;

/// The seconds a fire ball flies before it expires.
pub const FIREBALL_SECONDS: u32 = 5;

/// Why an action had no effect.
#[derive(Debug, Copy, Clone, PartialEq, Eq, Structural)]
pub enum BattleError {
    /// No battle is on.
    NotInBattle,
    /// The connection has no player.
    UnknownClient,
    /// The player is dead or has not been put in place.
    Down,
    /// Every identifier has been handed out.
    OutOfIds,
}

/// What became of an action that a client asked for.
#[derive(Debug, Copy, Clone, PartialEq, Eq)]
pub enum ActionOutcome {
    /// Whether the player heads for a new target.
    Moved(bool),
    /// The fire ball that was thrown, or why none was.
    Fired(Result<Uuid, BattleError>),
    /// The action has no effect.
    Ignored,
}

/// What a fire ball did when it hit something.
#[derive(Debug, Copy, Clone, PartialEq, Eq, Structural)]
pub struct Impact {
    /// The attack the fire ball carried.
    pub attack: Attack,
    /// The player on whom damage was queued, if any.
    pub damaged: Option<Uuid>,
}

/// The message that tells every client that the entity `id` is gone.
pub open spec fn despawn_pack(id: Uuid) -> ServerPacket {
    Pack { msg: ServerMessage::Despawn(id), dest: Dest::All }
}

/// The message that tells every client of the new projectile `id`.
pub open spec fn spawn_projectile_pack(id: Uuid) -> ServerPacket {
    Pack { msg: ServerMessage::Spawn(SpawnEvent::Projectile(id)), dest: Dest::All }
}

/// Whether `player` is in the fight: in place, with health, and not dead.
pub open spec fn fighting(player: PlayerRecord) -> bool {
    player.position is Some && player.health is Some && !player.dead
}

/// The fire ball that `owner` throws from `origin` under the identifier
/// `id`, pushing with `knockback_force`.
pub open(crate) spec fn thrown(id: Uuid, owner: Uuid, origin: Vec3, knockback_force: u32) -> ProjectileView {
    ProjectileView {
        id,
        position: Position(origin),
        fire_ball: FireBall { attack: Attack { damage: FIREBALL_DAMAGE, knockback_force } },
        owner: Owner(owner),
        timer: TimerState {
            duration: (FIREBALL_SECONDS as nat) * (NANOS_PER_SECOND as nat),
            elapsed: 0,
            finished: false,
            just_finished: false,
            paused: false,
            repeating: false,
        },
        synced_position: None,
    }
}

/// `player` put in place at `point` with full health.
pub open(crate) spec fn placed(player: PlayerRecord, point: Vec3) -> PlayerRecord {
    PlayerRecord {
        health: Some(Health { current: PLAYER_HEALTH, maximum: PLAYER_HEALTH }),
        position: Some(Position(point)),
        ..player
    }
}

/// The message that shows `player` at `point`, in the colour at `color`
/// of the colour table, to the clients addressed by `dest`.
pub open spec fn insert_player_pack(
    player: PlayerRecord,
    point: Vec3,
    color: int,
    is_local: bool,
    dest: Dest,
) -> ServerPacket {
    Pack {
        msg: ServerMessage::InsertPlayer(
            InsertPlayerEvent { id: player.id, position: point, is_local, color: color as usize },
        ),
        dest,
    }
}

/// What clients are told of `player` put in place: a player with a
/// connection is shown to the others as theirs to watch and to its own
/// client as its own; a bot is shown to everyone.
pub open spec fn insert_player_packs(player: PlayerRecord, point: Vec3, color: int) -> Seq<
    ServerPacket,
> {
    match player.client {
        Some(client) => seq![
            insert_player_pack(player, point, color, false, Dest::AllExcept(client)),
            insert_player_pack(player, point, color, true, Dest::Single(client)),
        ],
        None => seq![insert_player_pack(player, point, color, false, Dest::All)],
    }
}

/// What clients are told of the first `count` players put in place, in
/// roster order.
pub open spec fn setup_packs(roster: Seq<PlayerRecord>, points: Seq<Vec3>, count: nat) -> Seq<
    ServerPacket,
>
    decreases count,
{
    if count == 0 {
        Seq::empty()
    } else {
        setup_packs(roster, points, (count - 1) as nat) + insert_player_packs(
            roster[count - 1],
            points[count - 1],
            count - 1,
        )
    }
}

/// The number of players that get a place: as many as there are players
/// and spawn points for.
pub open spec fn placed_count(roster: Seq<PlayerRecord>, points: Seq<Vec3>) -> nat {
    if roster.len() <= points.len() {
        roster.len()
    } else {
        points.len()
    }
}

/// The roster after its players have been put in place: player `i` stands
/// at spawn point `i` with full health; players beyond the last spawn
/// point are left as they are.
pub open(crate) spec fn placed_roster(roster: Seq<PlayerRecord>, points: Seq<Vec3>) -> Seq<
    PlayerRecord,
> {
    Seq::new(
        roster.len(),
        |i: int|
            if i < points.len() {
                placed(roster[i], points[i])
            } else {
                roster[i]
            },
    )
}

/// Puts the players in place, one at each spawn point in order, and tells
/// the clients.
pub fn setup_players(
    players: &mut Vec<PlayerRecord>,
    points: &Vec<Vec3>,
    packets: &mut Vec<ServerPacket>,
)
    ensures
        final(players)@ == placed_roster(old(players)@, points@),
        final(packets)@ == old(packets)@ + setup_packs(
            old(players)@,
            points@,
            placed_count(old(players)@, points@),
        ),
{
    let ghost roster = players@;
    let ghost outbox = packets@;
    let count: usize = if players.len() <= points.len() {
        players.len()
    } else {
        points.len()
    };
    let mut i: usize = 0;
    while i < count
        invariant
            i <= count,
            count == placed_count(roster, points@),
            players@.len() == roster.len(),
            forall|j: int| 0 <= j < i ==> players@[j] == placed(roster[j], points@[j]),
            forall|j: int| i <= j < roster.len() ==> players@[j] == roster[j],
            packets@ == outbox + setup_packs(roster, points@, i as nat),
        decreases count - i,
    {
        let point = points[i];
        let id = players[i].id;
        players[i].health = Some(Health::new(PLAYER_HEALTH));
        players[i].position = Some(Position(point));
        let ghost so_far = packets@;
        let insert_player = InsertPlayerEvent { id, position: point, is_local: false, color: i };
        match players[i].client {
            Some(client) => {
                packets.push(Pack::except(ServerMessage::InsertPlayer(insert_player), client));
                packets.push(
                    Pack::single(
                        ServerMessage::InsertPlayer(
                            InsertPlayerEvent { is_local: true, ..insert_player },
                        ),
                        client,
                    ),
                );
            },
            None => {
                packets.push(Pack::all(ServerMessage::InsertPlayer(insert_player)));
            },
        }
        proof {
            assert(packets@ =~= so_far + insert_player_packs(roster[i as int], point, i as int));
            assert(setup_packs(roster, points@, (i + 1) as nat) == setup_packs(
                roster,
                points@,
                i as nat,
            ) + insert_player_packs(roster[i as int], point, i as int));
            assert(packets@ =~= outbox + setup_packs(roster, points@, (i + 1) as nat));
        }
        i = i + 1;
    }
    assert(players@ =~= placed_roster(roster, points@));
}

/// `player` after its queued damage has been applied: a player with
/// health loses the damage's points, down to zero at most, and the damage
/// is gone; a player without either is left as it is.
pub open(crate) spec fn damaged(player: PlayerRecord) -> PlayerRecord {
    match (player.health, player.damage) {
        (Some(health), Some(damage)) => PlayerRecord {
            health: Some(
                Health {
                    current: if damage.amount >= health.current {
                        0u32
                    } else {
                        (health.current - damage.amount) as u32
                    },
                    maximum: health.maximum,
                },
            ),
            damage: None,
            ..player
        },
        _ => player,
    }
}

/// Applies to each player the damage queued on it, once.
pub fn apply_damage_system(players: &mut Vec<PlayerRecord>)
    ensures
        final(players)@ == old(players)@.map_values(|player: PlayerRecord| damaged(player)),
{
    let ghost roster = players@;
    let mut i: usize = 0;
    while i < players.len()
        invariant
            i <= players.len(),
            players@.len() == roster.len(),
            forall|j: int| 0 <= j < i ==> players@[j] == damaged(roster[j]),
            forall|j: int| i <= j < roster.len() ==> players@[j] == roster[j],
        decreases players.len() - i,
    {
        match (players[i].health, players[i].damage) {
            (Some(health), Some(damage)) => {
                let mut health = health;
                let amount = damage.amount();
                let current = health.current();
                if amount >= current {
                    health.set_to(0);
                } else {
                    health.set_to(current - amount);
                }
                players[i].health = Some(health);
                players[i].damage = None;
            },
            _ => {},
        }
        i = i + 1;
    }
    assert(players@ =~= roster.map_values(|player: PlayerRecord| damaged(player)));
}

/// `player` after the check of its health: dead if it was, or if it has
/// health and none of it is left.
pub open spec fn checked(player: PlayerRecord) -> PlayerRecord {
    PlayerRecord { dead: player.dead || player.out_of_health(), ..player }
}

/// Marks as dead each player whose health has run out.
pub fn handle_health_system(players: &mut Vec<PlayerRecord>)
    ensures
        final(players)@ == old(players)@.map_values(|player: PlayerRecord| checked(player)),
{
    let ghost roster = players@;
    let mut i: usize = 0;
    while i < players.len()
        invariant
            i <= players.len(),
            players@.len() == roster.len(),
            forall|j: int| 0 <= j < i ==> players@[j] == checked(roster[j]),
            forall|j: int| i <= j < roster.len() ==> players@[j] == roster[j],
        decreases players.len() - i,
    {
        let dies = match players[i].health {
            Some(health) => health.should_die(),
            None => false,
        };
        if dies {
            players[i].dead = true;
        }
        i = i + 1;
    }
    assert(players@ =~= roster.map_values(|player: PlayerRecord| checked(player)));
}

/// The players of `roster` that are not dead, in order.
pub open spec fn survivors(roster: Seq<PlayerRecord>) -> Seq<PlayerRecord> {
    roster.filter(|player: PlayerRecord| !player.dead)
}

/// `player` after a round that one player has survived: the winner, if it
/// is not dead.
pub open spec fn crowned(player: PlayerRecord) -> PlayerRecord {
    PlayerRecord { winner: player.winner || !player.dead, ..player }
}

/// Counts the players that are not dead.
pub fn count_survivors(players: &Vec<PlayerRecord>) -> (count: usize)
    ensures
        count == survivors(players@).len(),
{
    let ghost alive = |player: PlayerRecord| !player.dead;
    let mut count: usize = 0;
    let mut i: usize = 0;
    assert(players@.subrange(0, 0) =~= Seq::<PlayerRecord>::empty());
    while i < players.len()
        invariant
            i <= players.len(),
            alive == |player: PlayerRecord| !player.dead,
            count == players@.subrange(0, i as int).filter(alive).len(),
            count <= i,
        decreases players.len() - i,
    {
        proof {
            let seen = players@.subrange(0, i as int);
            assert(players@.subrange(0, i + 1) =~= seen.push(players@[i as int]));
            lemma_filter_push(seen, players@[i as int], alive);
        }
        if !players[i].dead {
            count = count + 1;
        }
        i = i + 1;
    }
    assert(players@.subrange(0, players.len() as int) =~= players@);
    count
}

/// Makes the one player that is not dead the winner. With no survivor,
/// or with more than one, nothing changes.
pub fn check_winner_system(players: &mut Vec<PlayerRecord>)
    ensures
        final(players)@ == if survivors(old(players)@).len() == 1 {
            old(players)@.map_values(|player: PlayerRecord| crowned(player))
        } else {
            old(players)@
        },
{
    if count_survivors(players) != 1 {
        return ;
    }
    let ghost roster = players@;
    let mut i: usize = 0;
    while i < players.len()
        invariant
            i <= players.len(),
            players@.len() == roster.len(),
            forall|j: int| 0 <= j < i ==> players@[j] == crowned(roster[j]),
            forall|j: int| i <= j < roster.len() ==> players@[j] == roster[j],
        decreases players.len() - i,
    {
        if !players[i].dead {
            players[i].winner = true;
        }
        i = i + 1;
    }
    assert(players@ =~= roster.map_values(|player: PlayerRecord| crowned(player)));
}

/// `shot` after `delta` nanoseconds more of its lifetime.
pub open spec fn aged(shot: ProjectileView, delta: nat) -> ProjectileView {
    ProjectileView { timer: shot.timer.ticked(delta), ..shot }
}

/// `shots`, each after `delta` nanoseconds more of its lifetime.
pub open spec fn aged_shots(shots: Seq<ProjectileView>, delta: nat) -> Seq<ProjectileView> {
    shots.map_values(|shot: ProjectileView| aged(shot, delta))
}

/// Those of `shots` whose lifetime has just ended.
pub open spec fn expired(shots: Seq<ProjectileView>) -> Seq<ProjectileView> {
    shots.filter(|shot: ProjectileView| shot.timer.just_finished)
}

/// Those of `shots` whose lifetime has not just ended.
pub open spec fn flying(shots: Seq<ProjectileView>) -> Seq<ProjectileView> {
    shots.filter(|shot: ProjectileView| !shot.timer.just_finished)
}

/// The messages that tell every client that `shots` are gone, in order.
pub open spec fn despawn_packs(shots: Seq<ProjectileView>) -> Seq<ServerPacket> {
    shots.map_values(|shot: ProjectileView| despawn_pack(shot.id))
}

/// `player` after a battle: without position, neither dead nor winner.
pub open spec fn cleared(player: PlayerRecord) -> PlayerRecord {
    PlayerRecord { position: None, dead: false, winner: false, ..player }
}

/// Takes position, death and victory from every player.
pub fn cleanup_system(players: &mut Vec<PlayerRecord>)
    ensures
        final(players)@ == old(players)@.map_values(|player: PlayerRecord| cleared(player)),
{
    let ghost roster = players@;
    let mut i: usize = 0;
    while i < players.len()
        invariant
            i <= players.len(),
            players@.len() == roster.len(),
            forall|j: int| 0 <= j < i ==> players@[j] == cleared(roster[j]),
            forall|j: int| i <= j < roster.len() ==> players@[j] == roster[j],
        decreases players.len() - i,
    {
        players[i].position = None;
        players[i].dead = false;
        players[i].winner = false;
        i = i + 1;
    }
    assert(players@ =~= roster.map_values(|player: PlayerRecord| cleared(player)));
}

/// Tells every client that `projectiles` are gone, in order.
fn announce_despawns(packets: &mut Vec<ServerPacket>, projectiles: &Vec<Projectile>)
    ensures
        final(packets)@ == old(packets)@ + despawn_packs(shot_views(projectiles@)),
{
    let ghost outbox = packets@;
    let ghost shots = shot_views(projectiles@);
    let mut i: usize = 0;
    assert(packets@ =~= outbox + despawn_packs(shots.subrange(0, 0)));
    while i < projectiles.len()
        invariant
            i <= projectiles.len(),
            shots == shot_views(projectiles@),
            packets@ == outbox + despawn_packs(shots.subrange(0, i as int)),
        decreases projectiles.len() - i,
    {
        packets.push(Pack::all(ServerMessage::Despawn(projectiles[i].id)));
        assert(packets@ =~= outbox + despawn_packs(shots.subrange(0, i + 1)));
        i = i + 1;
    }
    assert(shots.subrange(0, i as int) =~= shots);
}

/// The identifier of the first winner in `roster`, if there is a winner.
pub open spec fn first_winner(roster: Seq<PlayerRecord>) -> Option<Uuid>
    decreases roster.len(),
{
    if roster.len() == 0 {
        None
    } else if roster[0].winner {
        Some(roster[0].id)
    } else {
        first_winner(roster.drop_first())
    }
}

/// Finds the first winner.
pub fn find_winner(players: &Vec<PlayerRecord>) -> (winner: Option<Uuid>)
    ensures
        winner == first_winner(players@),
{
    let mut i: usize = 0;
    assert(players@.subrange(0, players@.len() as int) =~= players@);
    while i < players.len()
        invariant
            i <= players.len(),
            first_winner(players@) == first_winner(players@.subrange(i as int, players@.len() as int)),
        decreases players.len() - i,
    {
        let ghost rest = players@.subrange(i as int, players@.len() as int);
        assert(rest[0] == players@[i as int]);
        if players[i].winner {
            return Some(players[i].id);
        }
        assert(rest.drop_first() =~= players@.subrange(i + 1, players@.len() as int));
        i = i + 1;
    }
    None
}

/// Whether `player` is a bot that heads nowhere.
pub open spec fn idle_bot(player: PlayerRecord) -> bool {
    player.bot && player.waypoint is None
}

/// The number of bots that head nowhere among the first `count` players
/// of `roster`.
pub open spec fn idle_bots_before(roster: Seq<PlayerRecord>, count: int) -> nat {
    roster.subrange(0, count).filter(|player: PlayerRecord| idle_bot(player)).len()
}

/// The roster after the bots that head nowhere have been sent on their
/// way: in roster order, each takes the next of `targets` while there are
/// any; every other player is left as it is.
pub open spec fn dispatched(roster: Seq<PlayerRecord>, targets: Seq<Vec3>) -> Seq<PlayerRecord> {
    Seq::new(
        roster.len(),
        |i: int|
            if idle_bot(roster[i]) && idle_bots_before(roster, i) < targets.len() {
                PlayerRecord {
                    waypoint: Some(Waypoint(targets[idle_bots_before(roster, i) as int])),
                    ..roster[i]
                }
            } else {
                roster[i]
            },
    )
}

/// Sends each bot that heads nowhere to the next of `targets`.
pub fn bot_waypoint_system(players: &mut Vec<PlayerRecord>, targets: &Vec<Vec3>)
    ensures
        final(players)@ == dispatched(old(players)@, targets@),
{
    let ghost roster = players@;
    let ghost idle = |player: PlayerRecord| idle_bot(player);
    let mut used: usize = 0;
    let mut i: usize = 0;
    assert(roster.subrange(0, 0) =~= Seq::<PlayerRecord>::empty());
    while i < players.len()
        invariant
            i <= players.len(),
            players@.len() == roster.len(),
            idle == |player: PlayerRecord| idle_bot(player),
            used <= i,
            used <= targets.len(),
            used == if idle_bots_before(roster, i as int) < targets.len() {
                idle_bots_before(roster, i as int)
            } else {
                targets.len() as nat
            },
            forall|j: int| 0 <= j < i ==> players@[j] == dispatched(roster, targets@)[j],
            forall|j: int| i <= j < roster.len() ==> players@[j] == roster[j],
        decreases players.len() - i,
    {
        proof {
            let seen = roster.subrange(0, i as int);
            assert(roster.subrange(0, i + 1) =~= seen.push(roster[i as int]));
            lemma_filter_push(seen, roster[i as int], idle);
        }
        if players[i].bot && players[i].waypoint.is_none() && used < targets.len() {
            players[i].waypoint = Some(Waypoint(targets[used]));
            used = used + 1;
        }
        i = i + 1;
    }
    assert(players@ =~= dispatched(roster, targets@));
}

/// How a round ended.
#[derive(Debug, Copy, Clone, PartialEq, Eq, Structural)]
pub struct RoundResult {
    /// The player that won the round.
    pub winner: Uuid,
    /// The phase that follows the round.
    pub next: ServerState,
}

impl Server {
    /// The session after the step from shopping into battle: the players
    /// stand at the arena's spawn points and the clients have been told;
    /// the battle is in its preparation, and the countdown to its start
    /// begins anew.
    pub open(crate) spec fn battle_entered(self, before: Server) -> bool {
        let points = before.arena_of()->0.points();
        &&& self == Server {
            state: self.state,
            battle_state: self.battle_state,
            players: self.players,
            preparation_timer: self.preparation_timer,
            packets: self.packets,
            ..before
        }
        &&& self.phase() == ServerState::Battle
        &&& self.stage() == BattleState::Prepare
        &&& self.roster() == placed_roster(before.roster(), points)
        &&& self.preparation() == (TimerState {
            duration: (before.settings().preparation_seconds as nat) * (NANOS_PER_SECOND as nat),
            elapsed: 0,
            finished: false,
            just_finished: false,
            paused: false,
            repeating: false,
        })
        &&& self.outbox() == before.outbox() + setup_packs(
            before.roster(),
            points,
            placed_count(before.roster(), points),
        )
    }

    /// Steps from shopping into battle.
    pub(crate) fn enter_battle(&mut self)
        requires
            old(self).wf(),
            old(self).phase() == ServerState::Shopping,
        ensures
            final(self).wf(),
            final(self).battle_entered(*old(self)),
    {
        self.state = ServerState::Battle;
        self.battle_state = BattleState::Prepare;
        match &self.arena {
            Some(arena) => {
                setup_players(&mut self.players, arena.spawn_points(), &mut self.packets);
            },
            None => {},
        }
        self.preparation_timer = PreparationTimer(
            Countdown::from_seconds(self.config.preparation_seconds),
        );
        proof {
            lemma_same_people(old(self).roster(), self.roster());
        }
    }

    /// What `check_preparation_timer` does to the session `before` and
    /// answers: while a battle is being prepared, the countdown to its
    /// start has advanced by `delta_nanos`, and once it has finished the
    /// battle is on; otherwise nothing has changed.
    pub open(crate) spec fn check_preparation_result(
        self,
        before: Server,
        delta_nanos: u64,
        started: bool,
    ) -> bool {
        if before.stage() == BattleState::Prepare {
            &&& self == Server {
                battle_state: self.battle_state,
                preparation_timer: self.preparation_timer,
                ..before
            }
            &&& self.preparation() == before.preparation().ticked(delta_nanos as nat)
            &&& started == self.preparation().finished
            &&& self.stage() == if started {
                BattleState::Battle
            } else {
                BattleState::Prepare
            }
        } else {
            !started && self == before
        }
    }

    /// Advances the countdown to the start of the battle by `delta_nanos`
    /// nanoseconds. Answers whether the battle has started.
    pub fn check_preparation_timer(&mut self, delta_nanos: u64) -> (started: bool)
        requires
            old(self).wf(),
        ensures
            final(self).wf(),
            final(self).check_preparation_result(*old(self), delta_nanos, started),
    {
        if self.battle_state != BattleState::Prepare {
            return false;
        }
        self.preparation_timer.0.tick(delta_nanos);
        if self.preparation_timer.0.finished() {
            self.battle_state = BattleState::Battle;
            true
        } else {
            false
        }
    }

    /// What `handle_move_event` does to the session `before` and answers:
    /// while the battle is on, the player of a known client heads for
    /// `target`; otherwise nothing has changed.
    pub open(crate) spec fn move_result(
        self,
        before: Server,
        client: Client,
        target: Vec3,
        moved: bool,
    ) -> bool {
        match client_index(before.roster(), client) {
            Some(at) if before.stage() == BattleState::Battle => {
                &&& moved
                &&& self == Server { players: self.players, ..before }
                &&& self.roster() == before.roster().update(
                    at,
                    PlayerRecord { waypoint: Some(Waypoint(target)), ..before.roster()[at] },
                )
            },
            _ => !moved && self == before,
        }
    }

    /// Sends the player of `client` towards `target`.
    pub fn handle_move_event(&mut self, client: Client, target: Vec3) -> (moved: bool)
        requires
            old(self).wf(),
        ensures
            final(self).wf(),
            final(self).move_result(*old(self), client, target, moved),
    {
        if self.battle_state != BattleState::Battle {
            return false;
        }
        match find_client(&self.players, client) {
            Some(at) => {
                self.players[at].waypoint = Some(Waypoint(target));
                proof {
                    assert(self.roster() =~= old(self).roster().update(
                        at as int,
                        PlayerRecord {
                            waypoint: Some(Waypoint(target)),
                            ..old(self).roster()[at as int]
                        },
                    ));
                    lemma_same_people(old(self).roster(), self.roster());
                }
                true
            },
            None => false,
        }
    }

    /// What `handle_attack_event` answers to `client`.
    pub open(crate) spec fn attack_outcome(self, client: Client) -> Result<Uuid, BattleError> {
        if self.stage() != BattleState::Battle {
            Err(BattleError::NotInBattle)
        } else {
            match client_index(self.roster(), client) {
                None => Err(BattleError::UnknownClient),
                Some(at) => if !fighting(self.roster()[at]) {
                    Err(BattleError::Down)
                } else if self.next_id() == u32::MAX {
                    Err(BattleError::OutOfIds)
                } else {
                    Ok(Uuid(self.next_id()))
                },
            }
        }
    }

    /// What `handle_attack_event` does to the session `before` and
    /// answers: for a player in the fight, a fire ball flies from
    /// `origin`, the player heads nowhere any more, and every client is
    /// told of the projectile; a refusal changes nothing.
    pub open(crate) spec fn attack_result(
        self,
        before: Server,
        client: Client,
        origin: Vec3,
        fired: Result<Uuid, BattleError>,
    ) -> bool {
        &&& fired == before.attack_outcome(client)
        &&& match fired {
            Ok(id) => {
                let at = client_index(before.roster(), client)->0;
                let attacker = before.roster()[at];
                &&& self == Server {
                    id_factory: self.id_factory,
                    players: self.players,
                    projectiles: self.projectiles,
                    packets: self.packets,
                    ..before
                }
                &&& self.next_id() == before.next_id() + 1
                &&& self.roster() == before.roster().update(
                    at,
                    PlayerRecord { waypoint: None, ..attacker },
                )
                &&& self.shots() == before.shots().push(
                    thrown(id, attacker.id, origin, before.settings().knockback_force),
                )
                &&& self.outbox() == before.outbox().push(spawn_projectile_pack(id))
            },
            Err(_) => self == before,
        }
    }

    /// Lets the player of `client` throw a fire ball from `origin`.
    pub fn handle_attack_event(&mut self, client: Client, origin: Vec3) -> (fired: Result<
        Uuid,
        BattleError,
    >)
        requires
            old(self).wf(),
        ensures
            final(self).wf(),
            final(self).attack_result(*old(self), client, origin, fired),
    {
        if self.battle_state != BattleState::Battle {
            return Err(BattleError::NotInBattle);
        }
        let at = match find_client(&self.players, client) {
            Some(at) => at,
            None => {
                return Err(BattleError::UnknownClient);
            },
        };
        let attacker = &self.players[at];
        if attacker.position.is_none() || attacker.health.is_none() || attacker.dead {
            return Err(BattleError::Down);
        }
        if self.id_factory.exhausted() {
            return Err(BattleError::OutOfIds);
        }
        let owner = attacker.id;
        let id = self.id_factory.generate();
        self.projectiles.push(
            Projectile {
                id,
                position: Position(origin),
                fire_ball: FireBall {
                    attack: Attack::new(FIREBALL_DAMAGE, self.config.knockback_force),
                },
                owner: Owner::new(owner),
                life_time: LifeTime::from_seconds(FIREBALL_SECONDS),
                synced_position: None,
            },
        );
        self.players[at].waypoint = None;
        self.packets.push(Pack::all(ServerMessage::Spawn(SpawnEvent::Projectile(id))));
        proof {
            let before = *old(self);
            assert(self.roster() =~= before.roster().update(
                at as int,
                PlayerRecord { waypoint: None, ..before.roster()[at as int] },
            ));
            assert(self.shots() =~= before.shots().push(
                thrown(id, owner, origin, before.settings().knockback_force),
            ));
            lemma_same_people(before.roster(), self.roster());
            assert(player_ids(self.roster()) + shot_ids(self.shots()) =~= (player_ids(
                before.roster(),
            ) + shot_ids(before.shots())).push(id));
            lemma_distinct_push(
                player_ids(before.roster()) + shot_ids(before.shots()),
                id,
                before.next_id(),
            );
        }
        Ok(id)
    }

    /// What `fireball_collision_system` does to the session `before` and
    /// answers. A fire ball that is not in flight, that touches its owner
    /// or that touches a dead player does nothing. Any other touch ends
    /// the fire ball: it is gone and every client is told so; if it
    /// touched a player with health, its damage is queued on that player.
    pub open(crate) spec fn collision_result(
        self,
        before: Server,
        fireball: Uuid,
        target: Option<Uuid>,
        impact: Option<Impact>,
    ) -> bool {
        match shot_index(before.shots(), fireball) {
            None => impact is None && self == before,
            Some(at) => {
                let shot = before.shots()[at];
                let hit = match target {
                    Some(id) => player_index(before.roster(), id),
                    None => None,
                };
                if target == Some(shot.owner.id()) || (hit matches Some(t) && before.roster()[t].dead) {
                    impact is None && self == before
                } else {
                    let damaged = hit matches Some(t) && before.roster()[t].health is Some;
                    &&& impact == Some(
                        Impact {
                            attack: shot.fire_ball.attack,
                            damaged: if damaged {
                                target
                            } else {
                                None
                            },
                        },
                    )
                    &&& self == Server {
                        players: self.players,
                        projectiles: self.projectiles,
                        packets: self.packets,
                        ..before
                    }
                    &&& self.roster() == if damaged {
                        before.roster().update(
                            hit->0,
                            PlayerRecord {
                                damage: Some(Damage { amount: shot.fire_ball.attack.points() }),
                                ..before.roster()[hit->0]
                            },
                        )
                    } else {
                        before.roster()
                    }
                    &&& self.shots() == before.shots().remove(at)
                    &&& self.outbox() == before.outbox().push(despawn_pack(fireball))
                }
            },
        }
    }

    /// Resolves the touch of the fire ball `fireball` with `target`, the
    /// identifier of what it touched, if that has one.
    pub fn fireball_collision_system(&mut self, fireball: Uuid, target: Option<Uuid>) -> (impact:
        Option<Impact>)
        requires
            old(self).wf(),
        ensures
            final(self).wf(),
            final(self).collision_result(*old(self), fireball, target, impact),
    {
        proof {
            lemma_parts_distinct(player_ids(self.roster()), shot_ids(self.shots()));
        }
        let at = match find_shot(&self.projectiles, fireball) {
            Some(at) => at,
            None => {
                return None;
            },
        };
        let owner = self.projectiles[at].owner.entity();
        let attack = self.projectiles[at].fire_ball.attack;
        let hit = match target {
            Some(id) => {
                if id.0 == owner.0 {
                    return None;
                }
                find_player(&self.players, id)
            },
            None => None,
        };
        let mut damaged: Option<Uuid> = None;
        match hit {
            Some(t) => {
                if self.players[t].dead {
                    return None;
                }
                if self.players[t].health.is_some() {
                    self.players[t].damage = Some(attack.damage());
                    damaged = target;
                }
            },
            None => {},
        }
        let shot = self.projectiles.remove(at);
        self.packets.push(Pack::all(ServerMessage::Despawn(shot.id)));
        proof {
            let before = *old(self);
            if damaged is Some {
                assert(self.roster() =~= before.roster().update(
                    hit->0 as int,
                    PlayerRecord {
                        damage: Some(Damage { amount: attack.points() }),
                        ..before.roster()[hit->0 as int]
                    },
                ));
            }
            lemma_same_people(before.roster(), self.roster());
            assert(self.shots() =~= before.shots().remove(at as int));
            assert(shot_ids(self.shots()) =~= shot_ids(before.shots()).remove(at as int));
            let ids = player_ids(before.roster());
            assert(ids + shot_ids(self.shots()) =~= (ids + shot_ids(before.shots())).remove(
                ids.len() + at,
            ));
            lemma_distinct_remove(ids + shot_ids(before.shots()), ids.len() + at, before.next_id());
        }
        Some(Impact { attack, damaged })
    }

    /// What `track_lifetime_system` does to the session `before`: while
    /// the battle is on, every fire ball is `delta_nanos` nanoseconds
    /// older; those whose lifetime has just ended are gone, and every
    /// client is told so, oldest first. Otherwise nothing has changed.
    pub open(crate) spec fn lifetime_result(self, before: Server, delta_nanos: u64) -> bool {
        if before.stage() == BattleState::Battle {
            let older = aged_shots(before.shots(), delta_nanos as nat);
            &&& self == Server { projectiles: self.projectiles, packets: self.packets, ..before }
            &&& self.shots() == flying(older)
            &&& self.outbox() == before.outbox() + despawn_packs(expired(older))
        } else {
            self == before
        }
    }

    /// Lets `delta_nanos` nanoseconds of the fire balls' lifetime pass.
    pub fn track_lifetime_system(&mut self, delta_nanos: u64)
        requires
            old(self).wf(),
        ensures
            final(self).wf(),
            final(self).lifetime_result(*old(self), delta_nanos),
    {
        if self.battle_state != BattleState::Battle {
            return ;
        }
        let ghost before = *old(self);
        let ghost delta = delta_nanos as nat;
        let ghost ids = player_ids(before.roster());
        let ghost old_shots = before.shots();
        let ghost keep = |shot: ProjectileView| !shot.timer.just_finished;
        let ghost gone = |shot: ProjectileView| shot.timer.just_finished;
        let ghost mut done: int = 0;
        let mut i: usize = 0;
        proof {
            assert(old_shots.subrange(0, 0) =~= Seq::<ProjectileView>::empty());
            assert(old_shots.subrange(0, old_shots.len() as int) =~= old_shots);
            assert(self.shots() =~= flying(aged_shots(old_shots.subrange(0, 0), delta))
                + old_shots.subrange(0, old_shots.len() as int));
            assert(self.outbox() =~= before.outbox() + despawn_packs(
                expired(aged_shots(old_shots.subrange(0, 0), delta)),
            ));
        }
        while i < self.projectiles.len()
            invariant
                *self == (Server {
                    projectiles: self.projectiles,
                    packets: self.packets,
                    ..before
                }),
                before.wf(),
                before.stage() == BattleState::Battle,
                ids == player_ids(before.roster()),
                old_shots == before.shots(),
                delta == delta_nanos as nat,
                keep == |shot: ProjectileView| !shot.timer.just_finished,
                gone == |shot: ProjectileView| shot.timer.just_finished,
                0 <= done <= old_shots.len(),
                i <= self.projectiles.len(),
                self.projectiles.len() - i == old_shots.len() - done,
                i == flying(aged_shots(old_shots.subrange(0, done), delta)).len(),
                self.shots() == flying(aged_shots(old_shots.subrange(0, done), delta))
                    + old_shots.subrange(done, old_shots.len() as int),
                self.outbox() == before.outbox() + despawn_packs(
                    expired(aged_shots(old_shots.subrange(0, done), delta)),
                ),
                distinct(ids + shot_ids(self.shots())),
                issued(ids + shot_ids(self.shots()), before.next_id()),
                none_live(before.pending().despawned(), ids + shot_ids(self.shots())),
            decreases self.projectiles.len() - i,
        {
            let ghost shots_now = self.shots();
            let ghost outbox_now = self.outbox();
            let ghost seen = old_shots.subrange(0, done);
            let ghost shot = old_shots[done];
            proof {
                assert(shots_now[i as int] == shot);
                assert(old_shots.subrange(0, done + 1) =~= seen.push(shot));
                assert(aged_shots(seen.push(shot), delta) =~= aged_shots(seen, delta).push(
                    aged(shot, delta),
                ));
                lemma_filter_push(aged_shots(seen, delta), aged(shot, delta), keep);
                lemma_filter_push(aged_shots(seen, delta), aged(shot, delta), gone);
            }
            self.projectiles[i].life_time.timer.tick(delta_nanos);
            if self.projectiles[i].life_time.timer.just_finished() {
                let ended = self.projectiles.remove(i);
                self.packets.push(Pack::all(ServerMessage::Despawn(ended.id)));
                proof {
                    assert(self.shots() =~= shots_now.remove(i as int));
                    assert(self.shots() =~= flying(aged_shots(seen.push(shot), delta))
                        + old_shots.subrange(done + 1, old_shots.len() as int));
                    assert(despawn_packs(expired(aged_shots(seen, delta)).push(aged(shot, delta)))
                        =~= despawn_packs(expired(aged_shots(seen, delta))).push(
                        despawn_pack(shot.id),
                    ));
                    assert(self.outbox() =~= before.outbox() + despawn_packs(
                        expired(aged_shots(seen.push(shot), delta)),
                    ));
                    assert(shot_ids(self.shots()) =~= shot_ids(shots_now).remove(i as int));
                    assert(ids + shot_ids(self.shots()) =~= (ids + shot_ids(shots_now)).remove(
                        ids.len() + i,
                    ));
                    lemma_distinct_remove(ids + shot_ids(shots_now), ids.len() + i, before.next_id());
                    let live = ids + shot_ids(shots_now);
                    let fewer = live.remove(ids.len() + i);
                    assert forall|n: int| 0 <= n < fewer.len() implies live.contains(
                        #[trigger] fewer[n],
                    ) by {
                        let m = if n < ids.len() + i {
                            n
                        } else {
                            n + 1
                        };
                        assert(live[m] == fewer[n]);
                    }
                    lemma_none_live_of_fewer(before.pending().despawned(), live, fewer);
                    done = done + 1;
                }
            } else {
                proof {
                    assert(self.shots() =~= shots_now.update(i as int, aged(shot, delta)));
                    assert(self.shots() =~= flying(aged_shots(seen.push(shot), delta))
                        + old_shots.subrange(done + 1, old_shots.len() as int));
                    assert(shot_ids(self.shots()) =~= shot_ids(shots_now));
                    done = done + 1;
                }
                i = i + 1;
            }
        }
        proof {
            assert(old_shots.subrange(0, done) =~= old_shots);
            assert(old_shots.subrange(done, old_shots.len() as int) =~= Seq::<
                ProjectileView,
            >::empty());
            assert(self.shots() =~= flying(aged_shots(old_shots, delta)));
        }
    }

    /// The session after a round has ended and `next` follows: no battle
    /// is on; every player is without position, neither dead nor winner;
    /// the fire balls in flight are gone, and every client is told so,
    /// oldest first; the arena has moved on to its next round; and if
    /// shopping follows, its countdown begins anew.
    pub open(crate) spec fn round_ended(self, before: Server, next: ServerState) -> bool {
        let arena = before.arena_of()->0;
        &&& self == Server {
            state: self.state,
            battle_state: self.battle_state,
            players: self.players,
            projectiles: self.projectiles,
            arena: self.arena,
            shopping_timer: self.shopping_timer,
            packets: self.packets,
            ..before
        }
        &&& self.phase() == next
        &&& self.stage() == BattleState::Idle
        &&& self.roster() == before.roster().map_values(|player: PlayerRecord| cleared(player))
        &&& self.shots().len() == 0
        &&& self.arena_of() matches Some(after) && after.points() == arena.points()
            && after.rounds() == arena.rounds() && after.round() == if arena.round()
            < arena.rounds() {
            arena.round() + 1
        } else {
            arena.round() as int
        }
        &&& self.shopping() == if next == ServerState::Shopping {
            TimerState {
                duration: (before.settings().shopping_seconds as nat) * (NANOS_PER_SECOND as nat),
                elapsed: 0,
                finished: false,
                just_finished: false,
                paused: false,
                repeating: false,
            }
        } else {
            before.shopping()
        }
        &&& self.outbox() == before.outbox() + despawn_packs(before.shots())
    }

    /// What `check_switch_state_system` does to the session `before` and
    /// answers: while the battle is on and a player is the winner, the
    /// round has ended, and the session shows the result if the round was
    /// the arena's last and goes shopping if not; otherwise nothing has
    /// changed.
    pub open(crate) spec fn switch_state_result(
        self,
        before: Server,
        over: Option<RoundResult>,
    ) -> bool {
        match first_winner(before.roster()) {
            Some(winner) if before.stage() == BattleState::Battle => {
                let arena = before.arena_of()->0;
                let next = if arena.round() == arena.rounds() {
                    ServerState::ShowResult
                } else {
                    ServerState::Shopping
                };
                over == Some(RoundResult { winner, next }) && self.round_ended(before, next)
            },
            _ => over is None && self == before,
        }
    }

    /// Ends the round once a player has won it.
    pub fn check_switch_state_system(&mut self) -> (over: Option<RoundResult>)
        requires
            old(self).wf(),
        ensures
            final(self).wf(),
            final(self).switch_state_result(*old(self), over),
    {
        if self.battle_state != BattleState::Battle {
            return None;
        }
        let winner = match find_winner(&self.players) {
            Some(winner) => winner,
            None => {
                return None;
            },
        };
        let next = match &mut self.arena {
            Some(arena) => {
                let last = arena.is_last_round();
                arena.next_round();
                if last {
                    ServerState::ShowResult
                } else {
                    ServerState::Shopping
                }
            },
            None => ServerState::ShowResult,
        };
        self.battle_state = BattleState::Idle;
        cleanup_system(&mut self.players);
        let ghost before = *old(self);
        announce_despawns(&mut self.packets, &self.projectiles);
        self.projectiles.clear();
        self.state = next;
        if next == ServerState::Shopping {
            self.shopping_timer = ShoppingTimer {
                timer: Countdown::from_seconds(self.config.shopping_seconds),
            };
        }
        proof {
            lemma_same_people(before.roster(), self.roster());
            assert(self.shots() =~= Seq::<ProjectileView>::empty());
            let ids = player_ids(before.roster());
            lemma_parts_distinct(ids, shot_ids(before.shots()));
            assert(ids + shot_ids(self.shots()) =~= ids);
            assert forall|k: int| 0 <= k < ids.len() implies (#[trigger] ids[k]).0
                < before.next_id() by {
                assert((ids + shot_ids(before.shots()))[k] == ids[k]);
            }
            let live = ids + shot_ids(before.shots());
            assert forall|n: int| 0 <= n < ids.len() implies live.contains(#[trigger] ids[n]) by {
                assert(live[n] == ids[n]);
            }
            lemma_none_live_of_fewer(before.pending().despawned(), live, ids);
        }
        Some(RoundResult { winner, next })
    }

    /// What `position_sync_system` does to the session `before` and
    /// answers: the player or fire ball `id`, if it has a position, is at
    /// `place`; otherwise nothing has changed.
    pub open(crate) spec fn position_result(
        self,
        before: Server,
        id: Uuid,
        place: Vec3,
        moved: bool,
    ) -> bool {
        match (player_index(before.roster(), id), shot_index(before.shots(), id)) {
            (Some(at), _) if before.roster()[at].position is Some => {
                &&& moved
                &&& self == Server { players: self.players, ..before }
                &&& self.roster() == before.roster().update(
                    at,
                    PlayerRecord { position: Some(Position(place)), ..before.roster()[at] },
                )
            },
            (None, Some(at)) => {
                &&& moved
                &&& self == Server { projectiles: self.projectiles, ..before }
                &&& self.shots() == before.shots().update(
                    at,
                    ProjectileView { position: Position(place), ..before.shots()[at] },
                )
            },
            _ => !moved && self == before,
        }
    }

    /// Takes note of where the physics have moved the entity `id`.
    pub fn position_sync_system(&mut self, id: Uuid, place: Vec3) -> (moved: bool)
        requires
            old(self).wf(),
        ensures
            final(self).wf(),
            final(self).position_result(*old(self), id, place, moved),
    {
        proof {
            lemma_parts_distinct(player_ids(self.roster()), shot_ids(self.shots()));
        }
        match find_player(&self.players, id) {
            Some(at) => {
                if self.players[at].position.is_none() {
                    return false;
                }
                self.players[at].position = Some(Position(place));
                proof {
                    let before = *old(self);
                    assert(self.roster() =~= before.roster().update(
                        at as int,
                        PlayerRecord {
                            position: Some(Position(place)),
                            ..before.roster()[at as int]
                        },
                    ));
                    lemma_same_people(before.roster(), self.roster());
                    lemma_same_readiness(before.roster(), self.roster());
                }
                true
            },
            None => match find_shot(&self.projectiles, id) {
                Some(at) => {
                    self.projectiles[at].position = Position(place);
                    proof {
                        let before = *old(self);
                        assert(self.shots() =~= before.shots().update(
                            at as int,
                            ProjectileView {
                                position: Position(place),
                                ..before.shots()[at as int]
                            },
                        ));
                        assert(shot_ids(self.shots()) =~= shot_ids(before.shots()));
                    }
                    true
                },
                None => false,
            },
        }
    }

    /// What `clear_waypoint` does to the session `before` and answers:
    /// the player `id`, if there is one, heads nowhere any more.
    pub open(crate) spec fn arrival_result(self, before: Server, id: Uuid, arrived: bool) -> bool {
        match player_index(before.roster(), id) {
            Some(at) => {
                &&& arrived
                &&& self == Server { players: self.players, ..before }
                &&& self.roster() == before.roster().update(
                    at,
                    PlayerRecord { waypoint: None, ..before.roster()[at] },
                )
            },
            None => !arrived && self == before,
        }
    }

    /// Takes note that the player `id` has arrived where it was heading.
    pub fn clear_waypoint(&mut self, id: Uuid) -> (arrived: bool)
        requires
            old(self).wf(),
        ensures
            final(self).wf(),
            final(self).arrival_result(*old(self), id, arrived),
    {
        proof {
            lemma_parts_distinct(player_ids(self.roster()), shot_ids(self.shots()));
        }
        match find_player(&self.players, id) {
            Some(at) => {
                self.players[at].waypoint = None;
                proof {
                    let before = *old(self);
                    assert(self.roster() =~= before.roster().update(
                        at as int,
                        PlayerRecord { waypoint: None, ..before.roster()[at as int] },
                    ));
                    lemma_same_people(before.roster(), self.roster());
                    lemma_same_readiness(before.roster(), self.roster());
                }
                true
            },
            None => false,
        }
    }

    /// What `send_bots` does to the session `before`: while the battle is
    /// on, the bots that head nowhere have been sent to `targets`;
    /// otherwise nothing has changed.
    pub open(crate) spec fn send_bots_result(self, before: Server, targets: Seq<Vec3>) -> bool {
        if before.stage() == BattleState::Battle {
            &&& self == Server { players: self.players, ..before }
            &&& self.roster() == dispatched(before.roster(), targets)
        } else {
            self == before
        }
    }

    /// Sends each bot that heads nowhere to the next of `targets`.
    pub fn send_bots(&mut self, targets: &Vec<Vec3>)
        requires
            old(self).wf(),
        ensures
            final(self).wf(),
            final(self).send_bots_result(*old(self), targets@),
    {
        if self.battle_state != BattleState::Battle {
            return ;
        }
        bot_waypoint_system(&mut self.players, targets);
        proof {
            lemma_same_people(old(self).roster(), self.roster());
        }
    }

    /// What `handle_action_event` does to the session `before` and
    /// answers: a move is handled as `handle_move_event` does, a fire
    /// ball as `handle_attack_event` does with `origin`, and an attack on
    /// a target has no effect.
    pub open(crate) spec fn action_result(
        self,
        before: Server,
        event: ClientEvent<ActionMessage>,
        origin: Vec3,
        outcome: ActionOutcome,
    ) -> bool {
        match event.request() {
            ActionMessage::Move { target } => outcome matches ActionOutcome::Moved(moved)
                && self.move_result(before, event.sender(), target, moved),
            ActionMessage::FireBall(_) => outcome matches ActionOutcome::Fired(fired)
                && self.attack_result(before, event.sender(), origin, fired),
            ActionMessage::Attack { target } => outcome == ActionOutcome::Ignored && self
                == before,
        }
    }

    /// Does what a client asks of its player. `origin` is where a fire
    /// ball starts if the client throws one.
    pub fn handle_action_event(&mut self, event: ClientEvent<ActionMessage>, origin: Vec3) -> (outcome:
        ActionOutcome)
        requires
            old(self).wf(),
        ensures
            final(self).wf(),
            final(self).action_result(*old(self), event, origin, outcome),
    {
        match event.event {
            ActionMessage::Move { target } => ActionOutcome::Moved(
                self.handle_move_event(event.client, target),
            ),
            ActionMessage::FireBall(_) => ActionOutcome::Fired(
                self.handle_attack_event(event.client, origin),
            ),
            ActionMessage::Attack { target: _ } => ActionOutcome::Ignored,
        }
    }
}

} // verus!
