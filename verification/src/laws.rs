//! What holds of a session whatever is asked of it.

use vstd::prelude::*;
use crate::battle::{
    aged, aged_shots, checked, crowned, damaged, despawn_pack, despawn_packs, expired,
    spawn_projectile_pack, survivors, BattleError, Impact, RoundResult,
};
use crate::components::{Client, Position, ReadyState, Uuid, Vec3};
use crate::ecs_message::{CompUpdateKind, EcsCompPacketPhantom, Replica};
use crate::lobby::{new_player, reject_pack, LobbyError};
use crate::resources::MAX_PLAYERS;
use crate::sequences::{
    lemma_filter_from, lemma_filter_none, lemma_filter_of_map, lemma_filter_one,
    lemma_filter_twice,
};
use crate::server::{
    all_ready, client_index, lemma_distinct_remove, lemma_parts_distinct, lemma_shots_issued,
    player_clients, player_ids, player_index, shot_ids, shot_index, PlayerRecord,
    ProjectileView, Server, ServerPacket,
};
use crate::server_messages::{ComponentSyncMessage, ServerMessage};
use crate::session::resolved;
use crate::states::{BattleState, ServerState};
use crate::sync::{
    changes, component_sync_pack, despawn_entity_pack, moved, player_changes, position_changes,
    position_update, shot_changes, shot_moved, spawn_entity_pack,
};

verus! {

/// Joins that follow one another: each is what `join` makes of the
/// session before it.
pub open spec fn joins_in_turn(
    states: Seq<Server>,
    clients: Seq<Client>,
    names: Seq<String>,
    results: Seq<Result<Uuid, LobbyError>>,
) -> bool {
    &&& states.len() == clients.len() + 1
    &&& names.len() == clients.len()
    &&& results.len() == clients.len()
    &&& forall|i: int|
        0 <= i < clients.len() ==> states[i + 1].join_result(
            states[i],
            #[trigger] clients[i],
            names[i],
            results[i],
        )
}

/// No client occurs twice in `clients`.
pub open spec fn no_client_twice(clients: Seq<Client>) -> bool {
    forall|i: int, j: int| 0 <= i < j < clients.len() ==> clients[i] != clients[j]
}

/// After the first `count` joins of an empty lobby by different clients,
/// each has got the next identifier and the roster holds these clients.
proof fn lemma_joins_so_far(
    states: Seq<Server>,
    clients: Seq<Client>,
    names: Seq<String>,
    results: Seq<Result<Uuid, LobbyError>>,
    count: int,
)
    requires
        joins_in_turn(states, clients, names, results),
        no_client_twice(clients),
        clients.len() <= MAX_PLAYERS,
        states[0].phase() == ServerState::Lobby,
        states[0].roster().len() == 0,
        states[0].next_id() + clients.len() <= u32::MAX,
        0 <= count <= clients.len(),
    ensures
        forall|i: int| 0 <= i < count ==> #[trigger] results[i] == Ok::<Uuid, LobbyError>(
            Uuid((states[0].next_id() + i) as u32),
        ),
        states[count].phase() == ServerState::Lobby,
        states[count].next_id() == states[0].next_id() + count,
        player_clients(states[count].roster()) == clients.subrange(0, count).map_values(
            |client: Client| Some(client),
        ),
    decreases count,
{
    if count == 0 {
        assert(player_clients(states[0].roster()) =~= clients.subrange(0, 0).map_values(
            |client: Client| Some(client),
        ));
    } else {
        let at = count - 1;
        lemma_joins_so_far(states, clients, names, results, at);
        let before = states[at];
        let after = states[at + 1];
        let joined = clients.subrange(0, at).map_values(|client: Client| Some(client));
        assert(after.join_result(before, clients[at], names[at], results[at]));
        assert(before.roster().len() == player_clients(before.roster()).len());
        if joined.contains(Some(clients[at])) {
            let i = choose|i: int| 0 <= i < joined.len() && joined[i] == Some(clients[at]);
            assert(clients[i] != clients[at]);
        }
        assert(client_index(before.roster(), clients[at]) is None);
        let id = Uuid(before.next_id());
        assert(results[at] == Ok::<Uuid, LobbyError>(id));
        assert(after.has_joined(before, clients[at], names[at], id));
        assert(after.roster() =~= before.roster().push(
            new_player(id, names[at], clients[at]),
        ));
        assert(player_clients(after.roster()) =~= player_clients(before.roster()).push(
            Some(clients[at]),
        ));
        assert(clients.subrange(0, count) =~= clients.subrange(0, at).push(clients[at]));
        assert(clients.subrange(0, count).map_values(|client: Client| Some(client)) =~= joined.push(
            Some(clients[at]),
        ));
    }
}

/// Joins of an empty lobby by different clients, up to the most players
/// a lobby takes, all succeed, and each gets the next identifier: the
/// identifiers rise strictly and none is given twice.
pub proof fn lemma_joins_get_rising_ids(
    states: Seq<Server>,
    clients: Seq<Client>,
    names: Seq<String>,
    results: Seq<Result<Uuid, LobbyError>>,
)
    requires
        joins_in_turn(states, clients, names, results),
        no_client_twice(clients),
        clients.len() <= MAX_PLAYERS,
        states[0].phase() == ServerState::Lobby,
        states[0].roster().len() == 0,
        states[0].next_id() + clients.len() <= u32::MAX,
    ensures
        forall|i: int|
            0 <= i < clients.len() ==> #[trigger] results[i] == Ok::<Uuid, LobbyError>(
                Uuid((states[0].next_id() + i) as u32),
            ),
        forall|i: int, j: int|
            0 <= i < j < clients.len() ==> (#[trigger] results[i])->Ok_0.0 < (
            #[trigger] results[j])->Ok_0.0,
        states.last().roster().len() == clients.len(),
{
    lemma_joins_so_far(states, clients, names, results, clients.len() as int);
    let roster = states.last().roster();
    assert(roster.len() == player_clients(roster).len());
}

/// A client that asks to join a full lobby is turned away: the answer is
/// `LobbyFull`, and all that changes is that the client is sent a
/// rejection that asks it to disconnect.
pub proof fn lemma_full_lobby_turns_away(
    before: Server,
    after: Server,
    client: Client,
    name: String,
    joined: Result<Uuid, LobbyError>,
)
    requires
        before.phase() == ServerState::Lobby,
        before.roster().len() == MAX_PLAYERS,
        client_index(before.roster(), client) is None,
        after.join_result(before, client, name, joined),
    ensures
        joined == Err::<Uuid, LobbyError>(LobbyError::LobbyFull),
        after.has_told(before, reject_pack(client, true)),
        after.roster() == before.roster(),
        after.outbox() == before.outbox().push(reject_pack(client, true)),
{
}

/// A session has a host exactly when it has players, and the host is
/// exactly one of them.
pub proof fn lemma_host_is_one_player(server: Server)
    requires
        server.wf(),
    ensures
        server.host_id() is None <==> server.roster().len() == 0,
        server.host_id() matches Some(host) ==> exists|at: int|
            0 <= at < server.roster().len() && #[trigger] server.roster()[at].id == host && forall|
                other: int,
            |
                0 <= other < server.roster().len() && other != at ==> (
                #[trigger] server.roster()[other]).id != host,
{
    let roster = server.roster();
    let ids = player_ids(roster);
    lemma_parts_distinct(ids, shot_ids(server.shots()));
    match server.host_id() {
        Some(host) => {
            let at = choose|at: int| 0 <= at < ids.len() && ids[at] == host;
            assert(roster[at].id == host);
            assert forall|other: int| 0 <= other < roster.len() && other != at implies (
            #[trigger] roster[other]).id != host by {
                assert(ids[other] == roster[other].id);
                if other < at {
                    assert(ids[other] != ids[at]);
                } else {
                    assert(ids[at] != ids[other]);
                }
            }
        },
        None => {
            assert(ids.len() == roster.len());
        },
    }
}

/// No two players share an identifier, no player shares one with a fire
/// ball in flight, and every identifier in use was issued before the one
/// that is issued next: an identifier is never given twice.
pub proof fn lemma_ids_are_unique(server: Server)
    requires
        server.wf(),
    ensures
        forall|i: int, j: int|
            0 <= i < j < server.roster().len() ==> (#[trigger] server.roster()[i]).id != (
            #[trigger] server.roster()[j]).id,
        forall|i: int, j: int|
            0 <= i < j < server.shots().len() ==> (#[trigger] server.shots()[i]).id != (
            #[trigger] server.shots()[j]).id,
        forall|i: int, j: int|
            0 <= i < server.roster().len() && 0 <= j < server.shots().len() ==> (
            #[trigger] server.roster()[i]).id != (#[trigger] server.shots()[j]).id,
        forall|i: int|
            0 <= i < server.roster().len() ==> (#[trigger] server.roster()[i]).id.0
                < server.next_id(),
        forall|j: int|
            0 <= j < server.shots().len() ==> (#[trigger] server.shots()[j]).id.0
                < server.next_id(),
{
    let ids = player_ids(server.roster());
    let shots = shot_ids(server.shots());
    lemma_parts_distinct(ids, shots);
    lemma_shots_issued(ids, shots, server.next_id());
    assert forall|i: int, j: int| 0 <= i < j < server.roster().len() implies (
    #[trigger] server.roster()[i]).id != (#[trigger] server.roster()[j]).id by {
        assert(ids[i] != ids[j]);
    }
    assert forall|i: int, j: int| 0 <= i < j < server.shots().len() implies (
    #[trigger] server.shots()[i]).id != (#[trigger] server.shots()[j]).id by {
        assert(shots[i] != shots[j]);
    }
    assert forall|i: int, j: int|
        0 <= i < server.roster().len() && 0 <= j < server.shots().len() implies (
    #[trigger] server.roster()[i]).id != (#[trigger] server.shots()[j]).id by {
        assert(ids[i] != shots[j]);
    }
    assert forall|i: int| 0 <= i < server.roster().len() implies (
    #[trigger] server.roster()[i]).id.0 < server.next_id() by {
        assert(ids[i].0 < server.next_id());
    }
    assert forall|j: int| 0 <= j < server.shots().len() implies (#[trigger] server.shots()[j]).id.0
        < server.next_id() by {
        assert(shots[j].0 < server.next_id());
    }
}

/// When the host leaves and players remain, one of them is the host at
/// once, and it is another player than the one that left.
pub proof fn lemma_host_passes_on(before: Server, after: Server, at: int)
    requires
        before.wf(),
        0 <= at < before.roster().len(),
        before.host_id() == Some(before.roster()[at].id),
        after.has_left(before, at),
    ensures
        after.wf(),
        after.roster().len() > 0 ==> after.host_id() == Some(after.roster()[0].id)
            && after.host_id() != before.host_id(),
        after.roster().len() == 0 ==> after.host_id() is None,
{
    after.lemma_left(before, at);
    if after.roster().len() > 0 {
        let ids = player_ids(before.roster());
        lemma_parts_distinct(ids, shot_ids(before.shots()));
        let first = if at == 0 {
            1int
        } else {
            0int
        };
        assert(after.roster()[0] == before.roster()[first]);
        assert(ids[first] == before.roster()[first].id);
        assert(ids[at] == before.roster()[at].id);
        if first < at {
            assert(ids[first] != ids[at]);
        } else {
            assert(ids[at] != ids[first]);
        }
    }
}

/// In the lobby, the aggregate ready state is `Ready` exactly when more
/// than one player is there and every player is ready.
pub proof fn lemma_lobby_ready_state(server: Server)
    requires
        server.wf(),
        server.phase() == ServerState::Lobby,
    ensures
        server.ready() == ReadyState::Ready <==> server.roster().len() > 1 && forall|i: int|
            0 <= i < server.roster().len() ==> (#[trigger] server.roster()[i]).ready_state
                == ReadyState::Ready,
{
}

/// A request to start the game does nothing unless it comes from the
/// host of a lobby in which more than one player is there and all are
/// ready; then the session steps from the lobby into loading.
pub proof fn lemma_start_game(
    before: Server,
    after: Server,
    client: Client,
    spawn_points: Seq<Vec3>,
    started: Result<(), LobbyError>,
)
    requires
        before.wf(),
        before.phase() == ServerState::Lobby,
        after.start_game_result(before, client, spawn_points, started),
    ensures
        !before.hosted_by(client) ==> started is Err && after == before,
        !(before.roster().len() > 1 && all_ready(before.roster())) ==> started is Err && after
            == before,
        before.hosted_by(client) && before.roster().len() > 1 && all_ready(before.roster())
            ==> started is Ok && after.phase() == ServerState::WaitLoading,
{
}

/// Queued damage is applied once: a second application right after the
/// first changes nothing.
pub proof fn lemma_damage_applied_once(roster: Seq<PlayerRecord>)
    ensures
        roster.map_values(|player: PlayerRecord| damaged(player)).map_values(
            |player: PlayerRecord| damaged(player),
        ) == roster.map_values(|player: PlayerRecord| damaged(player)),
{
    assert(roster.map_values(|player: PlayerRecord| damaged(player)).map_values(
        |player: PlayerRecord| damaged(player),
    ) =~= roster.map_values(|player: PlayerRecord| damaged(player)));
}

/// A player whose health runs out in a tick of the fight is dead at the
/// end of that tick.
pub proof fn lemma_out_of_health_is_dead(roster: Seq<PlayerRecord>)
    ensures
        resolved(roster).len() == roster.len(),
        forall|i: int|
            0 <= i < roster.len() ==> (#[trigger] resolved(roster)[i]).health == damaged(
                roster[i],
            ).health,
        forall|i: int|
            0 <= i < roster.len() && (#[trigger] resolved(roster)[i]).out_of_health()
                ==> resolved(roster)[i].dead,
{
}

/// The players of `roster` that are winners, in order.
pub open spec fn winners(roster: Seq<PlayerRecord>) -> Seq<PlayerRecord> {
    roster.filter(|player: PlayerRecord| player.winner)
}

/// A tick of the fight that leaves exactly one player alive, and starts
/// without a winner, makes exactly one winner: the player left alive.
pub proof fn lemma_one_survivor_one_winner(roster: Seq<PlayerRecord>)
    requires
        forall|i: int| 0 <= i < roster.len() ==> !(#[trigger] roster[i]).winner,
        survivors(roster.map_values(|player: PlayerRecord| checked(damaged(player)))).len() == 1,
    ensures
        winners(resolved(roster)).len() == 1,
        !winners(resolved(roster))[0].dead,
        winners(resolved(roster))[0].id == survivors(
            roster.map_values(|player: PlayerRecord| checked(damaged(player))),
        )[0].id,
{
    let hurt = roster.map_values(|player: PlayerRecord| checked(damaged(player)));
    let crown = |player: PlayerRecord| crowned(player);
    let wins = |player: PlayerRecord| player.winner;
    let alive = |player: PlayerRecord| !player.dead;
    assert forall|i: int| 0 <= i < hurt.len() implies wins(crown(#[trigger] hurt[i])) == alive(
        hurt[i],
    ) by {
        assert(!roster[i].winner);
    }
    lemma_filter_of_map(hurt, crown, wins, alive);
    assert(winners(resolved(roster)) == survivors(hurt).map_values(crown));
}

/// A fire ball that is thrown is in flight, and every client is told of
/// it.
pub proof fn lemma_fire_ball_is_announced(
    before: Server,
    after: Server,
    client: Client,
    origin: Vec3,
    id: Uuid,
)
    requires
        after.attack_result(before, client, origin, Ok::<Uuid, BattleError>(id)),
    ensures
        after.outbox() == before.outbox().push(spawn_projectile_pack(id)),
        shot_index(after.shots(), id) is Some,
        id.0 == before.next_id(),
{
    let ids = shot_ids(after.shots());
    assert(ids[ids.len() - 1] == id);
}

/// A fire ball that ends on what it touches is gone, and every client is
/// told so once.
pub proof fn lemma_impact_despawns_once(
    before: Server,
    after: Server,
    fireball: Uuid,
    target: Option<Uuid>,
    impact: Option<Impact>,
)
    requires
        before.wf(),
        after.collision_result(before, fireball, target, impact),
        impact is Some,
    ensures
        after.outbox() == before.outbox().push(despawn_pack(fireball)),
        shot_index(after.shots(), fireball) is None,
{
    let ids = shot_ids(before.shots());
    lemma_parts_distinct(player_ids(before.roster()), ids);
    let at = shot_index(before.shots(), fireball)->0;
    assert(ids.contains(fireball));
    assert(ids[at] == fireball);
    lemma_shots_issued(player_ids(before.roster()), ids, before.next_id());
    lemma_distinct_remove(ids, at, before.next_id());
    assert(shot_ids(after.shots()) =~= ids.remove(at));
}

/// The number of messages in `packs` that tell of the end of the entity
/// `id`.
pub open spec fn despawns_of(packs: Seq<ServerPacket>, id: Uuid) -> nat {
    packs.filter(|pack: ServerPacket| pack == despawn_pack(id)).len()
}

/// When time passes in a battle, a fire ball in flight whose lifetime
/// has just ended is gone, and every client is told so once; any other
/// fire ball stays in flight, and nothing is told of it.
pub proof fn lemma_expiry_despawns_once(before: Server, after: Server, delta_nanos: u64, at: int)
    requires
        before.wf(),
        before.stage() == BattleState::Battle,
        0 <= at < before.shots().len(),
        after.lifetime_result(before, delta_nanos),
    ensures
        after.outbox().subrange(0, before.outbox().len() as int) == before.outbox(),
        ({
            let id = before.shots()[at].id;
            let told = after.outbox().subrange(
                before.outbox().len() as int,
                after.outbox().len() as int,
            );
            if aged(before.shots()[at], delta_nanos as nat).timer.just_finished {
                despawns_of(told, id) == 1 && shot_index(after.shots(), id) is None
            } else {
                despawns_of(told, id) == 0 && shot_index(after.shots(), id) is Some
            }
        }),
{
    broadcast use vstd::seq_lib::group_filter_ensures;
    let delta = delta_nanos as nat;
    let shots = before.shots();
    let id = shots[at].id;
    let older = aged_shots(shots, delta);
    let ids = shot_ids(shots);
    lemma_parts_distinct(player_ids(before.roster()), ids);
    let told = after.outbox().subrange(before.outbox().len() as int, after.outbox().len() as int);
    assert(told =~= despawn_packs(expired(older)));
    assert(after.outbox().subrange(0, before.outbox().len() as int) =~= before.outbox());

    let age = |shot: ProjectileView| aged(shot, delta);
    let ended = |shot: ProjectileView| shot.timer.just_finished;
    let lives = |shot: ProjectileView| !shot.timer.just_finished;
    let will_end = |shot: ProjectileView| aged(shot, delta).timer.just_finished;
    let will_live = |shot: ProjectileView| !aged(shot, delta).timer.just_finished;
    let is_it = |shot: ProjectileView| shot.id == id;
    let it_ends = |shot: ProjectileView| aged(shot, delta).timer.just_finished && shot.id == id;
    let it_lives = |shot: ProjectileView| !aged(shot, delta).timer.just_finished && shot.id == id;
    let pack_of = |shot: ProjectileView| despawn_pack(shot.id);
    let is_pack = |pack: ServerPacket| pack == despawn_pack(id);

    // What is told of the fire ball.
    lemma_filter_of_map(shots, age, ended, will_end);
    assert(expired(older) == shots.filter(will_end).map_values(age));
    assert(despawn_packs(expired(older)) =~= shots.filter(will_end).map_values(pack_of));
    lemma_filter_of_map(shots.filter(will_end), pack_of, is_pack, is_it);
    lemma_filter_twice(shots, will_end, is_it, it_ends);
    assert forall|i: int| 0 <= i < shots.len() && i != at implies !it_ends(#[trigger] shots[i]) by {
        assert(ids[i] == shots[i].id && ids[at] == id);
        if i < at {
            assert(ids[i] != ids[at]);
        } else {
            assert(ids[at] != ids[i]);
        }
    }
    lemma_filter_one(shots, it_ends, at);
    assert(told.filter(is_pack) == shots.filter(it_ends).map_values(pack_of));

    // Whether the fire ball is still in flight.
    lemma_filter_of_map(shots, age, lives, will_live);
    assert(after.shots() == shots.filter(will_live).map_values(age));
    let left = shot_ids(after.shots());
    let id_of_aged = |shot: ProjectileView| aged(shot, delta).id;
    assert(left =~= shots.filter(will_live).map_values(id_of_aged));
    let is_id = |other: Uuid| other == id;
    lemma_filter_of_map(shots.filter(will_live), id_of_aged, is_id, is_it);
    lemma_filter_twice(shots, will_live, is_it, it_lives);
    assert forall|i: int| 0 <= i < shots.len() && i != at implies !it_lives(#[trigger] shots[i]) by {
        assert(ids[i] == shots[i].id && ids[at] == id);
        if i < at {
            assert(ids[i] != ids[at]);
        } else {
            assert(ids[at] != ids[i]);
        }
    }
    lemma_filter_one(shots, it_lives, at);
    assert(left.filter(is_id) == shots.filter(it_lives).map_values(id_of_aged));
    if will_end(shots[at]) {
        assert(left.filter(is_id).len() == 0);
        if left.contains(id) {
            let k = choose|k: int| 0 <= k < left.len() && left[k] == id;
            assert(is_id(left[k]));
            assert(left.filter(is_id).contains(left[k]));
        }
    } else {
        assert(will_live(shots[at]));
        assert(shots.filter(will_live).contains(shots[at]));
        let k = choose|k: int|
            0 <= k < shots.filter(will_live).len() && shots.filter(will_live)[k] == shots[at];
        assert(left[k] == id);
    }
}

/// Nothing is told of the end of a fire ball that is not in flight:
/// a touch on its behalf does nothing, and time that passes tells nothing
/// of it.
pub proof fn lemma_gone_stays_gone(
    before: Server,
    touched: Server,
    target: Option<Uuid>,
    impact: Option<Impact>,
    later: Server,
    delta_nanos: u64,
    id: Uuid,
)
    requires
        shot_index(before.shots(), id) is None,
        touched.collision_result(before, id, target, impact),
        later.lifetime_result(before, delta_nanos),
    ensures
        impact is None,
        touched == before,
        despawns_of(
            later.outbox().subrange(before.outbox().len() as int, later.outbox().len() as int),
            id,
        ) == 0,
        shot_index(later.shots(), id) is None,
{
    broadcast use vstd::seq_lib::group_filter_ensures;
    let delta = delta_nanos as nat;
    let shots = before.shots();
    let ids = shot_ids(shots);
    let told = later.outbox().subrange(before.outbox().len() as int, later.outbox().len() as int);
    let is_pack = |pack: ServerPacket| pack == despawn_pack(id);
    if before.stage() == BattleState::Battle {
        let older = aged_shots(shots, delta);
        assert(told =~= despawn_packs(expired(older)));
        let age = |shot: ProjectileView| aged(shot, delta);
        let ended = |shot: ProjectileView| shot.timer.just_finished;
        let lives = |shot: ProjectileView| !shot.timer.just_finished;
        let will_end = |shot: ProjectileView| aged(shot, delta).timer.just_finished;
        let will_live = |shot: ProjectileView| !aged(shot, delta).timer.just_finished;
        let is_it = |shot: ProjectileView| shot.id == id;
        let it_ends = |shot: ProjectileView| aged(shot, delta).timer.just_finished && shot.id == id;
        let it_lives = |shot: ProjectileView|
            !aged(shot, delta).timer.just_finished && shot.id == id;
        let pack_of = |shot: ProjectileView| despawn_pack(shot.id);
        assert forall|i: int| 0 <= i < shots.len() implies !is_it(#[trigger] shots[i]) by {
            assert(ids[i] == shots[i].id);
        }
        lemma_filter_of_map(shots, age, ended, will_end);
        assert(despawn_packs(expired(older)) =~= shots.filter(will_end).map_values(pack_of));
        lemma_filter_of_map(shots.filter(will_end), pack_of, is_pack, is_it);
        lemma_filter_twice(shots, will_end, is_it, it_ends);
        lemma_filter_none(shots, it_ends);

        lemma_filter_of_map(shots, age, lives, will_live);
        let left = shot_ids(later.shots());
        let id_of_aged = |shot: ProjectileView| aged(shot, delta).id;
        assert(left =~= shots.filter(will_live).map_values(id_of_aged));
        let is_id = |other: Uuid| other == id;
        lemma_filter_of_map(shots.filter(will_live), id_of_aged, is_id, is_it);
        lemma_filter_twice(shots, will_live, is_it, it_lives);
        lemma_filter_none(shots, it_lives);
        if left.contains(id) {
            let k = choose|k: int| 0 <= k < left.len() && left[k] == id;
            assert(is_id(left[k]));
            assert(left.filter(is_id).contains(left[k]));
        }
    } else {
        assert(told =~= Seq::<ServerPacket>::empty());
    }
}

/// A fire ball whose remaining lifetime passes has just ended.
pub proof fn lemma_fire_ball_times_out(shot: ProjectileView, delta: nat)
    requires
        !shot.timer.finished,
        shot.timer.elapsed + delta >= shot.timer.duration,
    ensures
        aged(shot, delta).timer.just_finished,
{
}

/// Whether `pack` tells of the position of the entity `id`.
pub open spec fn tells_position(pack: ServerPacket, id: Uuid) -> bool {
    pack.msg matches ServerMessage::ComponentSync(ComponentSyncMessage(entity, update)) && entity
        == id && update.kind() == EcsCompPacketPhantom::Position
}

/// Moves of the entity `id` that follow one another: each is what
/// `position_sync_system` makes of the session before it.
pub open spec fn moves_in_turn(states: Seq<Server>, id: Uuid, values: Seq<Vec3>) -> bool {
    &&& states.len() == values.len() + 1
    &&& forall|i: int|
        0 <= i < values.len() ==> states[i + 1].position_result(
            states[i],
            id,
            #[trigger] values[i],
            true,
        )
}

/// After the first `count` moves of the player `id`, the session is as it
/// was but for the position of that player, which is where it was moved
/// last.
proof fn lemma_moves_so_far(states: Seq<Server>, id: Uuid, values: Seq<Vec3>, count: int)
    requires
        moves_in_turn(states, id, values),
        player_index(states[0].roster(), id) is Some,
        0 <= count <= values.len(),
    ensures
        ({
            let at = player_index(states[0].roster(), id)->0;
            let first = states[0];
            let now = states[count];
            &&& 0 <= at < first.roster().len()
            &&& first.roster()[at].id == id
            &&& now == Server { players: now.players, ..first }
            &&& now.roster().len() == first.roster().len()
            &&& player_ids(now.roster()) == player_ids(first.roster())
            &&& forall|j: int|
                0 <= j < first.roster().len() && j != at ==> now.roster()[j] == first.roster()[j]
            &&& now.roster()[at] == PlayerRecord {
                position: now.roster()[at].position,
                ..first.roster()[at]
            }
            &&& count > 0 ==> now.roster()[at].position == Some(Position(values[count - 1]))
        }),
    decreases count,
{
    let first = states[0];
    let ids = player_ids(first.roster());
    assert(ids.contains(id));
    let at = player_index(first.roster(), id)->0;
    assert(ids[at] == id);
    if count > 0 {
        lemma_moves_so_far(states, id, values, count - 1);
        let before = states[count - 1];
        let now = states[count];
        assert(now.position_result(before, id, values[count - 1], true));
        assert(player_index(before.roster(), id) == Some(at));
        assert(player_ids(now.roster()) =~= player_ids(first.roster()));
    }
}

/// However often a player is moved before clients are told, they are
/// told of its position once, with the position it was moved to last;
/// they are told nothing of it if that is the position they knew.
pub proof fn lemma_position_told_once(
    states: Seq<Server>,
    id: Uuid,
    values: Seq<Vec3>,
    after: Server,
)
    requires
        states[0].wf(),
        values.len() >= 1,
        moves_in_turn(states, id, values),
        player_index(states[0].roster(), id) is Some,
        after.sync_result(states.last()),
    ensures
        ({
            let at = player_index(states[0].roster(), id)->0;
            let known = states[0].roster()[at].synced_position;
            let last = Some(Position(values.last()));
            let told = after.outbox().subrange(
                states.last().outbox().len() as int,
                after.outbox().len() as int,
            );
            told.filter(|pack: ServerPacket| tells_position(pack, id)) == if known == last {
                Seq::<ServerPacket>::empty()
            } else {
                seq![component_sync_pack((id, position_update(known, last)->0))]
            }
        }),
{
    broadcast use vstd::seq_lib::group_filter_ensures;
    lemma_moves_so_far(states, id, values, values.len() as int);
    let first = states[0];
    let before = states.last();
    let at = player_index(first.roster(), id)->0;
    let roster = before.roster();
    let shots = before.shots();
    let ids = player_ids(roster);
    lemma_parts_distinct(player_ids(first.roster()), shot_ids(first.shots()));
    let told = after.outbox().subrange(before.outbox().len() as int, after.outbox().len() as int);
    let tells = |pack: ServerPacket| tells_position(pack, id);
    let pack_of = |update: (Uuid, CompUpdateKind)| component_sync_pack(update);
    let concerns = |update: (Uuid, CompUpdateKind)|
        update.0 == id && update.1.kind() == EcsCompPacketPhantom::Position;

    let spawns = before.pending().spawned().map_values(|id: Uuid| spawn_entity_pack(id));
    let despawns = before.pending().despawned().map_values(|id: Uuid| despawn_entity_pack(id));
    let positions = position_changes(roster);
    let flights = shot_changes(shots);
    let marks = player_changes(roster);
    assert(told =~= spawns + despawns + positions.map_values(pack_of) + flights.map_values(pack_of)
        + marks.map_values(pack_of));
    Seq::filter_distributes_over_add(
        spawns + despawns + positions.map_values(pack_of) + flights.map_values(pack_of),
        marks.map_values(pack_of),
        tells,
    );
    Seq::filter_distributes_over_add(
        spawns + despawns + positions.map_values(pack_of),
        flights.map_values(pack_of),
        tells,
    );
    Seq::filter_distributes_over_add(spawns + despawns, positions.map_values(pack_of), tells);
    Seq::filter_distributes_over_add(spawns, despawns, tells);
    lemma_filter_none(spawns, tells);
    lemma_filter_none(despawns, tells);
    lemma_filter_none(marks.map_values(pack_of), tells);

    // Nothing is told of a projectile under the identifier of a player.
    let flies = |shot: ProjectileView| shot_moved(shot);
    let flight_of = |shot: ProjectileView|
        (shot.id, position_update(shot.synced_position, Some(shot.position))->0);
    let shot_is_it = |shot: ProjectileView| shot.id == id;
    let shot_both = |shot: ProjectileView| shot_moved(shot) && shot.id == id;
    lemma_filter_of_map(flights, pack_of, tells, concerns);
    lemma_filter_of_map(shots.filter(flies), flight_of, concerns, shot_is_it);
    lemma_filter_twice(shots, flies, shot_is_it, shot_both);
    assert forall|i: int| 0 <= i < shots.len() implies !shot_both(#[trigger] shots[i]) by {
        assert(shot_ids(shots)[i] == shots[i].id);
        assert(player_ids(first.roster())[at] == id);
    }
    lemma_filter_none(shots, shot_both);
    assert(flights.map_values(pack_of).filter(tells) =~= Seq::<ServerPacket>::empty());

    // One thing at most is told of the position of the player.
    let moves = |player: PlayerRecord| moved(player);
    let move_of = |player: PlayerRecord|
        (player.id, position_update(player.synced_position, player.position)->0);
    let is_it = |player: PlayerRecord| player.id == id;
    let both = |player: PlayerRecord| moved(player) && player.id == id;
    lemma_filter_of_map(positions, pack_of, tells, concerns);
    lemma_filter_of_map(roster.filter(moves), move_of, concerns, is_it);
    lemma_filter_twice(roster, moves, is_it, both);
    assert forall|i: int| 0 <= i < roster.len() && i != at implies !both(#[trigger] roster[i]) by {
        assert(ids[i] == roster[i].id && ids[at] == id);
        if i < at {
            assert(ids[i] != ids[at]);
        } else {
            assert(ids[at] != ids[i]);
        }
    }
    lemma_filter_one(roster, both, at);
    assert(positions.map_values(pack_of).filter(tells) == roster.filter(both).map_values(
        move_of,
    ).map_values(pack_of));
    let known = first.roster()[at].synced_position;
    let last = Some(Position(values.last()));
    if known == last {
        assert(told.filter(tells) =~= Seq::<ServerPacket>::empty());
    } else {
        assert(told.filter(tells) =~= seq![component_sync_pack((id, position_update(known, last)->0))]);
    }
}

/// After the first `count` moves of the fire ball `id`, the session is as
/// it was but for the position of that fire ball, which is where it was
/// moved last.
proof fn lemma_flights_so_far(states: Seq<Server>, id: Uuid, values: Seq<Vec3>, count: int)
    requires
        moves_in_turn(states, id, values),
        player_index(states[0].roster(), id) is None,
        shot_index(states[0].shots(), id) is Some,
        0 <= count <= values.len(),
    ensures
        ({
            let at = shot_index(states[0].shots(), id)->0;
            let first = states[0];
            let now = states[count];
            &&& 0 <= at < first.shots().len()
            &&& first.shots()[at].id == id
            &&& now == Server { projectiles: now.projectiles, ..first }
            &&& now.shots().len() == first.shots().len()
            &&& shot_ids(now.shots()) == shot_ids(first.shots())
            &&& forall|j: int|
                0 <= j < first.shots().len() && j != at ==> now.shots()[j] == first.shots()[j]
            &&& now.shots()[at] == ProjectileView {
                position: now.shots()[at].position,
                ..first.shots()[at]
            }
            &&& count > 0 ==> now.shots()[at].position == Position(values[count - 1])
        }),
    decreases count,
{
    let first = states[0];
    let ids = shot_ids(first.shots());
    assert(ids.contains(id));
    let at = shot_index(first.shots(), id)->0;
    assert(ids[at] == id);
    if count > 0 {
        lemma_flights_so_far(states, id, values, count - 1);
        let before = states[count - 1];
        let now = states[count];
        assert(now.position_result(before, id, values[count - 1], true));
        assert(shot_index(before.shots(), id) == Some(at));
        assert(shot_ids(now.shots()) =~= shot_ids(first.shots()));
    }
}

/// However often a fire ball is moved before clients are told, they are
/// told of its position once, with the position it was moved to last;
/// they are told nothing of it if that is the position they knew.
pub proof fn lemma_flight_told_once(
    states: Seq<Server>,
    id: Uuid,
    values: Seq<Vec3>,
    after: Server,
)
    requires
        states[0].wf(),
        values.len() >= 1,
        moves_in_turn(states, id, values),
        player_index(states[0].roster(), id) is None,
        shot_index(states[0].shots(), id) is Some,
        after.sync_result(states.last()),
    ensures
        ({
            let at = shot_index(states[0].shots(), id)->0;
            let known = states[0].shots()[at].synced_position;
            let last = Some(Position(values.last()));
            let told = after.outbox().subrange(
                states.last().outbox().len() as int,
                after.outbox().len() as int,
            );
            told.filter(|pack: ServerPacket| tells_position(pack, id)) == if known == last {
                Seq::<ServerPacket>::empty()
            } else {
                seq![component_sync_pack((id, position_update(known, last)->0))]
            }
        }),
{
    broadcast use vstd::seq_lib::group_filter_ensures;

    lemma_flights_so_far(states, id, values, values.len() as int);
    let first = states[0];
    let before = states.last();
    let at = shot_index(first.shots(), id)->0;
    let roster = before.roster();
    let shots = before.shots();
    let ids = shot_ids(shots);
    lemma_parts_distinct(player_ids(first.roster()), shot_ids(first.shots()));
    let told = after.outbox().subrange(before.outbox().len() as int, after.outbox().len() as int);
    let tells = |pack: ServerPacket| tells_position(pack, id);
    let pack_of = |update: (Uuid, CompUpdateKind)| component_sync_pack(update);
    let concerns = |update: (Uuid, CompUpdateKind)|
        update.0 == id && update.1.kind() == EcsCompPacketPhantom::Position;

    let spawns = before.pending().spawned().map_values(|id: Uuid| spawn_entity_pack(id));
    let despawns = before.pending().despawned().map_values(|id: Uuid| despawn_entity_pack(id));
    let positions = position_changes(roster);
    let flights = shot_changes(shots);
    let marks = player_changes(roster);
    assert(told =~= spawns + despawns + positions.map_values(pack_of) + flights.map_values(pack_of)
        + marks.map_values(pack_of));
    Seq::filter_distributes_over_add(
        spawns + despawns + positions.map_values(pack_of) + flights.map_values(pack_of),
        marks.map_values(pack_of),
        tells,
    );
    Seq::filter_distributes_over_add(
        spawns + despawns + positions.map_values(pack_of),
        flights.map_values(pack_of),
        tells,
    );
    Seq::filter_distributes_over_add(spawns + despawns, positions.map_values(pack_of), tells);
    Seq::filter_distributes_over_add(spawns, despawns, tells);
    lemma_filter_none(spawns, tells);
    lemma_filter_none(despawns, tells);
    lemma_filter_none(marks.map_values(pack_of), tells);

    // Nothing is told of a player under the identifier of a projectile.
    let moves = |player: PlayerRecord| moved(player);
    let move_of = |player: PlayerRecord|
        (player.id, position_update(player.synced_position, player.position)->0);
    let is_it = |player: PlayerRecord| player.id == id;
    let both = |player: PlayerRecord| moved(player) && player.id == id;
    lemma_filter_of_map(positions, pack_of, tells, concerns);
    lemma_filter_of_map(roster.filter(moves), move_of, concerns, is_it);
    lemma_filter_twice(roster, moves, is_it, both);
    assert forall|i: int| 0 <= i < roster.len() implies !both(#[trigger] roster[i]) by {
        assert(player_ids(roster)[i] == roster[i].id);
        assert(shot_ids(first.shots())[at] == id);
    }
    lemma_filter_none(roster, both);
    assert(positions.map_values(pack_of).filter(tells) =~= Seq::<ServerPacket>::empty());

    // One thing at most is told of the position of the fire ball.
    let flies = |shot: ProjectileView| shot_moved(shot);
    let flight_of = |shot: ProjectileView|
        (shot.id, position_update(shot.synced_position, Some(shot.position))->0);
    let shot_is_it = |shot: ProjectileView| shot.id == id;
    let shot_both = |shot: ProjectileView| shot_moved(shot) && shot.id == id;
    lemma_filter_of_map(flights, pack_of, tells, concerns);
    lemma_filter_of_map(shots.filter(flies), flight_of, concerns, shot_is_it);
    lemma_filter_twice(shots, flies, shot_is_it, shot_both);
    assert forall|i: int| 0 <= i < shots.len() && i != at implies !shot_both(
        #[trigger] shots[i],
    ) by {
        assert(ids[i] == shots[i].id && ids[at] == id);
        if i < at {
            assert(ids[i] != ids[at]);
        } else {
            assert(ids[at] != ids[i]);
        }
    }
    lemma_filter_one(shots, shot_both, at);
    assert(flights.map_values(pack_of).filter(tells) == shots.filter(shot_both).map_values(
        flight_of,
    ).map_values(pack_of));
    let known = first.shots()[at].synced_position;
    let last = Some(Position(values.last()));
    if known == last {
        assert(told.filter(tells) =~= Seq::<ServerPacket>::empty());
    } else {
        assert(told.filter(tells) =~= seq![component_sync_pack((id, position_update(known, last)->0))]);
    }
}

/// Every component change that clients are told of concerns a player or
/// fire ball that is there, and none concerns a player whose leaving
/// waits to be told.
pub proof fn lemma_changes_concern_the_living(server: Server, k: int)
    requires
        server.wf(),
        0 <= k < changes(server.roster(), server.shots()).len(),
    ensures
        (player_ids(server.roster()) + shot_ids(server.shots())).contains(
            changes(server.roster(), server.shots())[k].0,
        ),
        !server.pending().despawned().contains(changes(server.roster(), server.shots())[k].0),
{
    let roster = server.roster();
    let shots = server.shots();
    let live = player_ids(roster) + shot_ids(shots);
    let positions = position_changes(roster);
    let flights = shot_changes(shots);
    let marks = player_changes(roster);
    let id = changes(roster, shots)[k].0;
    if k < positions.len() {
        let moves = |player: PlayerRecord| moved(player);
        lemma_filter_from(roster, moves, k);
        let player = roster.filter(moves)[k];
        let at = choose|at: int| 0 <= at < roster.len() && roster[at] == player;
        assert(live[at] == id);
    } else if k < positions.len() + flights.len() {
        let flies = |shot: ProjectileView| shot_moved(shot);
        let n = k - positions.len();
        lemma_filter_from(shots, flies, n);
        let shot = shots.filter(flies)[n];
        let at = choose|at: int| 0 <= at < shots.len() && shots[at] == shot;
        assert(live[roster.len() + at] == id);
    } else {
        let is_new = |player: PlayerRecord| !player.synced_player;
        let n = k - positions.len() - flights.len();
        lemma_filter_from(roster, is_new, n);
        let player = roster.filter(is_new)[n];
        let at = choose|at: int| 0 <= at < roster.len() && roster[at] == player;
        assert(live[at] == id);
    }
    assert(live.contains(id));
    let left = server.pending().despawned();
    if left.contains(id) {
        let n = choose|n: int| 0 <= n < left.len() && left[n] == id;
        assert(!live.contains(left[n]));
    }
}

/// When time passes, the session stays in its phase or steps to a phase
/// that its phase leads to.
pub proof fn lemma_update_steps(
    before: Server,
    after: Server,
    delta_nanos: u64,
    over: Option<RoundResult>,
)
    requires
        before.wf(),
        after.update_result(before, delta_nanos, over),
    ensures
        after.phase() == before.phase() || before.phase().leads_to(after.phase()),
        over matches Some(result) ==> after.phase() == result.next,
{
    if before.phase() == ServerState::Shopping {
        let ticked = choose|ticked: Server|
            #![trigger ticked.update_timer_result(before, delta_nanos)]
            ticked.update_timer_result(before, delta_nanos) && after.check_timer_result(
                ticked,
                ticked.shopping().finished,
            );
        assert(ticked.phase() == ServerState::Shopping);
    } else if before.phase() == ServerState::Battle && before.stage() == BattleState::Battle {
        let (hurt, judged) = choose|hurt: Server, judged: Server|
            #![trigger hurt.fought(before), judged.switch_state_result(hurt, over)]
            hurt.fought(before) && judged.switch_state_result(hurt, over)
                && after.lifetime_result(judged, delta_nanos);
        assert(hurt.phase() == ServerState::Battle);
        assert(after.phase() == judged.phase());
    }
}

/// A client's copy that holds the position clients last knew holds the
/// current position once it has carried out what it is told.
pub proof fn lemma_replica_follows(replica: Replica, now: Option<Position>)
    ensures
        match position_update(replica.position, now) {
            Some(update) => replica.updated(update) == (Replica { position: now, ..replica }),
            None => replica.position == now,
        },
{
}

} // verus!
