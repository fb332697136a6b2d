//! What clients are told about entities: snapshots for newcomers, spawns,
//! despawns and component changes.

use vstd::prelude::*;
use crate::components::{Client, Player, Position, Uuid};
use crate::ecs_message::{
    CompSyncPackage, CompUpdateKind, EcsCompPacket, EcsCompPacketPhantom, EntityPackage,
};
use crate::events::SpawnEvent;
use crate::network::{Dest, Pack};
use crate::sequences::lemma_filter_push;
use crate::server::{
    lemma_same_people, lemma_same_readiness, shot_ids, shot_views, PlayerRecord, Projectile,
    ProjectileView, Server, ServerPacket, };
use crate::server_messages::{
    ComponentSyncMessage, LobbyServerMessage, ServerMessage, WorldSync,
};

verus! {

/// The synchronised components of a player: its position, if it has one,
/// and its player mark.
pub open spec fn tracked_components(player: PlayerRecord) -> Seq<EcsCompPacket> {
    match player.position {
        Some(position) => seq![EcsCompPacket::Position(position), EcsCompPacket::Player(Player)],
        None => seq![EcsCompPacket::Player(Player)],
    }
}

/// Whether `pack` shows `player` to `client` alone, as part of the world
/// that a newcomer is welcomed with.
pub open spec fn welcomes_world(pack: ServerPacket, client: Client, player: PlayerRecord) -> bool {
    &&& pack.dest == Dest::Single(client)
    &&& pack.msg matches ServerMessage::Lobby(LobbyServerMessage::WelcomeWorld(world))
    &&& world.entity_package.uid == player.id
    &&& world.entity_package.comps@ == tracked_components(player)
}

/// Packs a player with its synchronised components.
pub fn snapshot(player: &PlayerRecord) -> (package: EntityPackage)
    ensures
        package.uid == player.id,
        package.comps@ == tracked_components(*player),
{
    let mut comps: Vec<EcsCompPacket> = Vec::new();
    match player.position {
        Some(position) => {
            comps.push(EcsCompPacket::Position(position));
        },
        None => {},
    }
    comps.push(EcsCompPacket::Player(Player));
    EntityPackage { uid: player.id, comps }
}

/// Queues, for `client` alone, one welcome for each player of the roster,
/// in roster order.
pub fn sync_world(packets: &mut Vec<ServerPacket>, players: &Vec<PlayerRecord>, client: Client)
    ensures
        final(packets)@.len() == old(packets)@.len() + players@.len(),
        final(packets)@.subrange(0, old(packets)@.len() as int) == old(packets)@,
        forall|k: int|
            0 <= k < players@.len() ==> welcomes_world(
                #[trigger] final(packets)@[old(packets)@.len() + k],
                client,
                players@[k],
            ),
{
    let ghost before = packets@;
    let mut i: usize = 0;
    while i < players.len()
        invariant
            i <= players.len(),
            packets@.len() == before.len() + i,
            packets@.subrange(0, before.len() as int) == before,
            forall|k: int|
                0 <= k < i ==> welcomes_world(
                    #[trigger] packets@[before.len() + k],
                    client,
                    players@[k],
                ),
        decreases players.len() - i,
    {
        let ghost so_far = packets@;
        let world = WorldSync { entity_package: snapshot(&players[i]) };
        packets.push(
            Pack::single(ServerMessage::Lobby(LobbyServerMessage::WelcomeWorld(world)), client),
        );
        proof {
            assert(packets@.subrange(0, before.len() as int) =~= so_far.subrange(
                0,
                before.len() as int,
            ));
            assert forall|k: int| 0 <= k < i + 1 implies welcomes_world(
                #[trigger] packets@[before.len() + k],
                client,
                players@[k],
            ) by {
                if k < i {
                    assert(packets@[before.len() + k] == so_far[before.len() + k]);
                }
            }
        }
        i = i + 1;
    }
}

/// What clients have to be told of a position that they last knew as
/// `synced` and that is `now`: nothing if it is the same.
pub open spec fn position_update(synced: Option<Position>, now: Option<Position>) -> Option<
    CompUpdateKind,
> {
    match (synced, now) {
        (None, Some(position)) => Some(CompUpdateKind::Inserted(EcsCompPacket::Position(position))),
        (Some(known), Some(position)) => if known != position {
            Some(CompUpdateKind::Modified(EcsCompPacket::Position(position)))
        } else {
            None
        },
        (Some(_), None) => Some(CompUpdateKind::Removed(EcsCompPacketPhantom::Position)),
        (None, None) => None,
    }
}

/// Whether clients have to be told of the position of `player`.
pub open spec fn moved(player: PlayerRecord) -> bool {
    position_update(player.synced_position, player.position) is Some
}

/// Whether clients have to be told of the position of `shot`.
pub open spec fn shot_moved(shot: ProjectileView) -> bool {
    position_update(shot.synced_position, Some(shot.position)) is Some
}

/// The position changes of the players of `roster`, in roster order: one
/// for each player whose position is not what clients last knew.
pub open spec fn position_changes(roster: Seq<PlayerRecord>) -> Seq<(Uuid, CompUpdateKind)> {
    roster.filter(|player: PlayerRecord| moved(player)).map_values(
        |player: PlayerRecord|
            (player.id, position_update(player.synced_position, player.position)->0),
    )
}

/// The position changes of `shots`, oldest first.
pub open spec fn shot_changes(shots: Seq<ProjectileView>) -> Seq<(Uuid, CompUpdateKind)> {
    shots.filter(|shot: ProjectileView| shot_moved(shot)).map_values(
        |shot: ProjectileView|
            (shot.id, position_update(shot.synced_position, Some(shot.position))->0),
    )
}

/// The player marks that clients do not know yet, in roster order.
pub open spec fn player_changes(roster: Seq<PlayerRecord>) -> Seq<(Uuid, CompUpdateKind)> {
    roster.filter(|player: PlayerRecord| !player.synced_player).map_values(
        |player: PlayerRecord| (player.id, CompUpdateKind::Inserted(EcsCompPacket::Player(Player))),
    )
}

/// Everything that clients have to be told of synchronised components:
/// the positions of players, the positions of projectiles, and the
/// player marks.
pub open spec fn changes(roster: Seq<PlayerRecord>, shots: Seq<ProjectileView>) -> Seq<
    (Uuid, CompUpdateKind),
> {
    position_changes(roster) + shot_changes(shots) + player_changes(roster)
}

/// `player` once clients know its synchronised components.
pub open spec fn synced(player: PlayerRecord) -> PlayerRecord {
    PlayerRecord { synced_position: player.position, synced_player: true, ..player }
}

/// `shot` once clients know its position.
pub open spec fn synced_shot(shot: ProjectileView) -> ProjectileView {
    ProjectileView { synced_position: Some(shot.position), ..shot }
}

/// Compares a position with what clients last knew of it.
pub fn diff_position(synced: Option<Position>, now: Option<Position>) -> (update: Option<
    CompUpdateKind,
>)
    ensures
        update == position_update(synced, now),
{
    match (synced, now) {
        (None, Some(position)) => Some(CompUpdateKind::Inserted(EcsCompPacket::Position(position))),
        (Some(known), Some(position)) => if known != position {
            Some(CompUpdateKind::Modified(EcsCompPacket::Position(position)))
        } else {
            None
        },
        (Some(_), None) => Some(CompUpdateKind::Removed(EcsCompPacketPhantom::Position)),
        (None, None) => None,
    }
}

/// Collects what clients have to be told of every synchronised component
/// that is not what they last knew, and takes note that they know it now.
pub fn broadcast_changes_system(
    players: &mut Vec<PlayerRecord>,
    projectiles: &mut Vec<Projectile>,
) -> (package: CompSyncPackage)
    ensures
        package.comp_updates@ == changes(old(players)@, shot_views(old(projectiles)@)),
        final(players)@ == old(players)@.map_values(|player: PlayerRecord| synced(player)),
        shot_views(final(projectiles)@) == shot_views(old(projectiles)@).map_values(
            |shot: ProjectileView| synced_shot(shot),
        ),
{
    let ghost roster = players@;
    let ghost shots = shot_views(projectiles@);
    let mut updates: Vec<(Uuid, CompUpdateKind)> = Vec::new();
    let ghost has_moved = |player: PlayerRecord| moved(player);
    let ghost as_update = |player: PlayerRecord|
        (player.id, position_update(player.synced_position, player.position)->0);
    let mut i: usize = 0;
    assert(roster.subrange(0, 0) =~= Seq::<PlayerRecord>::empty());
    assert(updates@ =~= roster.subrange(0, 0).filter(has_moved).map_values(as_update));
    while i < players.len()
        invariant
            i <= players.len(),
            players@ == roster,
            has_moved == |player: PlayerRecord| moved(player),
            as_update == |player: PlayerRecord|
                (player.id, position_update(player.synced_position, player.position)->0),
            updates@ == roster.subrange(0, i as int).filter(has_moved).map_values(as_update),
        decreases players.len() - i,
    {
        proof {
            let seen = roster.subrange(0, i as int);
            assert(roster.subrange(0, i + 1) =~= seen.push(roster[i as int]));
            lemma_filter_push(seen, roster[i as int], has_moved);
            assert(seen.filter(has_moved).push(roster[i as int]).map_values(as_update)
                =~= seen.filter(has_moved).map_values(as_update).push(as_update(roster[i as int])));
        }
        match diff_position(players[i].synced_position, players[i].position) {
            Some(update) => {
                updates.push((players[i].id, update));
            },
            None => {},
        }
        i = i + 1;
    }
    assert(roster.subrange(0, i as int) =~= roster);
    let ghost positions = updates@;

    let ghost shot_has_moved = |shot: ProjectileView| shot_moved(shot);
    let ghost shot_update = |shot: ProjectileView|
        (shot.id, position_update(shot.synced_position, Some(shot.position))->0);
    let mut j: usize = 0;
    assert(shots.subrange(0, 0) =~= Seq::<ProjectileView>::empty());
    assert(updates@ =~= positions + shots.subrange(0, 0).filter(shot_has_moved).map_values(
        shot_update,
    ));
    while j < projectiles.len()
        invariant
            j <= projectiles.len(),
            projectiles@.len() == shots.len(),
            shot_has_moved == |shot: ProjectileView| shot_moved(shot),
            shot_update == |shot: ProjectileView|
                (shot.id, position_update(shot.synced_position, Some(shot.position))->0),
            forall|k: int| 0 <= k < j ==> (#[trigger] projectiles@[k])@ == synced_shot(shots[k]),
            forall|k: int| j <= k < shots.len() ==> (#[trigger] projectiles@[k])@ == shots[k],
            updates@ == positions + shots.subrange(0, j as int).filter(shot_has_moved).map_values(
                shot_update,
            ),
        decreases projectiles.len() - j,
    {
        proof {
            let seen = shots.subrange(0, j as int);
            assert(shots.subrange(0, j + 1) =~= seen.push(shots[j as int]));
            lemma_filter_push(seen, shots[j as int], shot_has_moved);
            assert(seen.filter(shot_has_moved).push(shots[j as int]).map_values(shot_update)
                =~= seen.filter(shot_has_moved).map_values(shot_update).push(
                shot_update(shots[j as int]),
            ));
        }
        let now = projectiles[j].position;
        match diff_position(projectiles[j].synced_position, Some(now)) {
            Some(update) => {
                updates.push((projectiles[j].id, update));
            },
            None => {},
        }
        projectiles[j].synced_position = Some(now);
        j = j + 1;
    }
    assert(shots.subrange(0, j as int) =~= shots);
    assert(shot_views(projectiles@) =~= shots.map_values(|shot: ProjectileView| synced_shot(shot)));
    let ghost moves = updates@;

    let ghost is_new = |player: PlayerRecord| !player.synced_player;
    let ghost as_mark = |player: PlayerRecord|
        (player.id, CompUpdateKind::Inserted(EcsCompPacket::Player(Player)));
    let mut k: usize = 0;
    assert(updates@ =~= moves + roster.subrange(0, 0).filter(is_new).map_values(as_mark));
    while k < players.len()
        invariant
            k <= players.len(),
            players@.len() == roster.len(),
            is_new == |player: PlayerRecord| !player.synced_player,
            as_mark == |player: PlayerRecord|
                (player.id, CompUpdateKind::Inserted(EcsCompPacket::Player(Player))),
            forall|n: int| 0 <= n < k ==> players@[n] == synced(roster[n]),
            forall|n: int| k <= n < roster.len() ==> players@[n] == roster[n],
            updates@ == moves + roster.subrange(0, k as int).filter(is_new).map_values(as_mark),
        decreases players.len() - k,
    {
        proof {
            let seen = roster.subrange(0, k as int);
            assert(roster.subrange(0, k + 1) =~= seen.push(roster[k as int]));
            lemma_filter_push(seen, roster[k as int], is_new);
            assert(seen.filter(is_new).push(roster[k as int]).map_values(as_mark) =~= seen.filter(
                is_new,
            ).map_values(as_mark).push(as_mark(roster[k as int])));
        }
        if !players[k].synced_player {
            updates.push((players[k].id, CompUpdateKind::Inserted(EcsCompPacket::Player(Player))));
        }
        players[k].synced_position = players[k].position;
        players[k].synced_player = true;
        k = k + 1;
    }
    assert(roster.subrange(0, k as int) =~= roster);
    assert(players@ =~= roster.map_values(|player: PlayerRecord| synced(player)));
    CompSyncPackage { comp_updates: updates }
}

/// The message that tells every client of the new player `id`.
pub open spec fn spawn_entity_pack(id: Uuid) -> ServerPacket {
    Pack { msg: ServerMessage::Spawn(SpawnEvent::Entity(id)), dest: Dest::All }
}

/// The message that tells every client that the player `id` is gone.
pub open spec fn despawn_entity_pack(id: Uuid) -> ServerPacket {
    Pack { msg: ServerMessage::Despawn(id), dest: Dest::All }
}

/// The message that tells every client of one component change.
pub open spec fn component_sync_pack(update: (Uuid, CompUpdateKind)) -> ServerPacket {
    Pack {
        msg: ServerMessage::ComponentSync(ComponentSyncMessage(update.0, update.1)),
        dest: Dest::All,
    }
}

/// Queues a spawn message for each of `ids`, in order.
pub fn spawn_sync_system(packets: &mut Vec<ServerPacket>, ids: &Vec<Uuid>)
    ensures
        final(packets)@ == old(packets)@ + ids@.map_values(|id: Uuid| spawn_entity_pack(id)),
{
    let ghost outbox = packets@;
    let mut i: usize = 0;
    assert(packets@ =~= outbox + ids@.subrange(0, 0).map_values(|id: Uuid| spawn_entity_pack(id)));
    while i < ids.len()
        invariant
            i <= ids.len(),
            packets@ == outbox + ids@.subrange(0, i as int).map_values(
                |id: Uuid| spawn_entity_pack(id),
            ),
        decreases ids.len() - i,
    {
        packets.push(Pack::all(ServerMessage::Spawn(SpawnEvent::Entity(ids[i]))));
        assert(packets@ =~= outbox + ids@.subrange(0, i + 1).map_values(
            |id: Uuid| spawn_entity_pack(id),
        ));
        i = i + 1;
    }
    assert(ids@.subrange(0, i as int) =~= ids@);
}

/// Queues a despawn message for each of `ids`, in order.
pub fn despawn_sync_system(packets: &mut Vec<ServerPacket>, ids: &Vec<Uuid>)
    ensures
        final(packets)@ == old(packets)@ + ids@.map_values(|id: Uuid| despawn_entity_pack(id)),
{
    let ghost outbox = packets@;
    let mut i: usize = 0;
    assert(packets@ =~= outbox + ids@.subrange(0, 0).map_values(
        |id: Uuid| despawn_entity_pack(id),
    ));
    while i < ids.len()
        invariant
            i <= ids.len(),
            packets@ == outbox + ids@.subrange(0, i as int).map_values(
                |id: Uuid| despawn_entity_pack(id),
            ),
        decreases ids.len() - i,
    {
        packets.push(Pack::all(ServerMessage::Despawn(ids[i])));
        assert(packets@ =~= outbox + ids@.subrange(0, i + 1).map_values(
            |id: Uuid| despawn_entity_pack(id),
        ));
        i = i + 1;
    }
    assert(ids@.subrange(0, i as int) =~= ids@);
}

/// Queues a message for each component change of `package`, in order.
pub fn send_changes(packets: &mut Vec<ServerPacket>, package: &CompSyncPackage)
    ensures
        final(packets)@ == old(packets)@ + package.comp_updates@.map_values(
            |update: (Uuid, CompUpdateKind)| component_sync_pack(update),
        ),
{
    let ghost outbox = packets@;
    let ghost updates = package.comp_updates@;
    let mut i: usize = 0;
    assert(packets@ =~= outbox + updates.subrange(0, 0).map_values(
        |update: (Uuid, CompUpdateKind)| component_sync_pack(update),
    ));
    while i < package.comp_updates.len()
        invariant
            i <= package.comp_updates.len(),
            updates == package.comp_updates@,
            packets@ == outbox + updates.subrange(0, i as int).map_values(
                |update: (Uuid, CompUpdateKind)| component_sync_pack(update),
            ),
        decreases package.comp_updates.len() - i,
    {
        let update = package.comp_updates[i];
        packets.push(
            Pack::all(ServerMessage::ComponentSync(ComponentSyncMessage(update.0, update.1))),
        );
        assert(packets@ =~= outbox + updates.subrange(0, i + 1).map_values(
            |update: (Uuid, CompUpdateKind)| component_sync_pack(update),
        ));
        i = i + 1;
    }
    assert(updates.subrange(0, i as int) =~= updates);
}

impl Server {
    /// What `sync_system` does to the session `before`: every client is
    /// told of the players that joined, then of the players that left,
    /// then of every synchronised component that is not what clients last
    /// knew; nothing waits to be told, and what clients know is up to
    /// date.
    pub open(crate) spec fn sync_result(self, before: Server) -> bool {
        &&& self == Server {
            players: self.players,
            projectiles: self.projectiles,
            ledger: self.ledger,
            packets: self.packets,
            ..before
        }
        &&& self.roster() == before.roster().map_values(|player: PlayerRecord| synced(player))
        &&& self.shots() == before.shots().map_values(|shot: ProjectileView| synced_shot(shot))
        &&& self.pending().spawned().len() == 0
        &&& self.pending().despawned().len() == 0
        &&& self.outbox() == before.outbox() + before.pending().spawned().map_values(
            |id: Uuid| spawn_entity_pack(id),
        ) + before.pending().despawned().map_values(|id: Uuid| despawn_entity_pack(id))
            + changes(before.roster(), before.shots()).map_values(
            |update: (Uuid, CompUpdateKind)| component_sync_pack(update),
        )
    }

    /// Tells the clients what has changed since they were last told.
    pub fn sync_system(&mut self)
        requires
            old(self).wf(),
        ensures
            final(self).wf(),
            final(self).sync_result(*old(self)),
    {
        spawn_sync_system(&mut self.packets, &self.ledger.spawned);
        self.ledger.spawned.clear();
        despawn_sync_system(&mut self.packets, &self.ledger.despawned.ids);
        self.ledger.despawned.clear();
        let package = broadcast_changes_system(&mut self.players, &mut self.projectiles);
        send_changes(&mut self.packets, &package);
        proof {
            let before = *old(self);
            lemma_same_people(before.roster(), self.roster());
            lemma_same_readiness(before.roster(), self.roster());
            assert(shot_ids(self.shots()) =~= shot_ids(before.shots()));
        }
    }
}

} // verus!
