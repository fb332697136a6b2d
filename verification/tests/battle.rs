use wizardwars::battle::{
    apply_damage_system, bot_waypoint_system, check_winner_system, cleanup_system,
    count_survivors, find_winner, handle_health_system, setup_players, BattleError, Impact,
    FIREBALL_DAMAGE, PLAYER_HEALTH,
};
use wizardwars::components::{Client, Position, ReadyState, Uuid, Vec3, Waypoint};
use wizardwars::damage::{Attack, Damage};
use wizardwars::events::{InsertPlayerEvent, SpawnEvent};
use wizardwars::health::Health;
use wizardwars::loading::LoadCompleteEvent;
use wizardwars::network::Pack;
use wizardwars::server::{PlayerRecord, Server, ServerConfig, ServerPacket};
use wizardwars::server_messages::ServerMessage;
use wizardwars::states::{BattleState, ServerState};
use wizardwars::timer::NANOS_PER_SECOND;

const STEP: u64 = 16_000_000;

fn fighter(id: u32, client: Option<u32>) -> PlayerRecord {
    PlayerRecord {
        id: Uuid(id),
        name: format!("p{}", id),
        ready_state: ReadyState::Ready,
        bot: client.is_none(),
        client: client.map(Client),
        loading: false,
        position: Some(Position(Vec3::new(id, 0, 0))),
        health: Some(Health::new(20)),
        damage: None,
        waypoint: None,
        dead: false,
        winner: false,
        synced_position: None,
        synced_player: false,
    }
}

fn point(x: f32, z: f32) -> Vec3 {
    Vec3::new(x.to_bits(), 0, z.to_bits())
}

fn force() -> u32 {
    100.0f32.to_bits()
}

fn battle_of(humans: u32, bots: u32) -> Server {
    let mut server = Server::new(ServerConfig {
        shopping_seconds: 0,
        preparation_seconds: 0,
        total_rounds: 3,
        knockback_force: force(),
    });
    server.update(STEP);
    for n in 0..humans {
        server.join(Client(n + 1), format!("p{}", n)).unwrap();
        server
            .change_ready_state(Client(n + 1), ReadyState::Ready)
            .unwrap();
    }
    for _ in 0..bots {
        server.add_bot().unwrap();
    }
    let count = humans + bots;
    let points: Vec<Vec3> = (0..count).map(|n| point(n as f32, 1.0)).collect();
    server.start_game(Client(1), points).unwrap();
    for n in 0..humans {
        server.handle_loading_event(LoadCompleteEvent { client: Client(n + 1) });
    }
    server.update(STEP);
    server.update(STEP);
    server.update(STEP);
    assert_eq!(server.state(), ServerState::Battle);
    assert_eq!(server.battle_state(), BattleState::Battle);
    server.take_packets();
    server
}

fn despawn(id: u32) -> ServerPacket {
    Pack::all(ServerMessage::Despawn(Uuid(id)))
}

#[test]
fn players_are_put_at_the_spawn_points() {
    let mut players = vec![fighter(0, Some(10)), fighter(1, None), fighter(2, Some(30))];
    for player in players.iter_mut() {
        player.position = None;
        player.health = None;
    }
    let points = vec![point(1.0, 0.0), point(0.0, 1.0)];
    let mut packets: Vec<ServerPacket> = Vec::new();
    setup_players(&mut players, &points, &mut packets);

    assert_eq!(players[0].position, Some(Position(points[0])));
    assert_eq!(players[1].position, Some(Position(points[1])));
    assert_eq!(players[2].position, None);
    assert_eq!(players[0].health.unwrap().current(), PLAYER_HEALTH);
    assert_eq!(players[0].health.unwrap().maximum(), 20);
    assert_eq!(players[1].health.unwrap().current(), 20);
    assert_eq!(players[2].health, None);

    let shown = |id: u32, at: usize, is_local: bool| {
        ServerMessage::InsertPlayer(InsertPlayerEvent {
            id: Uuid(id),
            position: points[at],
            is_local,
            color: at,
        })
    };
    let expected = vec![
        Pack::except(shown(0, 0, false), Client(10)),
        Pack::single(shown(0, 0, true), Client(10)),
        Pack::all(shown(1, 1, false)),
    ];
    assert_eq!(packets, expected);
}

#[test]
fn battle_starts_with_everyone_in_place() {
    let server = battle_of(2, 1);
    for (n, player) in server.players().iter().enumerate() {
        assert_eq!(player.position, Some(Position(point(n as f32, 1.0))));
        assert_eq!(player.health.unwrap().current(), 20);
        assert!(!player.dead);
    }
}

#[test]
fn queued_damage_is_applied_once() {
    let mut players = vec![fighter(0, Some(1))];
    players[0].damage = Some(Damage::new(10));

    apply_damage_system(&mut players);
    assert_eq!(players[0].health.unwrap().current(), 10);
    assert_eq!(players[0].health.unwrap().maximum(), 20);
    assert_eq!(players[0].damage, None);

    apply_damage_system(&mut players);
    apply_damage_system(&mut players);
    assert_eq!(players[0].health.unwrap().current(), 10);
    assert_eq!(players[0].health.unwrap().maximum(), 20);
}

#[test]
fn damage_stops_at_zero() {
    let mut players = vec![fighter(0, Some(1)), fighter(1, Some(2))];
    players[0].damage = Some(Damage::new(25));
    players[1].damage = Some(Damage::new(u32::MAX));
    apply_damage_system(&mut players);
    assert_eq!(players[0].health.unwrap().current(), 0);
    assert_eq!(players[1].health.unwrap().current(), 0);
    assert_eq!(players[1].health.unwrap().maximum(), 20);
}

#[test]
fn damage_without_health_waits() {
    let mut players = vec![fighter(0, Some(1))];
    players[0].health = None;
    players[0].damage = Some(Damage::new(5));
    apply_damage_system(&mut players);
    assert_eq!(players[0].health, None);
    assert_eq!(players[0].damage, Some(Damage::new(5)));
}

#[test]
fn players_without_health_left_die() {
    let mut players = vec![fighter(0, Some(1)), fighter(1, Some(2)), fighter(2, None)];
    players[1].damage = Some(Damage::new(20));
    players[2].health = None;
    apply_damage_system(&mut players);
    handle_health_system(&mut players);
    assert!(!players[0].dead);
    assert!(players[1].dead);
    assert!(!players[2].dead);

    handle_health_system(&mut players);
    assert!(players[1].dead);
}

#[test]
fn the_only_survivor_wins() {
    let mut players = vec![fighter(0, Some(1)), fighter(1, Some(2)), fighter(2, None)];
    check_winner_system(&mut players);
    assert_eq!(count_survivors(&players), 3);
    assert_eq!(find_winner(&players), None);

    players[0].dead = true;
    players[2].dead = true;
    assert_eq!(count_survivors(&players), 1);
    check_winner_system(&mut players);
    assert!(!players[0].winner);
    assert!(players[1].winner);
    assert!(!players[2].winner);
    assert_eq!(find_winner(&players), Some(Uuid(1)));
    assert_eq!(players.iter().filter(|player| player.winner).count(), 1);
}

#[test]
fn nobody_wins_when_nobody_survives() {
    let mut players = vec![fighter(0, Some(1)), fighter(1, Some(2))];
    players[0].dead = true;
    players[1].dead = true;
    check_winner_system(&mut players);
    assert_eq!(find_winner(&players), None);
}

#[test]
fn cleanup_takes_position_death_and_victory() {
    let mut players = vec![fighter(0, Some(1)), fighter(1, Some(2))];
    players[0].dead = true;
    players[1].winner = true;
    players[1].waypoint = Some(Waypoint(point(3.0, 3.0)));
    cleanup_system(&mut players);
    for player in players.iter() {
        assert_eq!(player.position, None);
        assert!(!player.dead);
        assert!(!player.winner);
        assert_eq!(player.health.unwrap().current(), 20);
    }
    assert_eq!(players[1].waypoint, Some(Waypoint(point(3.0, 3.0))));
}

#[test]
fn bots_take_the_targets_in_turn() {
    let mut players = vec![
        fighter(0, Some(1)),
        fighter(1, None),
        fighter(2, None),
        fighter(3, None),
        fighter(4, None),
    ];
    players[2].waypoint = Some(Waypoint(point(9.0, 9.0)));
    let targets = vec![point(1.0, 1.0), point(2.0, 2.0)];
    bot_waypoint_system(&mut players, &targets);
    assert_eq!(players[0].waypoint, None);
    assert_eq!(players[1].waypoint, Some(Waypoint(targets[0])));
    assert_eq!(players[2].waypoint, Some(Waypoint(point(9.0, 9.0))));
    assert_eq!(players[3].waypoint, Some(Waypoint(targets[1])));
    assert_eq!(players[4].waypoint, None);
}

#[test]
fn bots_are_sent_only_while_the_battle_is_on() {
    let mut server = battle_of(1, 1);
    let targets = vec![point(4.0, 4.0)];
    server.send_bots(&targets);
    assert_eq!(server.players()[1].waypoint, Some(Waypoint(targets[0])));
    assert_eq!(server.players()[0].waypoint, None);
    assert!(server.clear_waypoint(Uuid(1)));
    assert_eq!(server.players()[1].waypoint, None);
    assert!(!server.clear_waypoint(Uuid(9)));

    let mut lobby = Server::new(ServerConfig {
        shopping_seconds: 0,
        preparation_seconds: 0,
        total_rounds: 3,
        knockback_force: force(),
    });
    lobby.update(STEP);
    lobby.add_bot().unwrap();
    lobby.send_bots(&targets);
    assert_eq!(lobby.players()[0].waypoint, None);
}

#[test]
fn move_sets_the_waypoint() {
    let mut server = battle_of(2, 0);
    assert!(server.handle_move_event(Client(2), point(3.0, 4.0)));
    assert_eq!(server.players()[1].waypoint, Some(Waypoint(point(3.0, 4.0))));
    assert!(server.handle_move_event(Client(2), point(5.0, 6.0)));
    assert_eq!(server.players()[1].waypoint, Some(Waypoint(point(5.0, 6.0))));
    assert!(!server.handle_move_event(Client(9), point(5.0, 6.0)));
    assert_eq!(server.players()[0].waypoint, None);
}

#[test]
fn fire_ball_is_spawned_and_announced() {
    let mut server = battle_of(2, 0);
    server.handle_move_event(Client(1), point(3.0, 4.0));
    let origin = Vec3::new(0, 0.5f32.to_bits(), 0);
    assert_eq!(server.handle_attack_event(Client(1), origin), Ok(Uuid(2)));

    assert_eq!(server.players()[0].waypoint, None);
    assert_eq!(server.projectiles().len(), 1);
    let shot = &server.projectiles()[0];
    assert_eq!(shot.id, Uuid(2));
    assert_eq!(shot.position, Position(origin));
    assert_eq!(shot.owner.entity(), Uuid(0));
    assert_eq!(shot.fire_ball.attack, Attack::new(FIREBALL_DAMAGE, force()));
    assert_eq!(shot.fire_ball.attack.damage().amount(), 10);
    assert_eq!(shot.life_time.timer.duration(), 5 * NANOS_PER_SECOND);
    assert_eq!(shot.life_time.timer.elapsed(), 0);
    assert_eq!(
        server.packets(),
        &vec![Pack::all(ServerMessage::Spawn(SpawnEvent::Projectile(Uuid(2))))]
    );
}

#[test]
fn fire_ball_needs_a_living_known_attacker() {
    let mut server = battle_of(3, 0);
    let origin = Vec3::new(0, 0, 0);
    assert_eq!(
        server.handle_attack_event(Client(9), origin),
        Err(BattleError::UnknownClient)
    );
    for _ in 0..2 {
        let shot = server.handle_attack_event(Client(1), origin).unwrap();
        server.fireball_collision_system(shot, Some(Uuid(2)));
        server.update(STEP);
    }
    assert!(server.players()[2].dead);
    server.take_packets();
    assert_eq!(
        server.handle_attack_event(Client(3), origin),
        Err(BattleError::Down)
    );
    assert!(server.projectiles().is_empty());
    assert!(server.packets().is_empty());
}

#[test]
fn fire_ball_outside_the_fight_is_refused() {
    let mut server = Server::new(ServerConfig {
        shopping_seconds: 0,
        preparation_seconds: 0,
        total_rounds: 3,
        knockback_force: force(),
    });
    server.update(STEP);
    server.join(Client(1), "ann".to_string()).unwrap();
    server.take_packets();
    assert_eq!(
        server.handle_attack_event(Client(1), Vec3::new(0, 0, 0)),
        Err(BattleError::NotInBattle)
    );
    assert!(!server.handle_move_event(Client(1), Vec3::new(0, 0, 0)));
    assert!(server.packets().is_empty());
}

#[test]
fn hit_queues_damage_and_ends_the_fire_ball() {
    let mut server = battle_of(2, 0);
    let shot = server.handle_attack_event(Client(1), Vec3::new(0, 0, 0)).unwrap();
    server.take_packets();

    let impact = server.fireball_collision_system(shot, Some(Uuid(1)));
    assert_eq!(
        impact,
        Some(Impact {
            attack: Attack::new(10, force()),
            damaged: Some(Uuid(1)),
        })
    );
    assert_eq!(server.players()[1].damage, Some(Damage::new(10)));
    assert_eq!(server.players()[1].health.unwrap().current(), 20);
    assert!(server.projectiles().is_empty());
    assert_eq!(server.packets(), &vec![despawn(shot.0)]);

    server.update(STEP);
    assert_eq!(server.players()[1].health.unwrap().current(), 10);
    assert_eq!(server.players()[1].health.unwrap().maximum(), 20);
    assert_eq!(server.players()[1].damage, None);
    server.update(STEP);
    assert_eq!(server.players()[1].health.unwrap().current(), 10);
}

#[test]
fn fire_ball_passes_its_owner() {
    let mut server = battle_of(2, 0);
    let shot = server.handle_attack_event(Client(1), Vec3::new(0, 0, 0)).unwrap();
    server.take_packets();
    assert_eq!(server.fireball_collision_system(shot, Some(Uuid(0))), None);
    assert_eq!(server.projectiles().len(), 1);
    assert_eq!(server.players()[0].damage, None);
    assert!(server.packets().is_empty());
}

#[test]
fn fire_ball_ends_on_what_is_no_player() {
    let mut server = battle_of(2, 0);
    let shot = server.handle_attack_event(Client(1), Vec3::new(0, 0, 0)).unwrap();
    let other = server.handle_attack_event(Client(2), Vec3::new(0, 0, 0)).unwrap();
    server.take_packets();
    assert_eq!(
        server.fireball_collision_system(shot, None),
        Some(Impact {
            attack: Attack::new(10, force()),
            damaged: None,
        })
    );
    assert_eq!(
        server.fireball_collision_system(other, Some(Uuid(77))),
        Some(Impact {
            attack: Attack::new(10, force()),
            damaged: None,
        })
    );
    assert!(server.projectiles().is_empty());
    assert_eq!(server.packets(), &vec![despawn(shot.0), despawn(other.0)]);
}

#[test]
fn fire_ball_that_is_gone_does_nothing() {
    let mut server = battle_of(2, 0);
    let shot = server.handle_attack_event(Client(1), Vec3::new(0, 0, 0)).unwrap();
    assert!(server.fireball_collision_system(shot, Some(Uuid(1))).is_some());
    server.take_packets();
    assert_eq!(server.fireball_collision_system(shot, Some(Uuid(1))), None);
    server.track_lifetime_system(6 * NANOS_PER_SECOND);
    assert!(server.packets().is_empty());
    assert_eq!(server.fireball_collision_system(Uuid(99), Some(Uuid(1))), None);
}

#[test]
fn fire_ball_expires_after_five_seconds() {
    let mut server = battle_of(2, 0);
    let first = server.handle_attack_event(Client(1), Vec3::new(0, 0, 0)).unwrap();
    server.take_packets();
    server.track_lifetime_system(2 * NANOS_PER_SECOND);
    let second = server.handle_attack_event(Client(2), Vec3::new(0, 0, 0)).unwrap();
    server.take_packets();

    server.track_lifetime_system(3 * NANOS_PER_SECOND - 1);
    assert_eq!(server.projectiles().len(), 2);
    assert!(server.packets().is_empty());

    server.track_lifetime_system(1);
    assert_eq!(server.projectiles().len(), 1);
    assert_eq!(server.projectiles()[0].id, second);
    assert_eq!(server.packets(), &vec![despawn(first.0)]);

    server.take_packets();
    server.track_lifetime_system(2 * NANOS_PER_SECOND);
    assert!(server.projectiles().is_empty());
    assert_eq!(server.packets(), &vec![despawn(second.0)]);

    server.take_packets();
    server.track_lifetime_system(10 * NANOS_PER_SECOND);
    assert_eq!(server.fireball_collision_system(first, Some(Uuid(1))), None);
    assert!(server.packets().is_empty());
}

#[test]
fn dead_players_are_not_hit() {
    let mut server = battle_of(3, 0);
    for _ in 0..2 {
        let shot = server.handle_attack_event(Client(1), Vec3::new(0, 0, 0)).unwrap();
        server.fireball_collision_system(shot, Some(Uuid(2)));
        assert_eq!(server.update(STEP), None);
    }
    assert!(server.players()[2].dead);
    assert_eq!(server.players()[2].health.unwrap().current(), 0);
    assert_eq!(server.state(), ServerState::Battle);

    let shot = server.handle_attack_event(Client(1), Vec3::new(0, 0, 0)).unwrap();
    server.take_packets();
    assert_eq!(server.fireball_collision_system(shot, Some(Uuid(2))), None);
    assert_eq!(server.projectiles().len(), 1);
    assert_eq!(server.players()[2].damage, None);
    assert!(server.packets().is_empty());
}

#[test]
fn round_end_clears_the_field() {
    let mut server = battle_of(2, 0);
    let stray = server.handle_attack_event(Client(2), Vec3::new(0, 0, 0)).unwrap();
    for _ in 0..2 {
        let shot = server.handle_attack_event(Client(1), Vec3::new(0, 0, 0)).unwrap();
        server.fireball_collision_system(shot, Some(Uuid(1)));
        server.take_packets();
        server.update(STEP);
    }
    assert_eq!(server.state(), ServerState::Shopping);
    assert_eq!(server.battle_state(), BattleState::Idle);
    assert!(server.projectiles().is_empty());
    assert_eq!(server.packets(), &vec![despawn(stray.0)]);
    for player in server.players().iter() {
        assert_eq!(player.position, None);
        assert!(!player.dead);
        assert!(!player.winner);
    }
    assert_eq!(server.arena().as_ref().unwrap().current_round(), 2);
    assert_eq!(server.check_switch_state_system(), None);
}

#[test]
fn positions_follow_the_physics() {
    let mut server = battle_of(2, 0);
    let shot = server.handle_attack_event(Client(1), Vec3::new(0, 0, 0)).unwrap();
    assert!(server.position_sync_system(Uuid(1), point(7.0, 8.0)));
    assert_eq!(server.players()[1].position, Some(Position(point(7.0, 8.0))));
    assert!(server.position_sync_system(shot, point(1.0, 2.0)));
    assert_eq!(server.projectiles()[0].position, Position(point(1.0, 2.0)));
    assert!(!server.position_sync_system(Uuid(50), point(1.0, 2.0)));
}
