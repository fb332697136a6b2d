use wizardwars::battle::{ActionOutcome, BattleError};
use wizardwars::client_messages::{ActionMessage, ClientMessage, LobbyClientMessage};
use wizardwars::components::{Client, Player, Position, ReadyState, Uuid, Vec3};
use wizardwars::connections::ServerEvent;
use wizardwars::ecs_message::{CompUpdateKind, EcsCompPacket, EcsCompPacketPhantom, Replica};
use wizardwars::events::{ClientEvent, SpawnEvent};
use wizardwars::loading::LoadCompleteEvent;
use wizardwars::server::{Server, ServerConfig};
use wizardwars::server_messages::{
    LoadingServerMessage, LobbyServerMessage, ServerMessage, ShoppingServerMessage, TimerInfo,
};
use wizardwars::states::{BattleState, ServerState};
use wizardwars::sync::diff_position;

const PACE: u64 = 16_000_000;

fn started_battle() -> Server {
    let mut server = Server::new(ServerConfig {
        shopping_seconds: 0,
        preparation_seconds: 0,
        total_rounds: 2,
        knockback_force: 100.0f32.to_bits(),
    });
    server.update(PACE);
    server.join(Client(1), "ann".to_string()).unwrap();
    server.join(Client(2), "bob".to_string()).unwrap();
    server.join(Client(3), "cid".to_string()).unwrap();
    for client in 1..=3 {
        server
            .change_ready_state(Client(client), ReadyState::Ready)
            .unwrap();
    }
    let points = vec![Vec3::new(1, 0, 0), Vec3::new(2, 0, 0), Vec3::new(3, 0, 0)];
    server.start_game(Client(1), points).unwrap();
    for client in 1..=3 {
        server.handle_loading_event(LoadCompleteEvent { client: Client(client) });
    }
    server.update(PACE);
    server.update(PACE);
    server.update(PACE);
    assert_eq!(server.battle_state(), BattleState::Battle);
    server
}

#[test]
fn server_messages_are_made_from_their_parts() {
    assert_eq!(
        ServerMessage::from(LobbyServerMessage::StartLoading),
        ServerMessage::Lobby(LobbyServerMessage::StartLoading)
    );
    assert_eq!(
        ServerMessage::from(LoadingServerMessage::PlayerLoaded(Uuid(3))),
        ServerMessage::Loading(LoadingServerMessage::PlayerLoaded(Uuid(3)))
    );
    let info = TimerInfo { duration: 5, elapsed: 2 };
    assert_eq!(
        ServerMessage::from(ShoppingServerMessage::Timer(info)),
        ServerMessage::Shopping(ShoppingServerMessage::Timer(info))
    );
    assert_eq!(
        ServerMessage::from(SpawnEvent::Projectile(Uuid(8))),
        ServerMessage::Spawn(SpawnEvent::Projectile(Uuid(8)))
    );
}

#[test]
fn component_packets_are_made_from_components() {
    let position = Position(Vec3::new(1, 2, 3));
    assert_eq!(EcsCompPacket::from(position), EcsCompPacket::Position(position));
    assert_eq!(EcsCompPacket::from(Player), EcsCompPacket::Player(Player));
}

#[test]
fn replica_carries_out_what_it_is_told() {
    let first = Position(Vec3::new(1, 0, 0));
    let second = Position(Vec3::new(2, 0, 0));
    let mut replica = Replica::default();
    assert_eq!(replica, Replica { position: None, player: None });

    EcsCompPacket::Player(Player).apply_insert(&mut replica);
    EcsCompPacket::Position(first).apply_insert(&mut replica);
    assert_eq!(replica, Replica { position: Some(first), player: Some(Player) });

    EcsCompPacket::Position(second).apply_modify(&mut replica);
    assert_eq!(replica.position, Some(second));

    EcsCompPacket::apply_remove(EcsCompPacketPhantom::Position, &mut replica);
    assert_eq!(replica, Replica { position: None, player: Some(Player) });
    EcsCompPacket::apply_remove(EcsCompPacketPhantom::Player, &mut replica);
    assert_eq!(replica, Replica::default());
}

#[test]
fn replica_follows_the_differences() {
    let places = [
        None,
        Some(Position(Vec3::new(1, 0, 0))),
        Some(Position(Vec3::new(1, 0, 0))),
        Some(Position(Vec3::new(5, 0, 5))),
        None,
    ];
    let mut replica = Replica::default();
    for now in places.iter() {
        if let Some(update) = diff_position(replica.position, *now) {
            update.apply(&mut replica);
        }
        assert_eq!(replica.position, *now);
    }
}

#[test]
fn updates_are_carried_out_by_kind() {
    let place = Position(Vec3::new(4, 4, 4));
    let mut replica = Replica::default();
    CompUpdateKind::Inserted(EcsCompPacket::Position(place)).apply(&mut replica);
    assert_eq!(replica.position, Some(place));
    CompUpdateKind::Removed(EcsCompPacketPhantom::Position).apply(&mut replica);
    assert_eq!(replica.position, None);
    CompUpdateKind::Modified(EcsCompPacket::Player(Player)).apply(&mut replica);
    assert_eq!(replica.player, Some(Player));
}

#[test]
fn messages_become_events() {
    let mut server = Server::new(ServerConfig {
        shopping_seconds: 0,
        preparation_seconds: 0,
        total_rounds: 2,
        knockback_force: 0,
    });
    server.update(PACE);
    assert_eq!(
        server.route(Client(4), ClientMessage::Loaded),
        Some(ServerEvent::Loading(LoadCompleteEvent { client: Client(4) }))
    );
    let fire = ActionMessage::FireBall(Vec3::new(1, 1, 1));
    assert_eq!(
        server.route(Client(4), ClientMessage::Action(fire)),
        Some(ServerEvent::Action(ClientEvent::new(Client(4), fire)))
    );
    let join = LobbyClientMessage::Join("ann".to_string());
    assert_eq!(
        server.route(Client(4), ClientMessage::LobbyMessage(join.clone())),
        Some(ServerEvent::Lobby(ClientEvent::new(Client(4), join)))
    );
    assert_eq!(
        server.route(
            Client(4),
            ClientMessage::LobbyMessage(LobbyClientMessage::AddBot)
        ),
        None
    );
}

#[test]
fn actions_are_handed_on() {
    let mut server = started_battle();
    let origin = Vec3::new(0, 0.5f32.to_bits(), 0);
    let target = Vec3::new(7, 0, 7);

    let walk = ClientEvent::new(Client(2), ActionMessage::Move { target });
    assert_eq!(
        server.handle_action_event(walk, origin),
        ActionOutcome::Moved(true)
    );
    assert!(server.players()[1].waypoint.is_some());

    let lost = ClientEvent::new(Client(9), ActionMessage::Move { target });
    assert_eq!(
        server.handle_action_event(lost, origin),
        ActionOutcome::Moved(false)
    );

    let fire = ClientEvent::new(Client(2), ActionMessage::FireBall(target));
    assert_eq!(
        server.handle_action_event(fire, origin),
        ActionOutcome::Fired(Ok(Uuid(3)))
    );
    assert_eq!(server.players()[1].waypoint, None);
    assert_eq!(server.projectiles()[0].position, Position(origin));

    let stranger = ClientEvent::new(Client(9), ActionMessage::FireBall(target));
    assert_eq!(
        server.handle_action_event(stranger, origin),
        ActionOutcome::Fired(Err(BattleError::UnknownClient))
    );

    let strike = ClientEvent::new(Client(2), ActionMessage::Attack { target: Uuid(0) });
    assert_eq!(
        server.handle_action_event(strike, origin),
        ActionOutcome::Ignored
    );
    assert_eq!(server.projectiles().len(), 1);
}

#[test]
fn player_dies_in_the_tick_that_takes_its_last_health() {
    let mut server = started_battle();
    let origin = Vec3::new(0, 0, 0);
    let shot = server.handle_attack_event(Client(1), origin).unwrap();
    server.fireball_collision_system(shot, Some(Uuid(2)));
    server.update(PACE);
    assert_eq!(server.players()[2].health.unwrap().current(), 10);
    assert!(!server.players()[2].dead);

    let shot = server.handle_attack_event(Client(1), origin).unwrap();
    server.fireball_collision_system(shot, Some(Uuid(2)));
    assert!(!server.players()[2].dead);
    assert_eq!(server.update(PACE), None);
    assert_eq!(server.players()[2].health.unwrap().current(), 0);
    assert!(server.players()[2].dead);
    assert!(server.players().iter().all(|player| !player.winner));
    assert_eq!(server.state(), ServerState::Battle);
}

#[test]
fn last_player_standing_wins_the_round() {
    let mut server = started_battle();
    let origin = Vec3::new(0, 0, 0);
    for victim in [Uuid(1), Uuid(2)] {
        for _ in 0..2 {
            assert_eq!(server.state(), ServerState::Battle);
            let shot = server.handle_attack_event(Client(1), origin).unwrap();
            server.fireball_collision_system(shot, Some(victim));
            let over = server.update(PACE);
            if let Some(result) = over {
                assert_eq!(result.winner, Uuid(0));
                assert_eq!(result.next, ServerState::Shopping);
            }
        }
    }
    assert_eq!(server.state(), ServerState::Shopping);
    assert_eq!(server.arena().as_ref().unwrap().current_round(), 2);
}

#[test]
fn leaving_player_is_told_as_despawned() {
    let mut server = started_battle();
    server.sync_system();
    server.take_packets();
    server.handle_network_event(wizardwars::connections::NetworkEvent::Disconnected(Client(3)));
    assert_eq!(server.players().len(), 2);
    server.sync_system();
    assert_eq!(
        server.packets(),
        &vec![wizardwars::network::Pack::all(ServerMessage::Despawn(Uuid(2)))]
    );
}
