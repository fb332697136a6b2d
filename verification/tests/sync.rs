use wizardwars::components::{Client, Player, Position, ReadyState, Uuid, Vec3};
use wizardwars::connections::NetworkEvent;
use wizardwars::ecs_message::{CompUpdateKind, EcsCompPacket, EcsCompPacketPhantom};
use wizardwars::events::SpawnEvent;
use wizardwars::loading::LoadCompleteEvent;
use wizardwars::network::{Dest, Pack};
use wizardwars::server::{PlayerRecord, Projectile, Server, ServerConfig, ServerPacket};
use wizardwars::server_messages::{ComponentSyncMessage, LobbyServerMessage, ServerMessage};
use wizardwars::states::BattleState;
use wizardwars::sync::{broadcast_changes_system, diff_position, snapshot, sync_world};

const FRAME: u64 = 16_000_000;

fn sync_config() -> ServerConfig {
    ServerConfig {
        shopping_seconds: 0,
        preparation_seconds: 0,
        total_rounds: 3,
        knockback_force: 100.0f32.to_bits(),
    }
}

fn at(x: f32, z: f32) -> Vec3 {
    Vec3::new(x.to_bits(), 0, z.to_bits())
}

fn record(id: u32, position: Option<Position>) -> PlayerRecord {
    PlayerRecord {
        id: Uuid(id),
        name: format!("p{}", id),
        ready_state: ReadyState::NotReady,
        bot: false,
        client: Some(Client(id + 100)),
        loading: false,
        position,
        health: None,
        damage: None,
        waypoint: None,
        dead: false,
        winner: false,
        synced_position: None,
        synced_player: false,
    }
}

fn component_sync(id: u32, update: CompUpdateKind) -> ServerPacket {
    Pack::all(ServerMessage::ComponentSync(ComponentSyncMessage(Uuid(id), update)))
}

fn fight() -> Server {
    let mut server = Server::new(sync_config());
    server.update(FRAME);
    server.join(Client(1), "ann".to_string()).unwrap();
    server.join(Client(2), "bob".to_string()).unwrap();
    server.change_ready_state(Client(1), ReadyState::Ready).unwrap();
    server.change_ready_state(Client(2), ReadyState::Ready).unwrap();
    server.start_game(Client(1), vec![at(1.0, 0.0), at(-1.0, 0.0)]).unwrap();
    server.handle_loading_event(LoadCompleteEvent { client: Client(1) });
    server.handle_loading_event(LoadCompleteEvent { client: Client(2) });
    server.update(FRAME);
    server.update(FRAME);
    server.update(FRAME);
    assert_eq!(server.battle_state(), BattleState::Battle);
    server
}

fn position_syncs_of(packets: &[ServerPacket], id: Uuid) -> Vec<CompUpdateKind> {
    let mut found = Vec::new();
    for pack in packets {
        if let ServerMessage::ComponentSync(ComponentSyncMessage(entity, update)) = &pack.msg {
            let about_position = matches!(
                update,
                CompUpdateKind::Inserted(EcsCompPacket::Position(_))
                    | CompUpdateKind::Modified(EcsCompPacket::Position(_))
                    | CompUpdateKind::Removed(EcsCompPacketPhantom::Position)
            );
            if *entity == id && about_position {
                found.push(*update);
            }
        }
    }
    found
}

#[test]
fn snapshot_holds_the_tracked_components() {
    let still = snapshot(&record(3, None));
    assert_eq!(still.uid, Uuid(3));
    assert_eq!(still.comps, vec![EcsCompPacket::Player(Player)]);

    let placed = snapshot(&record(4, Some(Position(at(1.0, 2.0)))));
    assert_eq!(placed.uid, Uuid(4));
    assert_eq!(
        placed.comps,
        vec![
            EcsCompPacket::Position(Position(at(1.0, 2.0))),
            EcsCompPacket::Player(Player)
        ]
    );
}

#[test]
fn world_is_shown_to_one_client() {
    let players = vec![record(0, None), record(1, Some(Position(at(1.0, 1.0))))];
    let mut packets: Vec<ServerPacket> = Vec::new();
    sync_world(&mut packets, &players, Client(9));
    assert_eq!(packets.len(), 2);
    for (n, pack) in packets.iter().enumerate() {
        assert_eq!(pack.dest, Dest::Single(Client(9)));
        match &pack.msg {
            ServerMessage::Lobby(LobbyServerMessage::WelcomeWorld(world)) => {
                assert_eq!(world.entity_package.uid, Uuid(n as u32));
                assert_eq!(world.entity_package.comps, snapshot(&players[n]).comps);
            }
            other => panic!("unexpected message {:?}", other),
        }
    }
}

#[test]
fn position_is_compared_with_what_clients_know() {
    let a = Position(at(1.0, 1.0));
    let b = Position(at(2.0, 2.0));
    assert_eq!(diff_position(None, None), None);
    assert_eq!(
        diff_position(None, Some(a)),
        Some(CompUpdateKind::Inserted(EcsCompPacket::Position(a)))
    );
    assert_eq!(
        diff_position(Some(a), Some(b)),
        Some(CompUpdateKind::Modified(EcsCompPacket::Position(b)))
    );
    assert_eq!(diff_position(Some(a), Some(a)), None);
    assert_eq!(
        diff_position(Some(a), None),
        Some(CompUpdateKind::Removed(EcsCompPacketPhantom::Position))
    );
}

#[test]
fn changes_are_collected_by_kind() {
    let mut players = vec![record(0, Some(Position(at(1.0, 0.0)))), record(1, None)];
    players[1].synced_player = true;
    let mut projectiles: Vec<Projectile> = Vec::new();
    let package = broadcast_changes_system(&mut players, &mut projectiles);
    assert_eq!(
        package.comp_updates,
        vec![
            (
                Uuid(0),
                CompUpdateKind::Inserted(EcsCompPacket::Position(Position(at(1.0, 0.0))))
            ),
            (Uuid(0), CompUpdateKind::Inserted(EcsCompPacket::Player(Player))),
        ]
    );
    assert_eq!(players[0].synced_position, Some(Position(at(1.0, 0.0))));
    assert!(players[0].synced_player);

    let again = broadcast_changes_system(&mut players, &mut projectiles);
    assert!(again.comp_updates.is_empty());
}

#[test]
fn joins_and_leaves_are_told_in_order() {
    let mut server = Server::new(sync_config());
    server.update(FRAME);
    server.join(Client(1), "ann".to_string()).unwrap();
    server.join(Client(2), "bob".to_string()).unwrap();
    server.handle_network_event(NetworkEvent::Disconnected(Client(2)));
    server.take_packets();

    server.sync_system();
    let expected = vec![
        Pack::all(ServerMessage::Spawn(SpawnEvent::Entity(Uuid(0)))),
        Pack::all(ServerMessage::Spawn(SpawnEvent::Entity(Uuid(1)))),
        Pack::all(ServerMessage::Despawn(Uuid(1))),
        component_sync(0, CompUpdateKind::Inserted(EcsCompPacket::Player(Player))),
    ];
    assert_eq!(server.packets(), &expected);

    server.take_packets();
    server.sync_system();
    assert!(server.packets().is_empty());
}

#[test]
fn position_moved_often_is_told_once() {
    let mut server = fight();
    server.sync_system();
    server.take_packets();

    for n in 0..5 {
        assert!(server.position_sync_system(Uuid(1), at(n as f32, 3.0)));
    }
    server.sync_system();
    assert_eq!(
        position_syncs_of(server.packets(), Uuid(1)),
        vec![CompUpdateKind::Modified(EcsCompPacket::Position(Position(
            at(4.0, 3.0)
        )))]
    );
    assert!(position_syncs_of(server.packets(), Uuid(0)).is_empty());
    assert_eq!(server.packets().len(), 1);
}

#[test]
fn position_moved_back_is_not_told() {
    let mut server = fight();
    server.sync_system();
    server.take_packets();
    let known = server.players()[0].position.unwrap().0;

    server.position_sync_system(Uuid(0), at(9.0, 9.0));
    server.position_sync_system(Uuid(0), known);
    server.sync_system();
    assert!(server.packets().is_empty());
}

#[test]
fn first_position_is_told_as_inserted() {
    let mut server = fight();
    server.take_packets();
    server.sync_system();
    assert_eq!(
        position_syncs_of(server.packets(), Uuid(0)),
        vec![CompUpdateKind::Inserted(EcsCompPacket::Position(Position(
            at(1.0, 0.0)
        )))]
    );
    assert_eq!(
        position_syncs_of(server.packets(), Uuid(1)),
        vec![CompUpdateKind::Inserted(EcsCompPacket::Position(Position(
            at(-1.0, 0.0)
        )))]
    );
}

#[test]
fn projectile_positions_are_told() {
    let mut server = fight();
    server.sync_system();
    let shot = server
        .handle_attack_event(Client(1), Vec3::new(0, 0.5f32.to_bits(), 0))
        .unwrap();
    server.take_packets();
    server.sync_system();
    assert_eq!(
        server.packets(),
        &vec![component_sync(
            shot.0,
            CompUpdateKind::Inserted(EcsCompPacket::Position(Position(Vec3::new(
                0,
                0.5f32.to_bits(),
                0
            ))))
        )]
    );

    server.take_packets();
    server.position_sync_system(shot, at(2.0, 2.0));
    server.position_sync_system(shot, at(3.0, 3.0));
    server.sync_system();
    assert_eq!(
        server.packets(),
        &vec![component_sync(
            shot.0,
            CompUpdateKind::Modified(EcsCompPacket::Position(Position(at(3.0, 3.0))))
        )]
    );
}
