use wizardwars::battle::RoundResult;
use wizardwars::components::{Client, ReadyState, Uuid, Vec3};
use wizardwars::loading::LoadCompleteEvent;
use wizardwars::network::Pack;
use wizardwars::server::{Server, ServerConfig};
use wizardwars::server_messages::{
    LoadingServerMessage, ServerMessage, ShoppingServerMessage, TimerInfo,
};
use wizardwars::states::{BattleState, ServerState};
use wizardwars::timer::NANOS_PER_SECOND;

const TICK: u64 = 16_000_000;

fn match_config(shopping_seconds: u32, preparation_seconds: u32, total_rounds: u32) -> ServerConfig {
    ServerConfig {
        shopping_seconds,
        preparation_seconds,
        total_rounds,
        knockback_force: 100.0f32.to_bits(),
    }
}

fn two_points() -> Vec<Vec3> {
    vec![
        Vec3::new(1.0f32.to_bits(), 0, 0),
        Vec3::new((-1.0f32).to_bits(), 0, 0),
    ]
}

fn loading_session(config: ServerConfig) -> Server {
    let mut server = Server::new(config);
    server.update(TICK);
    server.join(Client(1), "ann".to_string()).unwrap();
    server.join(Client(2), "bob".to_string()).unwrap();
    server.change_ready_state(Client(1), ReadyState::Ready).unwrap();
    server.change_ready_state(Client(2), ReadyState::Ready).unwrap();
    server.start_game(Client(1), two_points()).unwrap();
    server
}

fn win_round(server: &mut Server) -> Option<RoundResult> {
    let origin = Vec3::new(0, 0.5f32.to_bits(), 0);
    for _ in 0..2 {
        let shot = server.handle_attack_event(Client(1), origin).unwrap();
        assert!(server
            .fireball_collision_system(shot, Some(Uuid(1)))
            .is_some());
        let over = server.update(TICK);
        if over.is_some() {
            return over;
        }
    }
    None
}

#[test]
fn first_update_opens_the_lobby() {
    let mut server = Server::new(match_config(0, 0, 5));
    assert_eq!(server.update(TICK), None);
    assert_eq!(server.state(), ServerState::Lobby);
    assert_eq!(server.lobby_ready_state().0, ReadyState::NotReady);
    assert_eq!(server.update(TICK), None);
    assert_eq!(server.state(), ServerState::Lobby);
    assert!(server.packets().is_empty());
}

#[test]
fn loading_waits_for_every_client() {
    let mut server = loading_session(match_config(30, 0, 5));
    server.take_packets();
    server.update(TICK);
    assert_eq!(server.state(), ServerState::WaitLoading);
    assert!(!server.check_players_loading());

    assert_eq!(
        server.handle_loading_event(LoadCompleteEvent { client: Client(2) }),
        Some(Uuid(1))
    );
    assert!(server.players()[0].loading);
    assert!(!server.players()[1].loading);
    assert_eq!(
        server.packets(),
        &vec![Pack::except(
            ServerMessage::Loading(LoadingServerMessage::PlayerLoaded(Uuid(1))),
            Client(2)
        )]
    );
    server.update(TICK);
    assert_eq!(server.state(), ServerState::WaitLoading);

    assert_eq!(
        server.handle_loading_event(LoadCompleteEvent { client: Client(7) }),
        None
    );
    assert_eq!(
        server.handle_loading_event(LoadCompleteEvent { client: Client(1) }),
        Some(Uuid(0))
    );
    server.take_packets();
    server.update(TICK);
    assert_eq!(server.state(), ServerState::Shopping);
    assert_eq!(
        server.packets(),
        &vec![Pack::all(ServerMessage::Loading(
            LoadingServerMessage::LoadingComplete
        ))]
    );
}

#[test]
fn loaded_outside_loading_is_ignored() {
    let mut server = Server::new(match_config(0, 0, 5));
    server.update(TICK);
    server.join(Client(1), "ann".to_string()).unwrap();
    server.take_packets();
    assert_eq!(
        server.handle_loading_event(LoadCompleteEvent { client: Client(1) }),
        None
    );
    assert!(server.packets().is_empty());
    assert!(!server.check_players_loading());
}

#[test]
fn bots_are_not_awaited() {
    let mut server = Server::new(match_config(30, 0, 5));
    server.update(TICK);
    server.join(Client(1), "ann".to_string()).unwrap();
    server.add_bot().unwrap();
    server.change_ready_state(Client(1), ReadyState::Ready).unwrap();
    server.start_game(Client(1), two_points()).unwrap();
    assert!(server.players()[0].loading);
    assert!(!server.players()[1].loading);
    server.handle_loading_event(LoadCompleteEvent { client: Client(1) });
    assert!(server.check_players_loading());
    assert_eq!(server.state(), ServerState::Shopping);
}

#[test]
fn shopping_timer_is_told_and_leads_to_battle() {
    let mut server = loading_session(match_config(2, 0, 5));
    server.handle_loading_event(LoadCompleteEvent { client: Client(1) });
    server.handle_loading_event(LoadCompleteEvent { client: Client(2) });
    server.update(TICK);
    assert_eq!(server.state(), ServerState::Shopping);
    server.take_packets();

    server.update(NANOS_PER_SECOND);
    assert_eq!(server.state(), ServerState::Shopping);
    assert_eq!(
        server.packets(),
        &vec![Pack::all(ServerMessage::Shopping(
            ShoppingServerMessage::Timer(TimerInfo {
                duration: 2 * NANOS_PER_SECOND,
                elapsed: NANOS_PER_SECOND,
            })
        ))]
    );
    assert!(!server.check_timer());

    server.take_packets();
    server.update(NANOS_PER_SECOND);
    assert_eq!(server.state(), ServerState::Battle);
    assert_eq!(server.battle_state(), BattleState::Prepare);
    assert_eq!(
        server.packets()[0],
        Pack::all(ServerMessage::Shopping(ShoppingServerMessage::Timer(
            TimerInfo {
                duration: 2 * NANOS_PER_SECOND,
                elapsed: 2 * NANOS_PER_SECOND,
            }
        )))
    );
}

#[test]
fn preparation_leads_to_the_fight() {
    let mut server = loading_session(match_config(0, 1, 5));
    server.handle_loading_event(LoadCompleteEvent { client: Client(1) });
    server.handle_loading_event(LoadCompleteEvent { client: Client(2) });
    server.update(TICK);
    server.update(TICK);
    assert_eq!(server.battle_state(), BattleState::Prepare);
    server.update(NANOS_PER_SECOND / 2);
    assert_eq!(server.battle_state(), BattleState::Prepare);
    server.update(NANOS_PER_SECOND / 2);
    assert_eq!(server.battle_state(), BattleState::Battle);
    assert_eq!(server.state(), ServerState::Battle);
}

#[test]
fn two_players_play_two_rounds() {
    let mut server = Server::new(match_config(0, 0, 2));
    assert_eq!(server.state(), ServerState::Init);
    server.update(TICK);
    assert_eq!(server.state(), ServerState::Lobby);

    server.join(Client(1), "ann".to_string()).unwrap();
    server.join(Client(2), "bob".to_string()).unwrap();
    server.change_ready_state(Client(1), ReadyState::Ready).unwrap();
    server.change_ready_state(Client(2), ReadyState::Ready).unwrap();
    server.start_game(Client(1), two_points()).unwrap();
    assert_eq!(server.state(), ServerState::WaitLoading);

    server.handle_loading_event(LoadCompleteEvent { client: Client(1) });
    server.handle_loading_event(LoadCompleteEvent { client: Client(2) });
    server.update(TICK);
    assert_eq!(server.state(), ServerState::Shopping);

    server.update(TICK);
    assert_eq!(server.state(), ServerState::Battle);
    assert_eq!(server.battle_state(), BattleState::Prepare);
    server.update(TICK);
    assert_eq!(server.battle_state(), BattleState::Battle);
    assert_eq!(server.arena().as_ref().unwrap().current_round(), 1);

    let over = win_round(&mut server);
    assert_eq!(
        over,
        Some(RoundResult {
            winner: Uuid(0),
            next: ServerState::Shopping
        })
    );
    assert_eq!(server.state(), ServerState::Shopping);
    assert_eq!(server.battle_state(), BattleState::Idle);
    assert_eq!(server.arena().as_ref().unwrap().current_round(), 2);

    server.update(TICK);
    assert_eq!(server.state(), ServerState::Battle);
    server.update(TICK);
    assert_eq!(server.battle_state(), BattleState::Battle);
    assert_eq!(server.arena().as_ref().unwrap().current_round(), 2);

    let over = win_round(&mut server);
    assert_eq!(
        over,
        Some(RoundResult {
            winner: Uuid(0),
            next: ServerState::ShowResult
        })
    );
    assert_eq!(server.state(), ServerState::ShowResult);
    assert_eq!(server.arena().as_ref().unwrap().current_round(), 2);
    assert_eq!(server.arena().as_ref().unwrap().total_rounds(), 2);

    assert_eq!(server.update(TICK), None);
    assert_eq!(server.state(), ServerState::ShowResult);
}

#[test]
fn taking_the_packets_empties_the_outbox() {
    let mut server = Server::new(match_config(0, 0, 5));
    server.update(TICK);
    server.join(Client(1), "ann".to_string()).unwrap();
    let waiting = server.packets().clone();
    assert!(!waiting.is_empty());
    assert_eq!(server.take_packets(), waiting);
    assert!(server.packets().is_empty());
    assert_eq!(server.players().len(), 1);
}
