use wizardwars::client_messages::{ActionMessage, ClientMessage, LobbyClientMessage, Verify};
use wizardwars::components::{Client, ReadyState, Uuid, Vec3};
use wizardwars::network::{recipients, Dest, Pack};
use wizardwars::states::{ServerState, StateError};

#[test]
fn pack_constructors_set_the_destination() {
    assert_eq!(Pack::new(1u8, Dest::All), Pack { msg: 1u8, dest: Dest::All });
    assert_eq!(Pack::all(2u8), Pack { msg: 2u8, dest: Dest::All });
    assert_eq!(
        Pack::single(3u8, Client(9)),
        Pack { msg: 3u8, dest: Dest::Single(Client(9)) }
    );
    assert_eq!(
        Pack::except(4u8, Client(9)),
        Pack { msg: 4u8, dest: Dest::AllExcept(Client(9)) }
    );
}

#[test]
fn single_goes_to_the_named_client() {
    let clients = vec![Client(1), Client(2), Client(3)];
    assert_eq!(recipients(&Dest::Single(Client(2)), &clients), vec![Client(2)]);
    assert_eq!(recipients(&Dest::Single(Client(7)), &clients), vec![Client(7)]);
}

#[test]
fn all_except_leaves_one_client_out() {
    let clients = vec![Client(1), Client(2), Client(3)];
    assert_eq!(
        recipients(&Dest::AllExcept(Client(2)), &clients),
        vec![Client(1), Client(3)]
    );
    assert_eq!(
        recipients(&Dest::AllExcept(Client(7)), &clients),
        vec![Client(1), Client(2), Client(3)]
    );
}

#[test]
fn all_goes_to_every_client() {
    let clients = vec![Client(1), Client(2), Client(3)];
    assert_eq!(recipients(&Dest::All, &clients), clients);
    assert_eq!(recipients(&Dest::All, &Vec::new()), Vec::<Client>::new());
}

#[test]
fn only_the_host_may_add_bots_and_start() {
    assert!(LobbyClientMessage::AddBot.verify(true));
    assert!(!LobbyClientMessage::AddBot.verify(false));
    assert!(LobbyClientMessage::StartGame.verify(true));
    assert!(!LobbyClientMessage::StartGame.verify(false));
    assert!(!ClientMessage::LobbyMessage(LobbyClientMessage::StartGame).verify(false));
    assert!(ClientMessage::LobbyMessage(LobbyClientMessage::AddBot).verify(true));
}

#[test]
fn everyone_may_send_the_other_messages() {
    assert!(LobbyClientMessage::Join("a".to_string()).verify(false));
    assert!(LobbyClientMessage::ChangeReadyState(ReadyState::Ready).verify(false));
    assert!(LobbyClientMessage::GetPlayerList.verify(false));
    assert!(ClientMessage::Loaded.verify(false));
    assert!(ActionMessage::FireBall(Vec3::new(0, 0, 0)).verify(false));
    assert!(ActionMessage::Attack { target: Uuid(1) }.verify(false));
    assert!(ClientMessage::Action(ActionMessage::Move { target: Vec3::new(1, 2, 3) }).verify(false));
}

#[test]
fn phases_follow_one_another() {
    assert_eq!(ServerState::Init.check_step(ServerState::Lobby), Ok(()));
    assert_eq!(ServerState::Lobby.check_step(ServerState::WaitLoading), Ok(()));
    assert_eq!(ServerState::WaitLoading.check_step(ServerState::Shopping), Ok(()));
    assert_eq!(ServerState::Shopping.check_step(ServerState::Battle), Ok(()));
    assert_eq!(ServerState::Battle.check_step(ServerState::Shopping), Ok(()));
    assert_eq!(ServerState::Battle.check_step(ServerState::ShowResult), Ok(()));
}

#[test]
fn other_steps_are_refused() {
    assert_eq!(
        ServerState::Lobby.check_step(ServerState::Lobby),
        Err(StateError::AlreadyInState)
    );
    assert_eq!(
        ServerState::Lobby.check_step(ServerState::Battle),
        Err(StateError::InvalidTransition)
    );
    assert_eq!(
        ServerState::ShowResult.check_step(ServerState::Lobby),
        Err(StateError::InvalidTransition)
    );
    assert_eq!(
        ServerState::Shopping.check_step(ServerState::WaitLoading),
        Err(StateError::InvalidTransition)
    );
}

#[test]
fn phases_have_names() {
    assert_eq!(ServerState::Init.name(), "Init");
    assert_eq!(ServerState::Lobby.name(), "Lobby");
    assert_eq!(ServerState::WaitLoading.name(), "Wait Loading");
    assert_eq!(ServerState::Shopping.name(), "Shopping");
    assert_eq!(ServerState::Battle.name(), "Battle");
    assert_eq!(ServerState::ShowResult.name(), "Show Result");
}
