use wizardwars::components::{Client, Owner, Uuid};
use wizardwars::damage::{Attack, Damage};
use wizardwars::events::ClientEvent;
use wizardwars::resources::{DespawnedList, IdFactory, MAX_PLAYERS};

#[test]
fn id_factory() {
    let mut factory = IdFactory::default();
    let id1 = factory.generate();
    assert_eq!(id1, Uuid(0));

    let id2 = factory.generate();
    assert_eq!(id2, Uuid(1));
}

#[test]
fn id_factory_is_not_exhausted_at_first() {
    let mut factory = IdFactory::default();
    assert!(!factory.exhausted());
    factory.generate();
    assert!(!factory.exhausted());
}

#[test]
fn lobby_takes_eight_players() {
    assert_eq!(MAX_PLAYERS, 8);
}

#[test]
fn despawned_list_keeps_order_until_cleared() {
    let mut list = DespawnedList::default();
    list.push(Uuid(4));
    list.push(Uuid(2));
    let ids: Vec<Uuid> = list.iter().copied().collect();
    assert_eq!(ids, vec![Uuid(4), Uuid(2)]);

    list.clear();
    assert_eq!(list.iter().count(), 0);
}

#[test]
fn damage_holds_its_amount() {
    let damage = Damage::new(7);
    assert_eq!(damage.amount(), 7);
}

#[test]
fn attack_gives_its_damage_and_force() {
    let force = 100.0f32.to_bits();
    let attack = Attack::new(10, force);
    assert_eq!(attack.damage().amount(), 10);
    assert_eq!(f32::from_bits(attack.knockback_force()), 100.0);
}

#[test]
fn owner_names_its_entity() {
    let owner = Owner::new(Uuid(3));
    assert_eq!(owner.entity(), Uuid(3));
}

#[test]
fn client_event_holds_client_and_event() {
    let event = ClientEvent::new(Client(5), 12u8);
    assert_eq!(*event.client(), Client(5));
    assert_eq!(*event.event(), 12u8);
}
