use wizardwars::arena::{ArenaBuilder, SpawnPointsBuilder};
use wizardwars::components::Vec3;

#[test]
fn spawn_points_builder() {
    let builder = SpawnPointsBuilder::new();
    let points = builder.build();

    assert_eq!(points.len(), 0);
}

#[test]
fn spawn_points_builder_with_points() {
    let given = vec![Vec3::new(1, 2, 3), Vec3::new(4, 5, 6)];
    let points = SpawnPointsBuilder::new().with_points(given.clone()).build();

    assert_eq!(points, given);
}

#[test]
fn arena_builder_default_values() {
    let arena = ArenaBuilder::new().build();

    assert_eq!(arena.total_rounds(), 5);
    assert_eq!(arena.current_round(), 1);
    assert_eq!(arena.spawn_points().len(), 0);
}

#[test]
fn arena_builder_with_rounds() {
    let expected_total_rounds = 10;
    let arena = ArenaBuilder::new()
        .with_rounds(expected_total_rounds)
        .build();

    assert_eq!(arena.total_rounds(), expected_total_rounds);
    assert_eq!(arena.current_round(), 1);
}

#[test]
fn arena_builder_with_spawn_points() {
    let points = vec![Vec3::new(7, 0, 9)];
    let arena = ArenaBuilder::new().with_spawn_points(points.clone()).build();

    assert_eq!(arena.spawn_points(), &points);
    assert_eq!(arena.total_rounds(), 5);
}

#[test]
fn arena_next_round() {
    let total_rounds = 2;
    let mut arena = ArenaBuilder::new().with_rounds(total_rounds).build();
    assert_eq!(arena.current_round(), 1);
    assert_eq!(arena.total_rounds(), total_rounds);
    assert!(!arena.is_last_round());

    arena.next_round();
    assert_eq!(arena.current_round(), 2);
    assert_eq!(arena.total_rounds(), total_rounds);
    assert!(arena.is_last_round());

    arena.next_round();
    assert_eq!(arena.current_round(), 2);
    assert_eq!(arena.total_rounds(), total_rounds);
    assert!(arena.is_last_round());
}

#[test]
fn arena_last_round() {
    let mut arena = ArenaBuilder::new().build();
    assert_eq!(arena.current_round(), 1);
    assert_eq!(arena.total_rounds(), 5);

    arena.next_round();
    assert_eq!(arena.current_round(), 2);
    assert_eq!(arena.total_rounds(), 5);
}

#[test]
fn arena_without_rounds_is_in_its_last_round() {
    let mut arena = ArenaBuilder::new().with_rounds(0).build();
    assert_eq!(arena.current_round(), 0);
    assert!(arena.is_last_round());

    arena.next_round();
    assert_eq!(arena.current_round(), 0);
}
