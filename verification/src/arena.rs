//! The arena of a match: where players start, and which round is played.

use vstd::prelude::*;
use crate::components::Vec3;

verus! {

/// Spawn points and the round counter of a match.
#[derive(Debug)]
pub struct Arena {
    pub(crate) spawn_points: Vec<Vec3>,
    pub(crate) current_round: u32,
    pub(crate) total_rounds: u32,
}

impl Arena {
    /// The round being played never exceeds the number of rounds.
    #[verifier::type_invariant]
    pub open(crate) spec fn wf(self) -> bool {
        self.current_round <= self.total_rounds
    }

    /// The spawn points, in order.
    pub open(crate) spec fn points(&self) -> Seq<Vec3> {
        self.spawn_points@
    }

    /// The round being played.
    pub open(crate) spec fn round(&self) -> u32 {
        self.current_round
    }

    /// The number of rounds in the match.
    pub open(crate) spec fn rounds(&self) -> u32 {
        self.total_rounds
    }

    pub fn spawn_points(&self) -> (points: &Vec<Vec3>)
        ensures
            points@ == self.points(),
    {
        &self.spawn_points
    }

    pub fn current_round(&self) -> (round: u32)
        ensures
            round == self.round(),
            round <= self.rounds(),
    {
        proof {
            use_type_invariant(self);
        }
        self.current_round
    }

    pub fn is_last_round(&self) -> (last: bool)
        ensures
            last == (self.round() == self.rounds()),
    {
        self.current_round == self.total_rounds
    }

    /// Moves on to the next round; after the last round nothing changes.
    pub fn next_round(&mut self)
        ensures
            final(self).points() == old(self).points(),
            final(self).rounds() == old(self).rounds(),
            final(self).round() == if old(self).round() < old(self).rounds() {
                old(self).round() + 1
            } else {
                old(self).round() as int
            },
            final(self).wf(),
    {
        proof {
            use_type_invariant(&*self);
        }
        if self.current_round < self.total_rounds {
            self.current_round = self.current_round + 1;
        }
    }

    pub fn total_rounds(&self) -> (rounds: u32)
        ensures
            rounds == self.rounds(),
    {
        self.total_rounds
    }
}

/// Collects the spawn points of an arena.
#[derive(Debug)]
pub struct SpawnPointsBuilder {
    pub(crate) points: Vec<Vec3>,
}

impl SpawnPointsBuilder {
    /// The points collected so far.
    pub open(crate) spec fn view(&self) -> Seq<Vec3> {
        self.points@
    }

    pub fn new() -> (builder: SpawnPointsBuilder)
        ensures
            builder@ == Seq::<Vec3>::empty(),
    {
        SpawnPointsBuilder { points: Vec::new() }
    }

    /// Replaces the points collected so far by `points`.
    pub fn with_points(self, points: Vec<Vec3>) -> (builder: SpawnPointsBuilder)
        ensures
            builder@ == points@,
    {
        SpawnPointsBuilder { points }
    }

    pub fn build(self) -> (points: Vec<Vec3>)
        ensures
            points@ == self@,
    {
        self.points
    }
}

/// The number of rounds of a match unless another is asked for.
pub const DEFAULT_ROUNDS: u32 = 5;

/// Sets up an arena.
#[derive(Debug)]
pub struct ArenaBuilder {
    pub(crate) spawn_points: Vec<Vec3>,
    pub(crate) total_rounds: u32,
}

impl ArenaBuilder {
    /// The spawn points the arena will have.
    pub open(crate) spec fn points(&self) -> Seq<Vec3> {
        self.spawn_points@
    }

    /// The number of rounds the arena will have.
    pub open(crate) spec fn rounds(&self) -> u32 {
        self.total_rounds
    }

    /// A builder for an arena of five rounds without spawn points.
    pub fn new() -> (builder: ArenaBuilder)
        ensures
            builder.points() == Seq::<Vec3>::empty(),
            builder.rounds() == DEFAULT_ROUNDS,
    {
        ArenaBuilder { spawn_points: Vec::new(), total_rounds: DEFAULT_ROUNDS }
    }

    pub fn with_rounds(self, rounds: u32) -> (builder: ArenaBuilder)
        ensures
            builder.points() == self.points(),
            builder.rounds() == rounds,
    {
        ArenaBuilder { spawn_points: self.spawn_points, total_rounds: rounds }
    }

    pub fn with_spawn_points(self, points: Vec<Vec3>) -> (builder: ArenaBuilder)
        ensures
            builder.points() == points@,
            builder.rounds() == self.rounds(),
    {
        ArenaBuilder { spawn_points: points, total_rounds: self.total_rounds }
    }

    /// The arena, in its first round; an arena without rounds is in round
    /// zero, which is its last.
    pub fn build(self) -> (arena: Arena)
        ensures
            arena.points() == self.points(),
            arena.rounds() == self.rounds(),
            arena.round() == if self.rounds() == 0 {
                0u32
            } else {
                1u32
            },
            arena.wf(),
    {
        let current_round: u32 = if self.total_rounds == 0 {
            0
        } else {
            1
        };
        Arena {
            spawn_points: self.spawn_points,
            current_round,
            total_rounds: self.total_rounds,
        }
    }
}

} // verus!
