//! Damage effects and the attacks that cause them.

use vstd::prelude::*;

verus! {

/// A damage effect queued on a player, applied once and then removed.
#[derive(Debug, Copy, Clone, PartialEq, Eq, Structural)]
pub struct Damage {
    pub(crate) amount: u32,
}

impl Damage {
    /// The points of health this effect takes.
    pub open(crate) spec fn points(&self) -> u32 {
        self.amount
    }

    pub fn new(amount: u32) -> (damage: Damage)
        ensures
            damage.points() == amount,
    {
        Damage { amount }
    }

    pub fn amount(&self) -> (amount: u32)
        ensures
            amount == self.points(),
    {
        self.amount
    }
}

/// What a projectile does to the player it hits.
#[derive(Debug, Copy, Clone, PartialEq, Eq, Structural)]
pub struct Attack {
    pub(crate) damage: u32,
    pub(crate) knockback_force: u32,
}

impl Attack {
    /// The points of health this attack takes.
    pub open(crate) spec fn points(&self) -> u32 {
        self.damage
    }

    /// The bit pattern of the force this attack pushes with.
    pub open(crate) spec fn force(&self) -> u32 {
        self.knockback_force
    }

    /// An attack taking `damage` points, pushing with the force whose
    /// single-precision bit pattern is `knockback_force`.
    pub fn new(damage: u32, knockback_force: u32) -> (attack: Attack)
        ensures
            attack.points() == damage,
            attack.force() == knockback_force,
    {
        Attack { damage, knockback_force }
    }

    /// The damage effect this attack queues on its target.
    pub fn damage(&self) -> (damage: Damage)
        ensures
            damage.points() == self.points(),
    {
        Damage::new(self.damage)
    }

    /// The bit pattern of the knockback force.
    pub fn knockback_force(&self) -> (force: u32)
        ensures
            force == self.force(),
    {
        self.knockback_force
    }
}

/// The attack carried by a fire ball.
#[derive(Debug, Copy, Clone, PartialEq, Eq, Structural)]
pub struct FireBall {
    pub attack: Attack,
}

} // verus!
