//! Hit points, never above their maximum.

use vstd::prelude::*;

verus! {

/// Current and maximum hit points of a player.
#[derive(Debug, Copy, Clone, PartialEq, Eq, Structural)]
pub struct Health {
    pub(crate) current: u32,
    pub(crate) maximum: u32,
}

/// `value` brought into the range from `low` to `high`.
pub open spec fn clamp(value: int, low: int, high: int) -> int {
    if value < low {
        low
    } else if value > high {
        high
    } else {
        value
    }
}

impl Health {
    #[verifier::type_invariant]
    pub open(crate) spec fn wf(self) -> bool {
        self.current <= self.maximum
    }

    /// The current hit points.
    pub open(crate) spec fn points(&self) -> u32 {
        self.current
    }

    /// The most hit points this player can have.
    pub open(crate) spec fn limit(&self) -> u32 {
        self.maximum
    }

    /// Full health of `amount` points.
    pub fn new(amount: u32) -> (health: Health)
        ensures
            health.points() == amount,
            health.limit() == amount,
            health.wf(),
    {
        Health { current: amount, maximum: amount }
    }

    pub fn current(&self) -> (current: u32)
        ensures
            current == self.points(),
            current <= self.limit(),
    {
        proof {
            use_type_invariant(self);
        }
        self.current
    }

    pub fn maximum(&self) -> (maximum: u32)
        ensures
            maximum == self.limit(),
    {
        self.maximum
    }

    /// Sets the current points to `amount`, capped at the maximum.
    pub fn set_to(&mut self, amount: u32)
        ensures
            final(self).limit() == old(self).limit(),
            final(self).points() == clamp(amount as int, 0, old(self).limit() as int),
            final(self).wf(),
    {
        let current: u32 = if amount <= self.maximum {
            amount
        } else {
            self.maximum
        };
        *self = Health { current, maximum: self.maximum };
    }

    /// Adds `amount`, which may be negative, to the current points; the
    /// result stays between zero and the maximum.
    pub fn change_by(&mut self, amount: i32)
        ensures
            final(self).limit() == old(self).limit(),
            final(self).points() == clamp(
                old(self).points() + amount,
                0,
                old(self).limit() as int,
            ),
            final(self).wf(),
    {
        proof {
            use_type_invariant(&*self);
        }
        let sum: i64 = self.current as i64 + amount as i64;
        let current: u32 = if sum < 0 {
            0
        } else if sum > self.maximum as i64 {
            self.maximum
        } else {
            sum as u32
        };
        *self = Health { current, maximum: self.maximum };
    }

    /// Sets the maximum to `amount` and caps the current points at it.
    pub fn set_maximum(&mut self, amount: u32)
        ensures
            final(self).limit() == amount,
            final(self).points() == clamp(old(self).points() as int, 0, amount as int),
            final(self).wf(),
    {
        let current: u32 = if self.current <= amount {
            self.current
        } else {
            amount
        };
        *self = Health { current, maximum: amount };
    }

    /// Whether no hit points are left.
    pub fn should_die(&self) -> (dies: bool)
        ensures
            dies == (self.points() == 0),
    {
        self.current == 0
    }
}

} // verus!
