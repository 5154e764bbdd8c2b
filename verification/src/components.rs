//! Plain data attached to entities.

use vstd::prelude::*;

verus! {

/// Health of an entity.
#[derive(Clone, Copy, Debug, PartialEq, Eq, Structural)]
pub struct Stats {
    pub max_health: i32,
    pub health: i32,
}

/// Health left after a hit: the damage is taken off, and the result is kept
/// between zero and the largest value the field can hold.
pub open spec fn health_after(health: int, damage: int) -> int {
    if health - damage < 0 {
        0
    } else if health - damage > i32::MAX {
        i32::MAX as int
    } else {
        health - damage
    }
}

impl Default for Stats {
    /// Four points of health, all of them left.
    fn default() -> (stats: Stats)
        ensures
            stats == (Stats { max_health: 4, health: 4 }),
    {
        Stats { max_health: 4, health: 4 }
    }
}

impl Stats {
    /// Whether no health is left.
    pub open spec fn spec_is_dead(&self) -> bool {
        self.health <= 0
    }

    /// These stats after a hit of `damage`.
    pub open spec fn damaged(self, damage: i32) -> Stats {
        Stats {
            max_health: self.max_health,
            health: health_after(self.health as int, damage as int) as i32,
        }
    }

    /// Whether no health is left.
    #[verifier::when_used_as_spec(spec_is_dead)]
    pub fn is_dead(&self) -> (dead: bool)
        ensures
            dead == self.spec_is_dead(),
    {
        self.health <= 0
    }

    /// Takes `damage` off the health, which never falls below zero.
    pub fn take_damage(&mut self, damage: i32)
        ensures
            *final(self) == old(self).damaged(damage),
    {
        let left: i64 = self.health as i64 - damage as i64;
        if left < 0 {
            self.health = 0;
        } else if left > i32::MAX as i64 {
            self.health = i32::MAX;
        } else {
            self.health = left as i32;
        }
    }
}

/// A hit never leaves negative health, and a hit that does harm never adds
/// health.
pub proof fn lemma_damage_bounds(stats: Stats, damage: i32)
    ensures
        stats.damaged(damage).health >= 0,
        damage >= 0 && stats.health >= 0 ==> stats.damaged(damage).health <= stats.health,
        stats.damaged(damage).max_health == stats.max_health,
{
}

} // verus!
