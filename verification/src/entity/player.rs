use vstd::prelude::*;

use crate::entity::{after_damage, capped, EntityType, Health, MAX_HEALTH};

verus! {

/// The player's vital state: alive while health is above zero, dead at zero.
#[derive(Clone, Copy, Debug, PartialEq, Eq, Structural)]
pub struct PlayerEntity {
    health: Health,
}

impl PlayerEntity {
    #[verifier::type_invariant]
    spec fn in_range(self) -> bool {
        self.health <= MAX_HEALTH
    }

    /// The health the player has left.
    pub closed spec fn health(self) -> Health {
        self.health
    }

    /// A player at full health.
    pub fn new() -> (p: PlayerEntity)
        ensures
            p.health() == MAX_HEALTH,
    {
        PlayerEntity { health: MAX_HEALTH }
    }

    /// Always `EntityType::Player`.
    pub fn get_type(&self) -> (t: EntityType)
        ensures
            t == EntityType::Player,
    {
        EntityType::Player
    }

    /// The health left, never above the maximum.
    pub fn get_health(&self) -> (h: Health)
        ensures
            h == self.health(),
            h <= MAX_HEALTH,
    {
        proof {
            use_type_invariant(self);
        }
        self.health
    }

    /// Sets the health, capped at the maximum.
    pub fn set_health(&mut self, value: Health)
        ensures
            final(self).health() == capped(value),
    {
        if value <= MAX_HEALTH {
            self.health = value;
        } else {
            self.health = MAX_HEALTH;
        }
    }

    /// Alive means some health is left.
    pub fn is_alive(&self) -> (alive: bool)
        ensures
            alive == (self.health() > 0),
    {
        self.health > 0
    }

    /// Back to full health, whatever the state before.
    pub fn respawn(&mut self)
        ensures
            final(self).health() == MAX_HEALTH,
    {
        self.health = MAX_HEALTH;
    }

    /// Takes `damage` off the health, stopping at zero.
    pub fn take_damage(&mut self, damage: Health)
        ensures
            final(self).health() == after_damage(old(self).health(), damage),
    {
        proof {
            use_type_invariant(&*self);
        }
        if damage >= self.health {
            self.health = 0;
        } else {
            self.health = self.health - damage;
        }
    }
}

} // verus!
