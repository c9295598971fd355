//! The actors that live on the grid, as far as their state is integral.

use vstd::prelude::*;

pub mod player;

use crate::entity::player::PlayerEntity;

verus! {

/// Which variant an entity is.
#[derive(Clone, Copy, Debug, PartialEq, Eq, Structural)]
pub enum EntityType {
    Player,
}

/// Where an actor is heading along one axis, going by the sign of its
/// velocity there.
#[derive(Clone, Copy, Debug, PartialEq, Eq, Structural)]
pub enum Heading {
    Backward,
    Still,
    Forward,
}

/// Hit points. An entity with none left is dead.
pub type Health = u8;

/// The health an entity starts with and respawns with; none has more.
pub const MAX_HEALTH: Health = 100;

/// `value` brought down to the maximum where it is above it.
pub open spec fn capped(value: Health) -> Health {
    if value <= MAX_HEALTH {
        value
    } else {
        MAX_HEALTH
    }
}

/// What is left of `health` after `damage`: the difference, but never less
/// than zero.
pub open spec fn after_damage(health: Health, damage: Health) -> Health {
    if damage >= health {
        0
    } else {
        (health - damage) as Health
    }
}

/// A mobile actor. The grid keeps these in a table and hands out handles.
#[derive(Clone, Copy, Debug, PartialEq, Eq, Structural)]
pub enum Entity {
    Player(PlayerEntity),
}

impl Entity {
    /// Which variant this entity is.
    pub open spec fn kind(self) -> EntityType {
        match self {
            Entity::Player(_) => EntityType::Player,
        }
    }

    /// The health this entity has left.
    pub open spec fn health(self) -> Health {
        match self {
            Entity::Player(p) => p.health(),
        }
    }

    /// Which variant this entity is.
    pub fn get_type(&self) -> (t: EntityType)
        ensures
            t == self.kind(),
    {
        match self {
            Entity::Player(p) => p.get_type(),
        }
    }

    /// The health left, never above the maximum.
    pub fn get_health(&self) -> (h: Health)
        ensures
            h == self.health(),
            h <= MAX_HEALTH,
    {
        match self {
            Entity::Player(p) => p.get_health(),
        }
    }

    /// Alive means some health is left.
    pub fn is_alive(&self) -> (alive: bool)
        ensures
            alive == (self.health() > 0),
    {
        match self {
            Entity::Player(p) => p.is_alive(),
        }
    }

    /// Sets the health, capped at the maximum.
    pub fn set_health(&mut self, value: Health)
        ensures
            final(self).kind() == old(self).kind(),
            final(self).health() == capped(value),
    {
        match self {
            Entity::Player(p) => p.set_health(value),
        }
    }

    /// Back to full health, whatever the state before.
    pub fn respawn(&mut self)
        ensures
            final(self).kind() == old(self).kind(),
            final(self).health() == MAX_HEALTH,
    {
        match self {
            Entity::Player(p) => p.respawn(),
        }
    }

    /// Takes `damage` off the health, stopping at zero.
    pub fn take_damage(&mut self, damage: Health)
        ensures
            final(self).kind() == old(self).kind(),
            final(self).health() == after_damage(old(self).health(), damage),
    {
        match self {
            Entity::Player(p) => p.take_damage(damage),
        }
    }
}

} // verus!
