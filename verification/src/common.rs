//! Collision-layer masks and per-entity health stats.
//!
//! The physics collaborator understands layer masks as pairs of bitmasks: the
//! layers a body belongs to and the layers it collides with. The functions
//! here state the exact masks each kind of game body uses.

use vstd::prelude::*;

use crate::fixed::Fixed;

verus! {

/// A two-dimensional vector with fixed-point coordinates.
#[derive(Clone, Copy, Debug, PartialEq, Eq, Structural)]
pub struct Vec2Fixed {
    pub x: Fixed,
    pub y: Fixed,
}

/// A three-dimensional vector with fixed-point coordinates.
#[derive(Clone, Copy, Debug, PartialEq, Eq, Structural)]
pub struct Vec3Fixed {
    pub x: Fixed,
    pub y: Fixed,
    pub z: Fixed,
}

/// A pair of physics bitmasks: what a body is, and what it collides with.
#[derive(Clone, Copy, Debug, PartialEq, Eq, Structural)]
pub struct CollisionLayers {
    /// Bit per layer the body belongs to.
    pub memberships: u32,
    /// Bit per layer the body registers collisions with.
    pub filters: u32,
}

/// The named physics layers of the game, one bit each.
#[derive(Clone, Copy, Debug, PartialEq, Eq, Structural)]
pub enum GameLayer {
    /// Layer of plain scenery bodies.
    Default,
    /// Layer of friendly units.
    Unit,
    /// Layer of enemies.
    Enemy,
    /// Layer of unit attack sensors.
    UnitHitbox,
    /// Layer of enemy hurt sensors.
    EnemyHurtbox,
}

impl GameLayer {
    /// The bit this layer occupies in a mask.
    pub open spec fn spec_bit(self) -> u32 {
        match self {
            GameLayer::Default => 1u32,
            GameLayer::Unit => 2u32,
            GameLayer::Enemy => 4u32,
            GameLayer::UnitHitbox => 8u32,
            GameLayer::EnemyHurtbox => 16u32,
        }
    }

    /// The bit this layer occupies in a mask.
    pub fn bit(self) -> (r: u32)
        ensures
            r == self.spec_bit(),
    {
        match self {
            GameLayer::Default => 1,
            GameLayer::Unit => 2,
            GameLayer::Enemy => 4,
            GameLayer::UnitHitbox => 8,
            GameLayer::EnemyHurtbox => 16,
        }
    }

    /// Masks of a plain scenery body: on the default layer, colliding with
    /// scenery, enemies and units.
    pub fn default_layers() -> (r: CollisionLayers)
        ensures
            r.memberships == GameLayer::Default.spec_bit(),
            r.filters == GameLayer::Default.spec_bit() | GameLayer::Enemy.spec_bit()
                | GameLayer::Unit.spec_bit(),
    {
        CollisionLayers { memberships: 1, filters: 1 | 4 | 2 }
    }

    /// Masks of an enemy body: on the enemy layer, colliding with scenery,
    /// enemies and units.
    pub fn enemy_layers() -> (r: CollisionLayers)
        ensures
            r.memberships == GameLayer::Enemy.spec_bit(),
            r.filters == GameLayer::Default.spec_bit() | GameLayer::Enemy.spec_bit()
                | GameLayer::Unit.spec_bit(),
    {
        CollisionLayers { memberships: 4, filters: 1 | 4 | 2 }
    }

    /// Masks of a unit body: on the unit layer, colliding with scenery, units
    /// and enemies.
    pub fn unit_layers() -> (r: CollisionLayers)
        ensures
            r.memberships == GameLayer::Unit.spec_bit(),
            r.filters == GameLayer::Default.spec_bit() | GameLayer::Unit.spec_bit()
                | GameLayer::Enemy.spec_bit(),
    {
        CollisionLayers { memberships: 2, filters: 1 | 2 | 4 }
    }

    /// Masks of a unit's range sensor: on the unit layer, noticing enemies
    /// only.
    pub fn unit_attack_distance_layers() -> (r: CollisionLayers)
        ensures
            r.memberships == GameLayer::Unit.spec_bit(),
            r.filters == GameLayer::Enemy.spec_bit(),
    {
        CollisionLayers { memberships: 2, filters: 4 }
    }

    /// Masks of a unit's attack sensor: on the unit hitbox layer, hitting
    /// enemy hurtboxes only.
    pub fn unit_hitbox_layers() -> (r: CollisionLayers)
        ensures
            r.memberships == GameLayer::UnitHitbox.spec_bit(),
            r.filters == GameLayer::EnemyHurtbox.spec_bit(),
    {
        CollisionLayers { memberships: 8, filters: 16 }
    }
}

/// Marker of an attack sensor shape: the body owning it deals damage through
/// it.
#[derive(Clone, Copy, Debug, PartialEq, Eq, Structural)]
pub struct Hitbox;

/// Marker of a hurt sensor shape: the body owning it takes damage through
/// it.
#[derive(Clone, Copy, Debug, PartialEq, Eq, Structural)]
pub struct Hurtbox;

/// Marker of a unit's target-acquisition sensor.
#[derive(Clone, Copy, Debug, PartialEq, Eq, Structural)]
pub struct AttackDistance;

/// Everything the engine needs to spawn a round sensor: its radius and
/// masks. Used for attack sensors and range sensors alike.
#[derive(Clone, Copy, Debug, PartialEq, Eq, Structural)]
pub struct SensorSpawn {
    /// The sensor circle's radius.
    pub radius: Fixed,
    /// The sensor's masks.
    pub layers: CollisionLayers,
}

/// Describe a unit's round target-acquisition sensor.
pub fn spawn_attack_distance(circle: Fixed, collision_layers: CollisionLayers) -> (r: SensorSpawn)
    ensures
        r.radius == circle,
        r.layers == collision_layers,
{
    SensorSpawn { radius: circle, layers: collision_layers }
}

/// Per-entity health, clamped into `[0, health_max]` on every change.
#[derive(Clone, Copy, Debug, PartialEq, Eq, Structural)]
pub struct Stas {
    /// Current health, between zero and `health_max`.
    pub health: i32,
    /// The upper bound health is clamped to.
    pub health_max: i32,
}

impl Stas {
    /// Well-formed: a non-negative bound, health within it.
    pub open spec fn wf(self) -> bool {
        0 <= self.health <= self.health_max
    }

    /// Shift health by `value` (negative for damage), clamping the result
    /// into `[0, health_max]`.
    pub fn update_health(&mut self, value: i32)
        requires
            old(self).health_max >= 0,
            old(self).health + value <= i32::MAX,
            old(self).health + value >= i32::MIN,
        ensures
            final(self).health_max == old(self).health_max,
            final(self).health == crate::fixed::spec_clamp(
                old(self).health + value,
                0,
                old(self).health_max as int,
            ),
            final(self).wf(),
    {
        self.health = self.health + value;
        self.health = if self.health < 0 {
            0
        } else if self.health > self.health_max {
            self.health_max
        } else {
            self.health
        };
    }

    /// True when health has reached zero.
    pub fn is_die(&self) -> (r: bool)
        ensures
            r == (self.health == 0),
    {
        self.health == 0
    }
}

impl Default for Stas {
    /// Full health of ten.
    fn default() -> (r: Self)
        ensures
            r.health == 10,
            r.health_max == 10,
            r.wf(),
    {
        Stas { health: 10, health_max: 10 }
    }
}

} // verus!
