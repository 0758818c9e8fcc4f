//! Enemies: their spawn description, the name-keyed spawner registry, and
//! what happens when an enemy's attack sensor hits something with health.

use vstd::prelude::*;

use crate::bullet::{spec_damaged, spec_has_stas, spec_stas_index, spec_stas_wf, CollisionStart,
    StasEntry};
use crate::common::{CollisionLayers, GameLayer, Stas, Vec2Fixed, Vec3Fixed};
use crate::registry::StringRegistry;
use crate::skill::EntityId;

verus! {

/// Damage one enemy hit inflicts.
pub const ENEMY_DAMAGE: i32 = 5;

/// Marker of an enemy entity.
#[derive(Clone, Copy, Debug, PartialEq, Eq, Structural)]
pub struct Enemy;

/// Marker of the square enemy kind.
#[derive(Clone, Copy, Debug, PartialEq, Eq, Structural)]
pub struct Square;

/// Everything the engine needs to spawn one enemy: placement, masks, full
/// health, a standstill start, and the masks of its two sensors.
#[derive(Clone, Copy, Debug, PartialEq, Eq, Structural)]
pub struct EnemySpawn {
    /// Where the enemy appears.
    pub position: Vec3Fixed,
    /// Masks of the enemy body.
    pub body_layers: CollisionLayers,
    /// Starting velocity; enemies start standing.
    pub velocity: Vec2Fixed,
    /// Full health.
    pub stas: Stas,
    /// Masks of the hurt sensor (what can hurt this enemy).
    pub hurt_layers: CollisionLayers,
    /// Masks of the hit sensor (what this enemy can hurt).
    pub hit_layers: CollisionLayers,
}

/// Builds one enemy kind.
pub trait EnemySpawner: Sized {
    /// Describe the spawn of one enemy at `position`.
    fn spawn_enemy(&self, position: Vec3Fixed) -> EnemySpawn;
}

/// Builds the square enemy.
#[derive(Clone, Copy, Debug, PartialEq, Eq, Structural)]
pub struct SquareEnemySpawner;

/// What spawning a square enemy at `position` yields.
pub open spec fn spec_square_enemy_spawn(position: Vec3Fixed) -> EnemySpawn {
    EnemySpawn {
        position,
        body_layers: CollisionLayers {
            memberships: GameLayer::Enemy.spec_bit(),
            filters: GameLayer::Default.spec_bit() | GameLayer::Enemy.spec_bit()
                | GameLayer::Unit.spec_bit(),
        },
        velocity: Vec2Fixed { x: crate::fixed::Fixed { raw: 0 }, y: crate::fixed::Fixed { raw: 0 } },
        stas: Stas { health: 10, health_max: 10 },
        hurt_layers: CollisionLayers {
            memberships: GameLayer::EnemyHurtbox.spec_bit(),
            filters: GameLayer::UnitHitbox.spec_bit(),
        },
        hit_layers: CollisionLayers {
            memberships: GameLayer::Enemy.spec_bit(),
            filters: GameLayer::Unit.spec_bit(),
        },
    }
}

impl EnemySpawner for SquareEnemySpawner {
    fn spawn_enemy(&self, position: Vec3Fixed) -> (r: EnemySpawn)
        ensures
            r == spec_square_enemy_spawn(position),
    {
        EnemySpawn {
            position,
            body_layers: GameLayer::enemy_layers(),
            velocity: Vec2Fixed { x: crate::fixed::Fixed::zero(), y: crate::fixed::Fixed::zero() },
            stas: Stas::default(),
            hurt_layers: CollisionLayers { memberships: 16, filters: 8 },
            hit_layers: CollisionLayers { memberships: 4, filters: 2 },
        }
    }
}

/// An enemy spawner with its kind erased: one variant per spawner.
#[derive(Clone, Copy, Debug, PartialEq, Eq, Structural)]
pub enum EnemySpawnerKind {
    Square(SquareEnemySpawner),
}

impl EnemySpawnerKind {
    /// What this spawner yields at `position`.
    pub open spec fn spec_spawn(self, position: Vec3Fixed) -> EnemySpawn {
        match self {
            EnemySpawnerKind::Square(_) => spec_square_enemy_spawn(position),
        }
    }

    /// Describe the spawn of this spawner's enemy kind.
    pub fn spawn_enemy(&self, position: Vec3Fixed) -> (r: EnemySpawn)
        ensures
            r == self.spec_spawn(position),
    {
        match self {
            EnemySpawnerKind::Square(s) => s.spawn_enemy(position),
        }
    }
}

/// The registry of enemy spawners, keyed by enemy kind name.
#[derive(Debug)]
pub struct EnemySpawnerContainer(pub StringRegistry<EnemySpawnerKind>);

impl EnemySpawnerContainer {
    /// Well-formed: the underlying registry is.
    pub open spec fn wf(self) -> bool {
        self.0.wf()
    }

    /// The registered spawners, by name.
    pub open spec fn view(self) -> Map<Seq<char>, EnemySpawnerKind> {
        self.0@
    }

    /// The stock container: the square spawner under `square`.
    pub fn new() -> (r: Self)
        ensures
            r.wf(),
            r.view() == Map::<Seq<char>, EnemySpawnerKind>::empty().insert(
                "square"@,
                EnemySpawnerKind::Square(SquareEnemySpawner),
            ),
    {
        let mut container = Self::empty();
        container.register("square", EnemySpawnerKind::Square(SquareEnemySpawner));
        container
    }

    /// A container with no spawners.
    pub fn empty() -> (r: Self)
        ensures
            r.wf(),
            r.view() == Map::<Seq<char>, EnemySpawnerKind>::empty(),
    {
        EnemySpawnerContainer(StringRegistry::new())
    }

    /// Register a spawner under `name`, replacing any present one.
    pub fn register(&mut self, name: &str, spawner: EnemySpawnerKind)
        requires
            old(self).wf(),
        ensures
            final(self).wf(),
            final(self).view() == old(self).view().insert(name@, spawner),
    {
        self.0.insert(name, spawner);
    }

    /// Describe the spawn of the enemy kind named `enemy` at `position`;
    /// nothing when the name is not registered.
    pub fn spawn_enemy(&self, position: Vec3Fixed, enemy: &str) -> (r: Option<EnemySpawn>)
        requires
            self.wf(),
        ensures
            self.view().contains_key(enemy@) <==> r is Some,
            r matches Some(spawn) ==> spawn == self.view()[enemy@].spec_spawn(position),
    {
        match self.0.get(enemy) {
            Some(spawner) => Some(spawner.spawn_enemy(position)),
            None => None,
        }
    }
}

impl Default for EnemySpawnerContainer {
    fn default() -> (r: Self)
        ensures
            r.wf(),
            r.view() == Map::<Seq<char>, EnemySpawnerKind>::empty().insert(
                "square"@,
                EnemySpawnerKind::Square(SquareEnemySpawner),
            ),
    {
        Self::new()
    }
}

/// Which directed attack a collision-start report means: the enemy whose
/// hitbox shape collided, and the body it hit. Nothing when a body is
/// missing or neither side is an enemy's hitbox.
pub open spec fn spec_enemy_decision(
    enemies: Seq<EntityId>,
    hitboxes: Seq<EntityId>,
    event: CollisionStart,
) -> Option<(EntityId, EntityId)> {
    match (event.body1, event.body2) {
        (Some(b1), Some(b2)) => if hitboxes.contains(event.collider1) && enemies.contains(b1) {
            Some((b1, b2))
        } else if hitboxes.contains(event.collider2) && enemies.contains(b2) {
            Some((b2, b1))
        } else {
            None
        },
        _ => None,
    }
}

/// The stats and death set after one directed enemy attack: when the
/// attacker is an enemy and the victim has stats, the victim takes fixed
/// damage and, at zero health, joins the death set (once).
pub open spec fn spec_enemy_apply(
    enemies: Seq<EntityId>,
    stats: Seq<StasEntry>,
    die_set: Seq<EntityId>,
    enemy_entity: EntityId,
    stats_entity: EntityId,
) -> (Seq<StasEntry>, Seq<EntityId>) {
    if !enemies.contains(enemy_entity) {
        (stats, die_set)
    } else if spec_has_stas(stats, stats_entity) {
        let i = spec_stas_index(stats, stats_entity);
        let hurt = spec_damaged(stats[i].stas, -(ENEMY_DAMAGE as int));
        let stats1 = stats.update(i, StasEntry { id: stats_entity, stas: hurt });
        let die1 = if hurt.health == 0 && !die_set.contains(stats_entity) {
            die_set.push(stats_entity)
        } else {
            die_set
        };
        (stats1, die1)
    } else {
        (stats, die_set)
    }
}

/// The stats and death set after a batch of collision-start reports, each
/// resolved to a directed attack (or skipped) and applied in order.
pub open spec fn spec_enemy_attacks(
    enemies: Seq<EntityId>,
    hitboxes: Seq<EntityId>,
    events: Seq<CollisionStart>,
    stats: Seq<StasEntry>,
    die_set: Seq<EntityId>,
) -> (Seq<StasEntry>, Seq<EntityId>)
    decreases events.len(),
{
    if events.len() == 0 {
        (stats, die_set)
    } else {
        let r = spec_enemy_attacks(enemies, hitboxes, events.drop_last(), stats, die_set);
        match spec_enemy_decision(enemies, hitboxes, events.last()) {
            Some(pair) => spec_enemy_apply(enemies, r.0, r.1, pair.0, pair.1),
            None => r,
        }
    }
}

/// The queried world an enemy attack pass works on: which entities are
/// enemies, which shapes are attack sensors, and everyone's health.
#[derive(Debug)]
pub struct EnemyAttackSystemParam {
    /// The live enemies.
    pub enemies: Vec<EntityId>,
    /// The attack (hitbox) sensor shapes.
    pub hitboxes: Vec<EntityId>,
    /// Health stats of the attackable entities.
    pub stats: Vec<StasEntry>,
}

impl EnemyAttackSystemParam {
    /// Well-formed: the stats list is.
    pub open spec fn wf(self) -> bool {
        spec_stas_wf(self.stats@)
    }

    /// Decide which directed attack `event` means, exactly as
    /// [`spec_enemy_decision`] states it.
    pub fn handle_collision_start(&self, event: &CollisionStart) -> (r: Option<
        (EntityId, EntityId),
    >)
        ensures
            r == spec_enemy_decision(self.enemies@, self.hitboxes@, *event),
    {
        match (event.body1, event.body2) {
            (Some(b1), Some(b2)) => {
                if crate::skill::contains_entity(&self.hitboxes, event.collider1)
                    && crate::skill::contains_entity(&self.enemies, b1) {
                    Some((b1, b2))
                } else if crate::skill::contains_entity(&self.hitboxes, event.collider2)
                    && crate::skill::contains_entity(&self.enemies, b2) {
                    Some((b2, b1))
                } else {
                    None
                }
            },
            _ => None,
        }
    }

    /// Perform one directed enemy attack, exactly as [`spec_enemy_apply`]
    /// states it over this world's own stats.
    pub fn apply(&mut self, enemy_entity: EntityId, stats_entity: EntityId, die_set: &mut Vec<
        EntityId,
    >)
        requires
            old(self).wf(),
        ensures
            final(self).wf(),
            final(self).enemies@ == old(self).enemies@,
            final(self).hitboxes@ == old(self).hitboxes@,
            (final(self).stats@, final(die_set)@) == spec_enemy_apply(
                old(self).enemies@,
                old(self).stats@,
                old(die_set)@,
                enemy_entity,
                stats_entity,
            ),
    {
        if !crate::skill::contains_entity(&self.enemies, enemy_entity) {
            return ;
        }
        let n = self.stats.len();
        let mut i: usize = 0;
        while i < n
            invariant
                i <= n,
                n == self.stats@.len(),
                *self == *old(self),
                *die_set == *old(die_set),
                old(self).wf(),
                self.enemies@.contains(enemy_entity),
                forall|j: int| 0 <= j < i ==> (#[trigger] self.stats@[j]).id != stats_entity,
            decreases n - i,
        {
            if self.stats[i].id == stats_entity {
                proof {
                    assert(spec_has_stas(self.stats@, stats_entity));
                    let w = spec_stas_index(self.stats@, stats_entity);
                    if w != i as int {
                        assert(false);
                    }
                }
                let mut hurt = self.stats[i].stas;
                hurt.update_health(-ENEMY_DAMAGE);
                self.stats[i] = StasEntry { id: stats_entity, stas: hurt };
                proof {
                    assert forall|p: int, q: int|
                        0 <= p < q < self.stats@.len() implies self.stats@[p].id
                        != self.stats@[q].id by {
                        assert(old(self).stats@[p].id != old(self).stats@[q].id);
                    }
                    assert forall|p: int|
                        0 <= p < self.stats@.len() implies (#[trigger] self.stats@[p]).stas.wf() by {
                        if p != i as int {
                            assert(old(self).stats@[p].stas.wf());
                        }
                    }
                }
                if hurt.is_die() && !crate::skill::contains_entity(die_set, stats_entity) {
                    die_set.push(stats_entity);
                }
                proof {
                    let sd = spec_enemy_apply(
                        old(self).enemies@,
                        old(self).stats@,
                        old(die_set)@,
                        enemy_entity,
                        stats_entity,
                    );
                    assert(self.stats@ =~= sd.0);
                    assert(die_set@ =~= sd.1);
                }
                return ;
            }
            i = i + 1;
        }
        proof {
            if spec_has_stas(self.stats@, stats_entity) {
                let w = choose|w: int|
                    0 <= w < self.stats@.len() && self.stats@[w].id == stats_entity;
                assert(false);
            }
        }
    }

    /// Handle a frame's collision-start reports: each one that means an
    /// enemy attack damages the victim, and victims at zero health are
    /// gathered (once each) for despawning.
    pub fn on_enemy_attack(&mut self, events: &Vec<CollisionStart>) -> (die_set: Vec<EntityId>)
        requires
            old(self).wf(),
        ensures
            final(self).wf(),
            final(self).enemies@ == old(self).enemies@,
            final(self).hitboxes@ == old(self).hitboxes@,
            (final(self).stats@, die_set@) == spec_enemy_attacks(
                old(self).enemies@,
                old(self).hitboxes@,
                events@,
                old(self).stats@,
                Seq::<EntityId>::empty(),
            ),
    {
        let mut die_set: Vec<EntityId> = Vec::new();
        let n = events.len();
        let mut i: usize = 0;
        while i < n
            invariant
                i <= n,
                n == events@.len(),
                self.wf(),
                self.enemies@ == old(self).enemies@,
                self.hitboxes@ == old(self).hitboxes@,
                (self.stats@, die_set@) == spec_enemy_attacks(
                    old(self).enemies@,
                    old(self).hitboxes@,
                    events@.take(i as int),
                    old(self).stats@,
                    Seq::<EntityId>::empty(),
                ),
            decreases n - i,
        {
            proof {
                assert(events@.take(i + 1).drop_last() =~= events@.take(i as int));
                assert(events@.take(i + 1).last() == events@[i as int]);
            }
            let decision = self.handle_collision_start(&events[i]);
            match decision {
                Some((enemy_entity, stats_entity)) => {
                    self.apply(enemy_entity, stats_entity, &mut die_set);
                },
                None => {},
            }
            i = i + 1;
        }
        proof {
            assert(events@.take(n as int) =~= events@);
        }
        die_set
    }
}

} // verus!
