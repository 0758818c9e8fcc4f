//! Projectiles and what happens when they hit something with health.
//!
//! Spawning is described as data (the engine performs it): a bullet flies
//! with a fixed speed along its direction and carries a hit sensor. On a
//! collision-start between a bullet and an entity with health stats, the
//! target takes fixed damage and is despawned at zero health; the bullet is
//! despawned on any hit, whatever the target was.

use vstd::prelude::*;

use crate::common::{CollisionLayers, GameLayer, Stas, Vec2Fixed};

use crate::fixed::{spec_clamp, spec_div_trunc, spec_sat64, Fixed, FIXED_SCALE};
use crate::skill::{contains_entity, EntityId};

verus! {

/// Marker of a projectile entity.
#[derive(Clone, Copy, Debug, PartialEq, Eq, Structural)]
pub struct Bullet;

/// Units a bullet flies per second along its direction.
pub const BULLET_SPEED: i64 = 100;

/// Damage one bullet hit inflicts.
pub const BULLET_DAMAGE: i32 = 5;

/// Everything the engine needs to spawn one bullet: the body's masks and
/// velocity, where it starts, and the masks of its hit sensor.
#[derive(Clone, Copy, Debug, PartialEq, Eq, Structural)]
pub struct BulletSpawn {
    /// Masks of the projectile body itself.
    pub body_layers: CollisionLayers,
    /// Velocity: the direction scaled by the bullet speed.
    pub velocity: Vec2Fixed,
    /// Start position.
    pub position: Vec2Fixed,
    /// Masks of the hit sensor, restricting what the bullet can hurt.
    pub hit_layers: CollisionLayers,
}

/// One coordinate of a direction scaled by the bullet speed.
pub open spec fn spec_bullet_velocity(c: Fixed) -> int {
    spec_sat64(
        spec_div_trunc(c.as_milli() * spec_sat64(BULLET_SPEED * FIXED_SCALE), FIXED_SCALE as int),
    )
}

/// Describe the bullet to spawn: a kinematic body on the default layers,
/// flying at the fixed bullet speed along `direction` from
/// `bullet_position`, hitting only what `layers` admits.
pub fn spawn_bullet(
    layers: CollisionLayers,
    direction: Vec2Fixed,
    bullet_position: Vec2Fixed,
) -> (r: BulletSpawn)
    ensures
        r.body_layers.memberships == GameLayer::Default.spec_bit(),
        r.body_layers.filters == GameLayer::Default.spec_bit() | GameLayer::Enemy.spec_bit()
            | GameLayer::Unit.spec_bit(),
        r.velocity.x.as_milli() == spec_bullet_velocity(direction.x),
        r.velocity.y.as_milli() == spec_bullet_velocity(direction.y),
        r.position == bullet_position,
        r.hit_layers == layers,
{
    let speed = Fixed::from_int(BULLET_SPEED);
    BulletSpawn {
        body_layers: GameLayer::default_layers(),
        velocity: Vec2Fixed { x: direction.x.mul(speed), y: direction.y.mul(speed) },
        position: bullet_position,
        hit_layers: layers,
    }
}

/// A collision-start report from the physics collaborator: the two colliding
/// shapes and, where known, the bodies owning them.
#[derive(Clone, Copy, Debug, PartialEq, Eq, Structural)]
pub struct CollisionStart {
    pub collider1: EntityId,
    pub collider2: EntityId,
    pub body1: Option<EntityId>,
    pub body2: Option<EntityId>,
}

/// The health stats of one entity.
#[derive(Clone, Copy, Debug, PartialEq, Eq, Structural)]
pub struct StasEntry {
    pub id: EntityId,
    pub stas: Stas,
}

/// Pairwise distinct ids, every entry's stats well-formed.
pub open spec fn spec_stas_wf(stats: Seq<StasEntry>) -> bool {
    &&& forall|i: int, j: int| 0 <= i < j < stats.len() ==> stats[i].id != stats[j].id
    &&& forall|i: int| 0 <= i < stats.len() ==> (#[trigger] stats[i]).stas.wf()
}

/// Whether some entry carries `id`.
pub open spec fn spec_has_stas(stats: Seq<StasEntry>, id: EntityId) -> bool {
    exists|i: int| 0 <= i < stats.len() && stats[i].id == id
}

/// The index of the entry carrying `id`; meaningful only when present.
pub open spec fn spec_stas_index(stats: Seq<StasEntry>, id: EntityId) -> int {
    choose|i: int| 0 <= i < stats.len() && stats[i].id == id
}

/// Stats after a health shift of `amount`, clamped into `[0, health_max]`.
pub open spec fn spec_damaged(s: Stas, amount: int) -> Stas
    recommends
        s.wf(),
{
    Stas {
        health: spec_clamp(s.health + amount, 0, s.health_max as int) as i32,
        health_max: s.health_max,
    }
}

/// The outcome of one directed bullet hit: the stats list and despawn list
/// after `bullet_entity` (if it is a bullet) has damaged `stats_entity` (if
/// it has stats). The target is despawned at zero health; the bullet is
/// despawned whenever it is a bullet, whatever the target was.
pub open spec fn spec_apply_hit(
    bullets: Seq<EntityId>,
    stats: Seq<StasEntry>,
    despawn: Seq<EntityId>,
    bullet_entity: EntityId,
    stats_entity: EntityId,
) -> (Seq<StasEntry>, Seq<EntityId>) {
    if !bullets.contains(bullet_entity) {
        (stats, despawn)
    } else {
        if spec_has_stas(stats, stats_entity) {
            let i = spec_stas_index(stats, stats_entity);
            let hurt = spec_damaged(stats[i].stas, -(BULLET_DAMAGE as int));
            let stats1 = stats.update(i, StasEntry { id: stats_entity, stas: hurt });
            let despawn1 = if hurt.health == 0 {
                despawn.push(stats_entity)
            } else {
                despawn
            };
            (stats1, despawn1.push(bullet_entity))
        } else {
            (stats, despawn.push(bullet_entity))
        }
    }
}

/// Perform one directed bullet hit, exactly as [`spec_apply_hit`] states it.
pub fn apply(
    bullets: &Vec<EntityId>,
    stats: &mut Vec<StasEntry>,
    despawn: &mut Vec<EntityId>,
    bullet_entity: EntityId,
    stats_entity: EntityId,
)
    requires
        spec_stas_wf(old(stats)@),
    ensures
        spec_stas_wf(final(stats)@),
        (final(stats)@, final(despawn)@) == spec_apply_hit(
            bullets@,
            old(stats)@,
            old(despawn)@,
            bullet_entity,
            stats_entity,
        ),
{
    if !contains_entity(bullets, bullet_entity) {
        return ;
    }
    let n = stats.len();
    let mut i: usize = 0;
    while i < n
        invariant
            i <= n,
            n == stats@.len(),
            *stats == *old(stats),
            *despawn == *old(despawn),
            spec_stas_wf(stats@),
            bullets@.contains(bullet_entity),
            forall|j: int| 0 <= j < i ==> (#[trigger] stats@[j]).id != stats_entity,
        decreases n - i,
    {
        if stats[i].id == stats_entity {
            proof {
                assert(spec_has_stas(stats@, stats_entity));
                let w = spec_stas_index(stats@, stats_entity);
                if w != i as int {
                    assert(false);
                }
            }
            let mut hurt = stats[i].stas;
            hurt.update_health(-BULLET_DAMAGE);
            stats[i] = StasEntry { id: stats_entity, stas: hurt };
            proof {
                assert forall|p: int, q: int|
                    0 <= p < q < stats@.len() implies stats@[p].id != stats@[q].id by {
                    assert(old(stats)@[p].id != old(stats)@[q].id);
                }
                assert forall|p: int|
                    0 <= p < stats@.len() implies (#[trigger] stats@[p]).stas.wf() by {
                    if p != i as int {
                        assert(old(stats)@[p].stas.wf());
                    }
                }
            }
            if hurt.is_die() {
                despawn.push(stats_entity);
            }
            despawn.push(bullet_entity);
            proof {
                let sd = spec_apply_hit(
                    bullets@,
                    old(stats)@,
                    old(despawn)@,
                    bullet_entity,
                    stats_entity,
                );
                assert(stats@ =~= sd.0);
                assert(despawn@ =~= sd.1);
            }
            return ;
        }
        i = i + 1;
    }
    proof {
        if spec_has_stas(stats@, stats_entity) {
            let w = choose|w: int| 0 <= w < stats@.len() && stats@[w].id == stats_entity;
            assert(false);
        }
    }
    despawn.push(bullet_entity);
    proof {
        let sd = spec_apply_hit(bullets@, old(stats)@, old(despawn)@, bullet_entity, stats_entity);
        assert(stats@ =~= sd.0);
        assert(despawn@ =~= sd.1);
    }
}

/// The stats and despawn lists after a batch of collision-start reports:
/// each report with both bodies known is tried in both directions, first
/// body one hitting body two, then the reverse.
pub open spec fn spec_bullet_attacks(
    events: Seq<CollisionStart>,
    bullets: Seq<EntityId>,
    stats: Seq<StasEntry>,
    despawn: Seq<EntityId>,
) -> (Seq<StasEntry>, Seq<EntityId>)
    decreases events.len(),
{
    if events.len() == 0 {
        (stats, despawn)
    } else {
        let (stats1, despawn1) = spec_bullet_attacks(events.drop_last(), bullets, stats, despawn);
        let e = events.last();
        match (e.body1, e.body2) {
            (Some(b1), Some(b2)) => {
                let (stats2, despawn2) = spec_apply_hit(bullets, stats1, despawn1, b1, b2);
                spec_apply_hit(bullets, stats2, despawn2, b2, b1)
            },
            _ => (stats1, despawn1),
        }
    }
}

/// Handle a frame's collision-start reports: bullets damage what they hit
/// and die on any hit; entities at zero health are marked for despawn.
pub fn on_bullet_attack(
    events: &Vec<CollisionStart>,
    bullets: &Vec<EntityId>,
    stats: &mut Vec<StasEntry>,
    despawn: &mut Vec<EntityId>,
)
    requires
        spec_stas_wf(old(stats)@),
    ensures
        spec_stas_wf(final(stats)@),
        (final(stats)@, final(despawn)@) == spec_bullet_attacks(
            events@,
            bullets@,
            old(stats)@,
            old(despawn)@,
        ),
{
    let n = events.len();
    let mut i: usize = 0;
    while i < n
        invariant
            i <= n,
            n == events@.len(),
            spec_stas_wf(stats@),
            (stats@, despawn@) == spec_bullet_attacks(
                events@.take(i as int),
                bullets@,
                old(stats)@,
                old(despawn)@,
            ),
        decreases n - i,
    {
        proof {
            assert(events@.take(i + 1).drop_last() =~= events@.take(i as int));
            assert(events@.take(i + 1).last() == events@[i as int]);
        }
        let e = &events[i];
        match (e.body1, e.body2) {
            (Some(b1), Some(b2)) => {
                apply(bullets, stats, despawn, b1, b2);
                apply(bullets, stats, despawn, b2, b1);
            },
            _ => {},
        }
        i = i + 1;
    }
    proof {
        assert(events@.take(n as int) =~= events@);
    }
}

} // verus!
