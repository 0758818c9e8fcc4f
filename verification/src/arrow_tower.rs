//! The arrow tower: target acquisition, pruning, and the cooldown-gated
//! decision to fire at the first tracked target.

use vstd::prelude::*;

use crate::battle::{execute_skill, BulletContext, BulletSkillEffect};
use crate::bullet::CollisionStart;
use crate::common::{GameLayer, Vec2Fixed};
use crate::context::{SkillRunContextData, SkillRunContextDataBuilder};
use crate::fixed::spec_sat64;
use crate::skill::{contains_entity, EntityId, Skill, SkillRun};
use crate::unit::{CooldownTimer, EnemyTargets, UnitData, UnitExtras, UnitFactory};

verus! {

/// Marker of a tower that shoots arrows at tracked enemies.
#[derive(Clone, Copy, Debug, PartialEq, Eq, Structural)]
pub struct ArrowTower;

/// Builds arrow towers.
#[derive(Clone, Copy, Debug, PartialEq, Eq, Structural)]
pub struct ArrowTowerFactory;

impl UnitFactory for ArrowTowerFactory {
    fn spawn(&self, _data: &UnitData) -> (r: UnitExtras)
        ensures
            r is ArrowTower,
    {
        UnitExtras::ArrowTower
    }
}

/// The position of one enemy, as the engine last reported it.
#[derive(Clone, Copy, Debug, PartialEq, Eq, Structural)]
pub struct EnemyPosition {
    pub id: EntityId,
    pub position: Vec2Fixed,
}

/// Whether some entry reports a position for `id`.
pub open spec fn spec_has_position(positions: Seq<EnemyPosition>, id: EntityId) -> bool {
    exists|i: int| 0 <= i < positions.len() && positions[i].id == id
}

/// The index of the entry reporting a position for `id`; meaningful only
/// when one exists (and then unique, ids being unique).
pub open spec fn spec_position_index(positions: Seq<EnemyPosition>, id: EntityId) -> int {
    choose|i: int| 0 <= i < positions.len() && positions[i].id == id
}

/// The tower's target list after a batch of collision-start reports: every
/// report whose first shape is one of the tower's range sensors and whose
/// second body is known appends that body, without deduplication.
pub open spec fn spec_acquired_targets(
    targets: Seq<EntityId>,
    events: Seq<CollisionStart>,
    sensors: Seq<EntityId>,
) -> Seq<EntityId>
    decreases events.len(),
{
    if events.len() == 0 {
        targets
    } else {
        let rest = spec_acquired_targets(targets, events.drop_last(), sensors);
        let e = events.last();
        if sensors.contains(e.collider1) {
            match e.body2 {
                Some(enemy) => rest.push(enemy),
                None => rest,
            }
        } else {
            rest
        }
    }
}

/// Track every enemy whose body triggered one of this tower's range sensors:
/// appended in report order, without deduplication, so a re-triggering enemy
/// is tracked more than once.
pub fn find_enemy(
    enemy_targets: &mut EnemyTargets,
    events: &Vec<CollisionStart>,
    sensors: &Vec<EntityId>,
)
    ensures
        final(enemy_targets).0@ == spec_acquired_targets(old(enemy_targets).0@, events@, sensors@),
{
    let ghost old_targets = enemy_targets.0@;
    let n = events.len();
    let mut i: usize = 0;
    while i < n
        invariant
            i <= n,
            n == events@.len(),
            enemy_targets.0@ == spec_acquired_targets(old_targets, events@.take(i as int), sensors@),
        decreases n - i,
    {
        proof {
            assert(events@.take(i + 1).drop_last() =~= events@.take(i as int));
            assert(events@.take(i + 1).last() == events@[i as int]);
        }
        if contains_entity(sensors, events[i].collider1) {
            match events[i].body2 {
                Some(enemy) => {
                    enemy_targets.0.push(enemy);
                },
                None => {},
            }
        }
        i = i + 1;
    }
    proof {
        assert(events@.take(n as int) =~= events@);
    }
}

/// One fixed-step tick of a tower: advance the cooldown and, when it
/// elapses with at least one tracked target, start one bullet skill run at
/// the first tracked target (insertion order, not distance). The run's bag
/// holds the bullet fragment: the tower-to-target offset as direction, the
/// unit hitbox masks, and the tower's position as spawn point.
pub fn on_cooldown_timer_update(
    runs: &mut Vec<SkillRun<BulletSkillEffect>>,
    cooldown_timer: &mut CooldownTimer,
    delta_ms: u64,
    skill: &Skill,
    entity: EntityId,
    enemy_targets: &EnemyTargets,
    unit_position: Vec2Fixed,
    enemy_positions: &Vec<EnemyPosition>,
)
    requires
        old(cooldown_timer).wf(),
        forall|i: int, j: int|
            0 <= i < j < enemy_positions@.len() ==> enemy_positions@[i].id
                != enemy_positions@[j].id,
        old(cooldown_timer).elapsed_ms + delta_ms >= old(cooldown_timer).duration_ms
            && enemy_targets.0@.len() > 0 ==> spec_has_position(
            enemy_positions@,
            enemy_targets.0@[0],
        ),
    ensures
        final(cooldown_timer).wf(),
        final(cooldown_timer).duration_ms == old(cooldown_timer).duration_ms,
        final(cooldown_timer).elapsed_ms == (old(cooldown_timer).elapsed_ms + delta_ms) % (
        old(cooldown_timer).duration_ms as int),
        old(cooldown_timer).elapsed_ms + delta_ms < old(cooldown_timer).duration_ms
            || enemy_targets.0@.len() == 0 ==> final(runs)@ == old(runs)@,
        old(cooldown_timer).elapsed_ms + delta_ms >= old(cooldown_timer).duration_ms
            && enemy_targets.0@.len() > 0 ==> final(runs)@.len() == old(runs)@.len() + 1 && (forall|
            k: int|
            0 <= k < old(runs)@.len() ==> final(runs)@[k] == old(runs)@[k]) && spec_fired_run(
            final(runs)@.last(),
            entity,
            enemy_targets.0@[0],
            unit_position,
            enemy_positions@,
        ),
{
    let just_finished = cooldown_timer.tick(delta_ms);
    if just_finished {
        if enemy_targets.0.len() == 0 {
            return ;
        }
        let target = enemy_targets.0[0];
        let target_position = find_position(enemy_positions, target);
        let direction = Vec2Fixed {
            x: target_position.x.sub(unit_position.x),
            y: target_position.y.sub(unit_position.y),
        };
        let context = BulletContext {
            layers: GameLayer::unit_hitbox_layers(),
            direction,
            bullet_position: unit_position,
        };
        let mut data = SkillRunContextData::empty();
        context.update_skill_run_context_data(&mut data);
        let targets = vec![target];
        proof {
            assert(targets@ =~= seq![target]);
        }
        let ghost runs_before = runs@;
        execute_skill(runs, skill, entity, targets, None, data);
        proof {
            assert(runs@.len() == runs_before.len() + 1);
            let run = runs@[runs_before.len() as int + 0];
            assert(runs@.last() == run);
            let tp = enemy_positions@[spec_position_index(
                enemy_positions@,
                enemy_targets.0@[0],
            )].position;
            assert(run.context.data@ == context.spec_encode(Map::empty()));
            assert(direction.x.raw == spec_sat64(
                tp.x.as_milli() - unit_position.x.as_milli(),
            ) as i64);
            assert(direction.y.raw == spec_sat64(
                tp.y.as_milli() - unit_position.y.as_milli(),
            ) as i64);
            assert(spec_fired_run(
                run,
                entity,
                enemy_targets.0@[0],
                unit_position,
                enemy_positions@,
            ));
        }
    }
}

/// What the run fired at `target` holds: caster, target, no source, an empty
/// response, and a bag holding exactly the bullet fragment with the
/// tower-to-target offset, the unit hitbox masks, and the tower's position.
pub open spec fn spec_fired_run(
    run: SkillRun<BulletSkillEffect>,
    entity: EntityId,
    target: EntityId,
    unit_position: Vec2Fixed,
    positions: Seq<EnemyPosition>,
) -> bool {
    let target_position = positions[spec_position_index(positions, target)].position;
    &&& run.context.caster == entity
    &&& run.context.target == target
    &&& run.context.source is None
    &&& run.response.commands@.len() == 0
    &&& run.context.data.wf()
    &&& run.context.data@ == BulletContext {
        layers: crate::common::CollisionLayers {
            memberships: GameLayer::UnitHitbox.spec_bit(),
            filters: GameLayer::EnemyHurtbox.spec_bit(),
        },
        direction: Vec2Fixed {
            x: crate::fixed::Fixed {
                raw: spec_sat64(
                    target_position.x.as_milli() - unit_position.x.as_milli(),
                ) as i64,
            },
            y: crate::fixed::Fixed {
                raw: spec_sat64(
                    target_position.y.as_milli() - unit_position.y.as_milli(),
                ) as i64,
            },
        },
        bullet_position: unit_position,
    }.spec_encode(Map::empty())
}

/// The reported position of `id`.
fn find_position(positions: &Vec<EnemyPosition>, id: EntityId) -> (r: Vec2Fixed)
    requires
        spec_has_position(positions@, id),
        forall|i: int, j: int|
            0 <= i < j < positions@.len() ==> positions@[i].id != positions@[j].id,
    ensures
        r == positions@[spec_position_index(positions@, id)].position,
        positions@[spec_position_index(positions@, id)].id == id,
{
    let n = positions.len();
    let mut i: usize = 0;
    while i < n
        invariant
            i <= n,
            n == positions@.len(),
            spec_has_position(positions@, id),
            forall|p: int, q: int|
                0 <= p < q < positions@.len() ==> positions@[p].id != positions@[q].id,
            forall|j: int| 0 <= j < i ==> (#[trigger] positions@[j]).id != id,
        decreases n - i,
    {
        if positions[i].id == id {
            proof {
                let w = spec_position_index(positions@, id);
                assert(0 <= w < positions@.len() && positions@[w].id == id);
                if w != i as int {
                    assert(false);
                }
            }
            return positions[i].position;
        }
        i = i + 1;
    }
    proof {
        let w = choose|w: int| 0 <= w < positions@.len() && positions@[w].id == id;
        assert(false);
    }
    unreached()
}

} // verus!
