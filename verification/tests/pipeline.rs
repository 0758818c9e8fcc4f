use tower_core::arrow_tower::{on_cooldown_timer_update, EnemyPosition};
use tower_core::battle::{execute_skill, BulletContext, BulletSkillEffect, BulletSystemParam};
use tower_core::bullet::spawn_bullet;
use tower_core::common::{GameLayer, Vec2Fixed};
use tower_core::context::{SkillRunContextData, SkillRunContextDataBuilder, SkillValue};
use tower_core::fixed::Fixed;
use tower_core::skill::{
    collect_skill_commands, free_skill_runs, run_skill_frame, Skill, SkillCommand, SkillResponse,
    SkillRun,
};
use tower_core::unit::{CooldownTimer, EnemyTargets};

fn vec2(x: i64, y: i64) -> Vec2Fixed {
    Vec2Fixed {
        x: Fixed::from_int(x),
        y: Fixed::from_int(y),
    }
}

fn bullet_data(direction: Vec2Fixed, position: Vec2Fixed) -> SkillRunContextData {
    let context = BulletContext {
        direction,
        layers: GameLayer::unit_hitbox_layers(),
        bullet_position: position,
    };
    let mut data = SkillRunContextData::empty();
    context.update_skill_run_context_data(&mut data);
    data
}

#[test]
fn execute_skill_spawns_one_run_per_target() {
    let mut runs: Vec<SkillRun<BulletSkillEffect>> = Vec::new();
    let data = bullet_data(vec2(1, 0), vec2(0, 0));
    execute_skill(&mut runs, &Skill {}, 7, vec![21, 22, 23], Some(5), data);

    assert_eq!(runs.len(), 3);
    for (k, run) in runs.iter().enumerate() {
        assert_eq!(run.context.caster, 7);
        assert_eq!(run.context.source, Some(5));
        assert_eq!(run.context.target, 21 + k as u64);
        assert!(run.response.commands.is_empty());
    }
}

#[test]
fn frame_processes_decodable_runs_into_spawn_commands() {
    let mut runs: Vec<SkillRun<BulletSkillEffect>> = Vec::new();
    let data = bullet_data(vec2(2, -1), vec2(10, 20));
    execute_skill(&mut runs, &Skill {}, 1, vec![2], None, data);

    let mut processor = BulletSystemParam {};
    let commands = run_skill_frame(&mut processor, &mut runs);

    assert!(runs.is_empty());
    assert_eq!(
        commands,
        vec![SkillCommand::SpawnBullet {
            layers: GameLayer::unit_hitbox_layers(),
            direction: vec2(2, -1),
            position: vec2(10, 20),
        }]
    );
}

#[test]
fn undecodable_run_is_freed_without_executing_anything() {
    // The run's bag never receives the bullet fragment's fields.
    let mut runs: Vec<SkillRun<BulletSkillEffect>> = Vec::new();
    let mut data = SkillRunContextData::empty();
    data.set_value("unrelated", SkillValue::Integer(1));
    execute_skill(&mut runs, &Skill {}, 1, vec![2], None, data);

    let mut processor = BulletSystemParam {};
    let commands = run_skill_frame(&mut processor, &mut runs);

    // End of frame: the run entity is gone and no command ever executed.
    assert!(runs.is_empty());
    assert!(commands.is_empty());
}

#[test]
fn execute_phase_keeps_merge_order() {
    let mut runs: Vec<SkillRun<BulletSkillEffect>> = Vec::new();
    let data = bullet_data(vec2(1, 0), vec2(0, 0));
    execute_skill(&mut runs, &Skill {}, 1, vec![2, 3], None, data);
    runs[0].response.push(SkillCommand::Despawn(100));
    runs[1].response.push(SkillCommand::Despawn(200));
    runs[1].response.merge(SkillResponse {
        commands: vec![SkillCommand::Despawn(300)],
    });

    let commands = collect_skill_commands(&runs);
    assert_eq!(
        commands,
        vec![
            SkillCommand::Despawn(100),
            SkillCommand::Despawn(200),
            SkillCommand::Despawn(300)
        ]
    );

    free_skill_runs(&mut runs);
    assert!(runs.is_empty());
}

#[test]
fn tower_fires_at_first_tracked_target_only() {
    let mut runs: Vec<SkillRun<BulletSkillEffect>> = Vec::new();
    let mut timer = CooldownTimer::new(1000);
    let targets = EnemyTargets(vec![41, 42]);
    let positions = vec![
        EnemyPosition {
            id: 41,
            position: vec2(100, 0),
        },
        EnemyPosition {
            id: 42,
            position: vec2(1, 0),
        },
    ];

    // Cooldown just elapsed: exactly one run, aimed at the first tracked
    // target (insertion order), not the nearest.
    on_cooldown_timer_update(
        &mut runs,
        &mut timer,
        1000,
        &Skill {},
        9,
        &targets,
        vec2(0, 0),
        &positions,
    );

    assert_eq!(runs.len(), 1);
    assert_eq!(runs[0].context.target, 41);
    assert_eq!(runs[0].context.caster, 9);

    let context = BulletContext::from_skill_run_context_data(&runs[0].context.data).unwrap();
    assert_eq!(context.direction, vec2(100, 0));
    assert_eq!(context.bullet_position, vec2(0, 0));
    assert_eq!(context.layers, GameLayer::unit_hitbox_layers());
}

#[test]
fn tower_holds_fire_before_cooldown_and_without_targets() {
    let mut runs: Vec<SkillRun<BulletSkillEffect>> = Vec::new();
    let mut timer = CooldownTimer::new(1000);
    let targets = EnemyTargets(vec![41]);
    let positions = vec![EnemyPosition {
        id: 41,
        position: vec2(5, 5),
    }];

    on_cooldown_timer_update(
        &mut runs,
        &mut timer,
        999,
        &Skill {},
        9,
        &targets,
        vec2(0, 0),
        &positions,
    );
    assert!(runs.is_empty());
    assert_eq!(timer.elapsed_ms, 999);

    let empty_targets = EnemyTargets(Vec::new());
    on_cooldown_timer_update(
        &mut runs,
        &mut timer,
        1,
        &Skill {},
        9,
        &empty_targets,
        vec2(0, 0),
        &positions,
    );
    assert!(runs.is_empty());
    assert_eq!(timer.elapsed_ms, 0);
}

#[test]
fn bullet_spawn_scales_direction_by_speed() {
    let spawn = spawn_bullet(GameLayer::unit_hitbox_layers(), vec2(3, -2), vec2(7, 8));
    assert_eq!(spawn.velocity, vec2(300, -200));
    assert_eq!(spawn.position, vec2(7, 8));
    assert_eq!(spawn.body_layers, GameLayer::default_layers());
    assert_eq!(spawn.hit_layers, GameLayer::unit_hitbox_layers());
}

#[test]
fn repeating_cooldown_wraps_and_reports_expiry() {
    let mut timer = CooldownTimer::new(1000);
    assert!(!timer.tick(400));
    assert!(!timer.tick(400));
    assert!(timer.tick(400));
    assert_eq!(timer.elapsed_ms, 200);
    assert!(timer.tick(2800));
    assert_eq!(timer.elapsed_ms, 0);
}
