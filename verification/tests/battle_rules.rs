use tower_core::bullet::{apply, on_bullet_attack, CollisionStart, StasEntry};
use tower_core::common::Stas;
use tower_core::enemy::EnemyAttackSystemParam;

fn hit(body1: u64, body2: u64) -> CollisionStart {
    CollisionStart {
        collider1: body1,
        collider2: body2,
        body1: Some(body1),
        body2: Some(body2),
    }
}

#[test]
fn bullet_hit_damages_then_kills_and_always_dies_itself() {
    let bullets = vec![500u64];
    let mut stats = vec![StasEntry {
        id: 7,
        stas: Stas {
            health: 10,
            health_max: 10,
        },
    }];
    let mut despawn: Vec<u64> = Vec::new();

    // First hit: health 10 -> 5, target alive, bullet despawned.
    apply(&bullets, &mut stats, &mut despawn, 500, 7);
    assert_eq!(stats[0].stas.health, 5);
    assert!(!stats[0].stas.is_die());
    assert_eq!(despawn, vec![500]);

    // Second hit: health 5 -> 0, target despawned too.
    let mut despawn: Vec<u64> = Vec::new();
    apply(&bullets, &mut stats, &mut despawn, 500, 7);
    assert_eq!(stats[0].stas.health, 0);
    assert!(stats[0].stas.is_die());
    assert_eq!(despawn, vec![7, 500]);
}

#[test]
fn bullet_dies_even_against_an_invalid_target() {
    let bullets = vec![500u64];
    let mut stats: Vec<StasEntry> = Vec::new();
    let mut despawn: Vec<u64> = Vec::new();

    apply(&bullets, &mut stats, &mut despawn, 500, 9999);
    assert_eq!(despawn, vec![500]);
}

#[test]
fn non_bullet_collisions_change_nothing() {
    let bullets = vec![500u64];
    let mut stats = vec![StasEntry {
        id: 7,
        stas: Stas {
            health: 10,
            health_max: 10,
        },
    }];
    let mut despawn: Vec<u64> = Vec::new();

    apply(&bullets, &mut stats, &mut despawn, 600, 7);
    assert_eq!(stats[0].stas.health, 10);
    assert!(despawn.is_empty());
}

#[test]
fn bullet_attack_pass_tries_both_directions() {
    let bullets = vec![500u64];
    let mut stats = vec![StasEntry {
        id: 7,
        stas: Stas {
            health: 10,
            health_max: 10,
        },
    }];
    let mut despawn: Vec<u64> = Vec::new();

    // The report lists the target first; the pass still finds the bullet.
    let events = vec![hit(7, 500)];
    on_bullet_attack(&events, &bullets, &mut stats, &mut despawn);
    assert_eq!(stats[0].stas.health, 5);
    assert_eq!(despawn, vec![500]);

    // A report with a missing body is skipped.
    let events = vec![CollisionStart {
        collider1: 500,
        collider2: 7,
        body1: None,
        body2: Some(7),
    }];
    on_bullet_attack(&events, &bullets, &mut stats, &mut despawn);
    assert_eq!(stats[0].stas.health, 5);
}

#[test]
fn health_clamps_at_zero_and_at_its_bound() {
    let mut stas = Stas {
        health: 3,
        health_max: 10,
    };
    stas.update_health(-5);
    assert_eq!(stas.health, 0);
    assert!(stas.is_die());

    stas.update_health(25);
    assert_eq!(stas.health, 10);
    assert!(!stas.is_die());
}

#[test]
fn enemy_attack_resolves_direction_and_gathers_deaths_once() {
    let mut param = EnemyAttackSystemParam {
        enemies: vec![40],
        hitboxes: vec![400],
        stats: vec![StasEntry {
            id: 8,
            stas: Stas {
                health: 10,
                health_max: 10,
            },
        }],
    };

    // Two hits in one pass: 10 -> 5 -> 0; the victim appears once.
    let event = CollisionStart {
        collider1: 400,
        collider2: 8,
        body1: Some(40),
        body2: Some(8),
    };
    let die_set = param.on_enemy_attack(&vec![event, event]);
    assert_eq!(param.stats[0].stas.health, 0);
    assert_eq!(die_set, vec![8]);

    // A collision not involving an enemy hitbox decides nothing.
    let unrelated = CollisionStart {
        collider1: 900,
        collider2: 8,
        body1: Some(40),
        body2: Some(8),
    };
    assert_eq!(param.handle_collision_start(&unrelated), None);
    // The reversed report resolves to the enemy as attacker.
    let reversed = CollisionStart {
        collider1: 8,
        collider2: 400,
        body1: Some(8),
        body2: Some(40),
    };
    assert_eq!(param.handle_collision_start(&reversed), Some((40, 8)));
}
