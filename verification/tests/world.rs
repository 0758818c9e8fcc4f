use tower_core::common::{Vec2Fixed, Vec3Fixed};
use tower_core::enemy::EnemySpawnerContainer;
use tower_core::fixed::Fixed;
use tower_core::item_data_factory::{MapItemFactoryContainer, MapItemSpawn};
use tower_core::lair::SquareLarir;
use tower_core::level::{Level, UnitDataButton, UnitDataCollection, UsedCooldownTimer,
    update_used_cooldown_timer};
use tower_core::map::{
    get_item_position, get_item_position_i, spawn_map, GameMap, MapData, MapEnvironment,
    MapItemData, MapState, update_map_position,
};
use tower_core::navigator::NavigatorPath;
use tower_core::product::ProductMeta;
use tower_core::unit::{spawn_unit, EnemyTargets, UnitData, UnitExtras, UnitFactoryContainer};

fn vec3(x: i64, y: i64, z: i64) -> Vec3Fixed {
    Vec3Fixed {
        x: Fixed::from_int(x),
        y: Fixed::from_int(y),
        z: Fixed::from_int(z),
    }
}

#[test]
fn fixed_point_arithmetic_is_exact() {
    let a = Fixed::from_milli(2500);
    let b = Fixed::from_int(4);
    assert_eq!(a.add(b).to_int(), 6);
    assert_eq!(a.mul(b).to_int(), 10);
    assert_eq!(a.sub(b).to_int(), -1);
    assert_eq!(Fixed::from_milli(-1500).to_int(), -1);
    assert_eq!(Fixed::from_milli(1999).to_int(), 1);
    assert_eq!(
        a.clamp(Fixed::from_int(0), Fixed::from_int(2)).to_int(),
        2
    );

    // Sums and conversions saturate at the representable ends.
    assert_eq!(Fixed::from_milli(i64::MAX).add(Fixed::from_milli(1)).raw, i64::MAX);
    assert_eq!(Fixed::from_milli(i64::MIN).sub(Fixed::from_milli(1)).raw, i64::MIN);
    assert_eq!(Fixed::from_int(i64::MAX).raw, i64::MAX);
    assert_eq!(Fixed::from_int(-5).to_u32(), 0);
}

#[test]
fn registering_under_a_taken_name_replaces() {
    let mut container = EnemySpawnerContainer::empty();
    container.register(
        "square",
        tower_core::enemy::EnemySpawnerKind::Square(tower_core::enemy::SquareEnemySpawner),
    );
    container.register(
        "square",
        tower_core::enemy::EnemySpawnerKind::Square(tower_core::enemy::SquareEnemySpawner),
    );
    assert!(container.spawn_enemy(vec3(0, 0, 0), "square").is_some());
    assert_eq!(container.0.entries.len(), 1);
}

#[test]
fn grid_positions_match_the_floor_rule() {
    let p = get_item_position(3, -2);
    assert_eq!(p.x.to_int(), 1 + 3 * 128);
    assert_eq!(p.y.to_int(), -1 + -2 * 128);

    // The column rule undoes the one-unit inset, so x round-trips; the row
    // rule is a plain floor, so the inset pushes -257 down to cell -3.
    let cell = get_item_position_i(p.x, p.y);
    assert_eq!(cell.x, 3);
    assert_eq!(cell.y, -3);

    let (hovered, world) = update_map_position(Vec2Fixed {
        x: Fixed::from_int(130),
        y: Fixed::from_int(-130),
    });
    assert_eq!(hovered.x, 1);
    assert_eq!(hovered.y, -1);
    assert_eq!(world.x.to_int(), 129);
    assert_eq!(world.y.to_int(), -129);
}

#[test]
fn stock_map_plans_hills_and_a_bonfire() {
    let map_data = MapData::default();
    let map = GameMap::default();
    let units = UnitFactoryContainer::default();

    let plan = spawn_map(&map_data, &map, &units);
    assert_eq!(plan.background_size.x.to_int(), 25 * 128);
    assert_eq!(plan.items.len(), 9);
    for planned in &plan.items[0..8] {
        assert!(matches!(planned, Some(MapItemSpawn::Hill(_))));
    }
    // The bonfire unit is a stored item, but no `bonfire` unit factory is
    // registered in the stock container, so its spawn is skipped.
    assert!(plan.items[8].is_none());
}

#[test]
fn unknown_names_are_skipped_not_errors() {
    let units = UnitFactoryContainer::default();
    let data = UnitData {
        item_name: "catapult".to_string(),
        image: "none".to_string(),
    };
    assert!(spawn_unit(vec3(0, 0, 0), &data, &units).is_none());

    let arrow = UnitData {
        item_name: "arrow_tower".to_string(),
        image: "TemporaryArrowTower".to_string(),
    };
    let spawned = spawn_unit(vec3(0, 0, 0), &arrow, &units).unwrap();
    assert!(matches!(spawned.extras, UnitExtras::ArrowTower));

    let enemies = EnemySpawnerContainer::default();
    assert!(enemies.spawn_enemy(vec3(0, 0, 0), "circle").is_none());
    assert!(enemies.spawn_enemy(vec3(0, 0, 0), "square").is_some());

    let factories = MapItemFactoryContainer::default();
    let mut item = MapItemData::default();
    item.name = "volcano".to_string();
    assert!(factories
        .spawn_map_item(&item, vec3(0, 0, 0), &units)
        .is_none());
}

#[test]
fn lair_spawns_a_square_enemy_on_each_expiry() {
    let mut lair = SquareLarir::default();
    let environment = MapEnvironment::default();

    assert!(lair.process(999, vec3(1, 2, 0), &environment).is_none());
    let spawned = lair.process(1, vec3(1, 2, 0), &environment).unwrap();
    assert_eq!(spawned.position, vec3(1, 2, 0));
    assert_eq!(spawned.stas.health, 10);

    // A lair without registered spawners expires without spawning.
    let mut bare = SquareLarir::empty();
    assert!(bare.process(1000, vec3(0, 0, 0), &environment).is_none());
}

#[test]
fn environment_reads_unknown_properties_as_zero() {
    let mut environment = MapEnvironment::default();
    assert_eq!(environment.get_property("test"), 0);

    let mut attribute = tower_core::attribute::SkillAttribute::default();
    attribute.name = "test".to_string();
    attribute.update_base_value(Fixed::from_int(3));
    environment.0.add_skill_attribute(attribute);
    assert_eq!(environment.get_property("test"), 3);
}

#[test]
fn level_collects_only_resolvable_sunlight() {
    let mut level = Level::default();

    // The registered processor answers to `sunlight` announcements but only
    // accepts ones named `Sunlight`, so the stock announcement is skipped.
    let stock = ProductMeta {
        name: "sunlight".to_string(),
        value: Fixed::from_int(10),
    };
    level.collect_product(&vec![stock]);
    assert_eq!(level.collection.sunlight, 0);

    // An announcement the processor accepts needs a registration under the
    // accepted name too.
    level.product_system.register_processor(
        "Sunlight",
        tower_core::product::ErasedProductProcessor::Sunlight(
            tower_core::product::SunlightProductProcessor,
        ),
    );
    let accepted = ProductMeta {
        name: "Sunlight".to_string(),
        value: Fixed::from_int(10),
    };
    level.collect_product(&vec![accepted.clone(), accepted]);
    assert_eq!(level.collection.sunlight, 20);
}

#[test]
fn palette_button_press_selects_and_disables() {
    let collection = UnitDataCollection::default();
    let mut button = UnitDataButton {
        unit_data: collection.items[0].clone(),
        disabled: false,
    };
    let mut map_state = MapState::default();

    assert!(button.press(&mut map_state));
    assert!(button.disabled);
    let selected = map_state.selelcted_map_item_data.as_ref().unwrap();
    assert_eq!(selected.name.as_str(), "unit");
    assert_eq!(selected.unit_item_name.as_str(), "arrow_tower");

    // A disabled button ignores presses.
    map_state.selelcted_map_item_data = None;
    assert!(!button.press(&mut map_state));
    assert!(map_state.selelcted_map_item_data.is_none());

    // The one-shot timer re-enables it when the wait ends.
    let mut timer = UsedCooldownTimer::new(10);
    assert!(!update_used_cooldown_timer(&mut timer, 9_999, &mut button));
    assert!(button.disabled);
    assert!(update_used_cooldown_timer(&mut timer, 1, &mut button));
    assert!(!button.disabled);
    assert!(!update_used_cooldown_timer(&mut timer, 1000, &mut button));
}

#[test]
fn placement_stamps_the_selected_item_onto_the_cell() {
    let mut map_state = MapState::default();
    let unit_data = UnitData {
        item_name: "arrow_tower".to_string(),
        image: "TemporaryArrowTower".to_string(),
    };
    map_state.selelcted_map_item_data = Some(MapItemData::from_unit_data(&unit_data));
    map_state.enable = true;

    let (placed, world) = map_state
        .on_spawn_unit(tower_core::map::MapPosition { x: 2, y: 3 })
        .unwrap();
    assert_eq!(placed.x, 2);
    assert_eq!(placed.y, 3);
    assert_eq!(placed.unit_item_name.as_str(), "arrow_tower");
    assert_eq!(world.x.to_int(), 1 + 2 * 128);
    assert!(!map_state.enable);
    assert!(map_state.selelcted_map_item_data.is_none());

    // With placing disabled, a click changes nothing.
    assert!(map_state
        .on_spawn_unit(tower_core::map::MapPosition { x: 0, y: 0 })
        .is_none());
}

#[test]
fn target_list_prunes_dead_and_appends_in_order() {
    let mut targets = EnemyTargets(vec![1, 2, 3, 2]);
    targets.retain_live(&vec![2, 3]);
    assert_eq!(targets.0, vec![2, 3, 2]);

    let sensors = vec![77u64];
    let events = vec![
        tower_core::bullet::CollisionStart {
            collider1: 77,
            collider2: 5,
            body1: None,
            body2: Some(9),
        },
        tower_core::bullet::CollisionStart {
            collider1: 88,
            collider2: 5,
            body1: None,
            body2: Some(10),
        },
        // The same enemy can re-trigger the sensor and be tracked twice.
        tower_core::bullet::CollisionStart {
            collider1: 77,
            collider2: 5,
            body1: None,
            body2: Some(9),
        },
    ];
    tower_core::arrow_tower::find_enemy(&mut targets, &events, &sensors);
    assert_eq!(targets.0, vec![2, 3, 2, 9, 9]);
}

#[test]
fn navigator_path_heads_for_first_and_reverses_rest() {
    let mut path = NavigatorPath::default();
    let waypoints = vec![vec3(1, 0, 0), vec3(2, 0, 0), vec3(3, 0, 0)];
    path.set_from_path(&waypoints);
    assert_eq!(path.current, vec3(1, 0, 0));
    assert_eq!(path.next, vec![vec3(3, 0, 0), vec3(2, 0, 0)]);

    // An empty path leaves the previous one in place.
    path.set_from_path(&Vec::new());
    assert_eq!(path.current, vec3(1, 0, 0));
    assert_eq!(path.next.len(), 2);
}

#[test]
fn bonfire_emits_its_products_once_ready() {
    let bonfire = tower_core::bonfire::Bonfire::default();
    let mut unit = tower_core::unit::Unit::default();

    assert!(bonfire.process(&mut unit).is_empty());

    unit.cooling_down = true;
    let emitted = bonfire.process(&mut unit);
    assert_eq!(emitted.len(), 1);
    assert_eq!(emitted[0].name.as_str(), "sunlight");
    assert_eq!(emitted[0].value.to_int(), 10);
    assert!(!unit.cooling_down);
}
