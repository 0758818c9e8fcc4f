use tower_core::battle::BulletContext;
use tower_core::common::{CollisionLayers, GameLayer, Vec2Fixed};
use tower_core::context::{SkillRunContextData, SkillRunContextDataBuilder, SkillValue};
use tower_core::fixed::Fixed;

fn vec2(x: i64, y: i64) -> Vec2Fixed {
    Vec2Fixed {
        x: Fixed::from_int(x),
        y: Fixed::from_int(y),
    }
}

#[test]
fn set_and_get_round_trip() {
    let mut data = SkillRunContextData::empty();
    data.set_value("speed", SkillValue::Integer(7));
    data.set_value("direction", SkillValue::Vector(vec2(1, 2)));

    assert_eq!(data.get_value("speed").copied(), Some(SkillValue::Integer(7)));
    assert_eq!(
        data.get_value("direction").copied(),
        Some(SkillValue::Vector(vec2(1, 2)))
    );
    assert_eq!(data.get_value("absent").copied(), None);

    // Overwriting a key replaces the stored value.
    data.set_value("speed", SkillValue::Integer(9));
    assert_eq!(data.get_value("speed").copied(), Some(SkillValue::Integer(9)));
}

#[test]
fn typed_read_fails_on_kind_mismatch() {
    let mut data = SkillRunContextData::empty();
    data.set_value("speed", SkillValue::Integer(7));

    let stored = data.get_value("speed").unwrap();
    assert_eq!(stored.as_integer(), Some(7));
    assert_eq!(stored.as_vector(), None);
    assert_eq!(stored.as_layers(), None);
}

#[test]
fn clone_copies_every_entry() {
    let mut data = SkillRunContextData::empty();
    data.set_value("a", SkillValue::Integer(1));
    data.set_value("b", SkillValue::Vector(vec2(3, 4)));

    let copy = data.clone();
    data.set_value("a", SkillValue::Integer(100));

    assert_eq!(copy.get_value("a").copied(), Some(SkillValue::Integer(1)));
    assert_eq!(
        copy.get_value("b").copied(),
        Some(SkillValue::Vector(vec2(3, 4)))
    );
}

#[test]
fn bullet_fragment_round_trips_through_a_bag() {
    let context = BulletContext {
        direction: vec2(3, -4),
        layers: GameLayer::unit_hitbox_layers(),
        bullet_position: vec2(10, 20),
    };

    let mut data = SkillRunContextData::empty();
    context.update_skill_run_context_data(&mut data);

    let decoded = BulletContext::from_skill_run_context_data(&data).unwrap();
    assert_eq!(decoded.direction, context.direction);
    assert_eq!(decoded.layers, context.layers);
    assert_eq!(decoded.bullet_position, context.bullet_position);
}

#[test]
fn bullet_fragment_keys_are_namespaced() {
    let context = BulletContext {
        direction: vec2(1, 0),
        layers: GameLayer::unit_hitbox_layers(),
        bullet_position: vec2(0, 0),
    };
    let mut data = SkillRunContextData::empty();
    context.update_skill_run_context_data(&mut data);

    assert!(data.get_value("bullet_direction").is_some());
    assert!(data.get_value("bullet_layers").is_some());
    assert!(data.get_value("bullet_bullet_position").is_some());
    assert!(data.get_value("direction").is_none());
    assert_eq!(
        BulletContext::get_property_name("direction").as_str(),
        "bullet_direction"
    );
}

#[test]
fn bullet_fragment_missing_field_decodes_to_nothing() {
    let context = BulletContext {
        direction: vec2(1, 0),
        layers: GameLayer::unit_hitbox_layers(),
        bullet_position: vec2(5, 5),
    };

    for missing in ["bullet_direction", "bullet_layers", "bullet_bullet_position"] {
        let mut data = SkillRunContextData::empty();
        context.update_skill_run_context_data(&mut data);
        let mut partial = SkillRunContextData::empty();
        for key in ["bullet_direction", "bullet_layers", "bullet_bullet_position"] {
            if key != missing {
                partial.set_value(key, *data.get_value(key).unwrap());
            }
        }
        assert!(BulletContext::from_skill_run_context_data(&partial).is_none());
    }
}

#[test]
fn bullet_fragment_mistyped_field_decodes_to_nothing() {
    let context = BulletContext {
        direction: vec2(1, 0),
        layers: GameLayer::unit_hitbox_layers(),
        bullet_position: vec2(5, 5),
    };
    let mut data = SkillRunContextData::empty();
    context.update_skill_run_context_data(&mut data);

    // The direction is present but with the wrong kind.
    data.set_value("bullet_direction", SkillValue::Integer(3));
    assert!(BulletContext::from_skill_run_context_data(&data).is_none());
}

#[test]
fn unit_fragment_reads_from_anything_and_writes_nothing() {
    let mut data = SkillRunContextData::empty();
    let decoded = <() as SkillRunContextDataBuilder>::from_skill_run_context_data(&data);
    assert_eq!(decoded, Some(()));

    ().update_skill_run_context_data(&mut data);
    assert!(data.get_value("_").is_none());
}

#[test]
fn layer_masks_match_the_layer_bits() {
    assert_eq!(
        GameLayer::default_layers(),
        CollisionLayers {
            memberships: 1,
            filters: 7
        }
    );
    assert_eq!(
        GameLayer::enemy_layers(),
        CollisionLayers {
            memberships: 4,
            filters: 7
        }
    );
    assert_eq!(
        GameLayer::unit_layers(),
        CollisionLayers {
            memberships: 2,
            filters: 7
        }
    );
    assert_eq!(
        GameLayer::unit_attack_distance_layers(),
        CollisionLayers {
            memberships: 2,
            filters: 4
        }
    );
    assert_eq!(
        GameLayer::unit_hitbox_layers(),
        CollisionLayers {
            memberships: 8,
            filters: 16
        }
    );
}
