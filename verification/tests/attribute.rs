use tower_core::attribute::{
    AttributeDependencyModifier, SkillAttribute, SkillAttributeModifier,
    SkillAttributeModifierOperation, SkillAttributeSet,
};
use tower_core::fixed::Fixed;

#[test]
fn test_attribute_set() {
    let mut attribute_set = SkillAttributeSet::default();

    let mut attribute = SkillAttribute::default();
    attribute.name = "power".to_string();
    attribute.update_base_value(Fixed::from_int(10));

    attribute_set.add_skill_attribute(attribute);

    let mut attribute = SkillAttribute::default();
    attribute.name = "burden".to_string();
    attribute.update_base_value(Fixed::from_int(10));

    attribute_set.add_skill_attribute(attribute);

    let mut dependency_modifier = AttributeDependencyModifier::default();

    dependency_modifier.source = "power".to_string();
    dependency_modifier.target = "burden".to_string();
    dependency_modifier.value = Fixed::from_int(10);

    attribute_set.add_dependency_modifier(dependency_modifier);

    attribute_set.update_attribute_base_value("power", Fixed::from_int(1));

    let burden_attribute = attribute_set.skill_attribute("burden").unwrap();

    let burden = burden_attribute.get_current_value();

    assert_eq!(20, burden);
}

#[test]
fn test_attribute() {
    let mut attribute = SkillAttribute::default();
    attribute.update_base_value(Fixed::from_int(10));

    let mut absolute_modifier = SkillAttributeModifier::default();
    absolute_modifier.value = Fixed::from_int(2);
    attribute.add_modifier(&absolute_modifier);
    assert_eq!(attribute.get_current_value(), 12);

    let mut percentage_modifier = SkillAttributeModifier::default();
    percentage_modifier.operation = SkillAttributeModifierOperation::Percentage;
    percentage_modifier.value = Fixed::from_milli(500);
    attribute.add_modifier(&percentage_modifier);
    assert_eq!(attribute.get_current_value(), 17);

    let mut overload_modifier = SkillAttributeModifier::default();
    overload_modifier.operation = SkillAttributeModifierOperation::Overload;
    overload_modifier.value = Fixed::from_int(6);
    attribute.add_modifier(&overload_modifier);
    assert_eq!(attribute.get_current_value(), 6);

    let mut overload_modifier1 = SkillAttributeModifier::default();
    overload_modifier1.operation = SkillAttributeModifierOperation::Overload;
    overload_modifier1.value = Fixed::from_int(20);
    overload_modifier1.priority = 10;
    attribute.add_modifier(&overload_modifier1);
    assert_eq!(attribute.get_current_value(), 20);

    attribute.remove_modifier_with_source(overload_modifier1.source.as_str());

    assert_eq!(attribute.get_current_value(), 10);
}

#[test]
fn base_only_attribute_reads_clamped_base() {
    let mut attribute = SkillAttribute::default();
    attribute.update_base_value(Fixed::from_milli(7_250));
    assert_eq!(attribute.get_current_value(), 7);
    assert_eq!(attribute.base_value(), 7);

    attribute.update_base_value(Fixed::from_int(-10));
    assert_eq!(attribute.get_current_value(), -2);
}

#[test]
fn reads_clamp_into_the_physical_range() {
    let mut attribute = SkillAttribute::default();
    attribute.min_value = Fixed::from_int(0);
    attribute.max_value = Fixed::from_int(5);

    attribute.update_base_value(Fixed::from_int(10));
    assert_eq!(attribute.get_current_value(), 5);
    assert_eq!(attribute.base_value(), 5);

    attribute.update_base_value(Fixed::from_int(-20));
    assert_eq!(attribute.get_current_value(), 0);
}

#[test]
fn absolute_and_percentage_commute() {
    let absolute = {
        let mut m = SkillAttributeModifier::default();
        m.value = Fixed::from_int(3);
        m.source = "gear".to_string();
        m
    };
    let percentage = {
        let mut m = SkillAttributeModifier::default();
        m.operation = SkillAttributeModifierOperation::Percentage;
        m.value = Fixed::from_milli(250);
        m.source = "aura".to_string();
        m
    };

    let mut first = SkillAttribute::default();
    first.update_base_value(Fixed::from_int(8));
    first.add_modifier(&absolute);
    first.add_modifier(&percentage);

    let mut second = SkillAttribute::default();
    second.update_base_value(Fixed::from_int(8));
    second.add_modifier(&percentage);
    second.add_modifier(&absolute);

    // 8 + 3 + 0.25 * 8 = 13 in either insertion order.
    assert_eq!(first.get_current_value(), 13);
    assert_eq!(second.get_current_value(), 13);
}

#[test]
fn overload_priority_ties_keep_first() {
    let low = {
        let mut m = SkillAttributeModifier::default();
        m.operation = SkillAttributeModifierOperation::Overload;
        m.value = Fixed::from_int(100);
        m.priority = 1;
        m.source = "low".to_string();
        m
    };
    let high = {
        let mut m = SkillAttributeModifier::default();
        m.operation = SkillAttributeModifierOperation::Overload;
        m.value = Fixed::from_int(200);
        m.priority = 2;
        m.source = "high".to_string();
        m
    };

    let mut a = SkillAttribute::default();
    a.add_modifier(&low);
    a.add_modifier(&high);
    assert_eq!(a.get_current_value(), 200);

    let mut b = SkillAttribute::default();
    b.add_modifier(&high);
    b.add_modifier(&low);
    assert_eq!(b.get_current_value(), 200);

    let tied = {
        let mut m = SkillAttributeModifier::default();
        m.operation = SkillAttributeModifierOperation::Overload;
        m.value = Fixed::from_int(300);
        m.priority = 2;
        m.source = "tied".to_string();
        m
    };
    // Equal priorities: the first-inserted overload keeps winning.
    let mut c = SkillAttribute::default();
    c.add_modifier(&high);
    c.add_modifier(&tied);
    assert_eq!(c.get_current_value(), 200);
}

#[test]
fn remove_with_source_removes_all_and_only_that_tag() {
    let mut attribute = SkillAttribute::default();
    attribute.update_base_value(Fixed::from_int(10));

    let mut tagged_a = SkillAttributeModifier::default();
    tagged_a.value = Fixed::from_int(1);
    tagged_a.source = "buff".to_string();

    let mut tagged_b = SkillAttributeModifier::default();
    tagged_b.value = Fixed::from_int(2);
    tagged_b.source = "buff".to_string();

    let mut other = SkillAttributeModifier::default();
    other.value = Fixed::from_int(4);
    other.source = "gear".to_string();

    attribute.add_modifier(&tagged_a);
    attribute.add_modifier(&tagged_b);
    attribute.add_modifier(&other);
    assert_eq!(attribute.get_current_value(), 17);

    attribute.remove_modifier_with_source("buff");
    assert_eq!(attribute.get_current_value(), 14);

    // Removing an absent tag is a silent no-op.
    attribute.remove_modifier_with_source("buff");
    assert_eq!(attribute.get_current_value(), 14);
}

#[test]
fn duplicate_add_and_absent_remove_are_no_ops() {
    let mut attribute = SkillAttribute::default();
    attribute.update_base_value(Fixed::from_int(10));

    let mut m = SkillAttributeModifier::default();
    m.value = Fixed::from_int(5);
    m.source = "gear".to_string();

    attribute.add_modifier(&m);
    attribute.add_modifier(&m);
    assert_eq!(attribute.get_current_value(), 15);

    let mut absent = SkillAttributeModifier::default();
    absent.value = Fixed::from_int(9);
    absent.source = "nowhere".to_string();
    attribute.remove_modifier(&absent);
    assert_eq!(attribute.get_current_value(), 15);

    attribute.remove_modifier(&m);
    assert_eq!(attribute.get_current_value(), 10);
}

#[test]
fn repeated_dependency_update_replaces_not_stacks() {
    let mut attribute_set = SkillAttributeSet::default();

    let mut power = SkillAttribute::default();
    power.name = "power".to_string();
    power.update_base_value(Fixed::from_int(10));
    attribute_set.add_skill_attribute(power);

    let mut burden = SkillAttribute::default();
    burden.name = "burden".to_string();
    burden.update_base_value(Fixed::from_int(10));
    attribute_set.add_skill_attribute(burden);

    let mut dependency = AttributeDependencyModifier::default();
    dependency.source = "power".to_string();
    dependency.target = "burden".to_string();
    dependency.value = Fixed::from_int(10);
    attribute_set.add_dependency_modifier(dependency);

    attribute_set.update_attribute_base_value("power", Fixed::from_int(1));
    assert_eq!(
        attribute_set.skill_attribute("burden").unwrap().get_current_value(),
        20
    );

    // A second identical delta replaces the derived modifier, it does not
    // stack a second one alongside it.
    attribute_set.update_attribute_base_value("power", Fixed::from_int(1));
    assert_eq!(
        attribute_set.skill_attribute("burden").unwrap().get_current_value(),
        20
    );

    // An unknown attribute name is a silent no-op.
    attribute_set.update_attribute_base_value("mystery", Fixed::from_int(5));
    assert_eq!(
        attribute_set.skill_attribute("burden").unwrap().get_current_value(),
        20
    );
}

#[test]
fn dependency_key_is_synthesized_from_both_names() {
    let mut dependency = AttributeDependencyModifier::default();
    dependency.source = "power".to_string();
    dependency.target = "burden".to_string();
    assert_eq!(
        dependency.get_source().as_str(),
        "__attribute_dependency_power__burden"
    );
}
