//! Friendly units: their data, spawn description, factories, target lists
//! and cooldown timers.

use vstd::prelude::*;

use crate::arrow_tower::ArrowTowerFactory;
use crate::bonfire::{Bonfire, BonfireFactory};
use crate::common::{CollisionLayers, GameLayer, Vec3Fixed};
use crate::fixed::Fixed;
use crate::registry::StringRegistry;
use crate::skill::{contains_entity, EntityId, Skill};

verus! {

/// Milliseconds between two shots of a unit.
pub const UNIT_COOLDOWN_MS: u64 = 1000;

/// Radius of a unit's target-acquisition sensor, in whole game units.
pub const UNIT_ATTACK_DISTANCE: i64 = 500;

/// The stored description of a placeable unit.
#[derive(Debug)]
pub struct UnitData {
    /// Which unit factory builds it.
    pub item_name: String,
    /// The sprite it is drawn with.
    pub image: String,
}

/// The mathematical content of a unit description.
pub ghost struct UnitDataModel {
    pub item_name: Seq<char>,
    pub image: Seq<char>,
}

impl View for UnitData {
    type V = UnitDataModel;

    open spec fn view(&self) -> UnitDataModel {
        UnitDataModel { item_name: self.item_name@, image: self.image@ }
    }
}

impl Clone for UnitData {
    fn clone(&self) -> (r: Self)
        ensures
            r@ == self@,
    {
        UnitData { item_name: self.item_name.clone(), image: self.image.clone() }
    }
}

/// The live state a unit carries.
#[derive(Clone, Copy, Debug, PartialEq, Eq, Structural)]
pub struct Unit {
    /// Set while the unit's production is ready to be collected.
    pub cooling_down: bool,
}

impl Unit {
    /// A fresh unit built from its stored description.
    pub fn from_data(_data: &UnitData) -> (r: Self)
        ensures
            r.cooling_down == false,
    {
        Unit { cooling_down: false }
    }
}

impl Default for Unit {
    fn default() -> (r: Self)
        ensures
            r.cooling_down == false,
    {
        Unit { cooling_down: false }
    }
}

/// The extra components one unit kind adds on spawn.
#[derive(Clone, Debug)]
pub enum UnitExtras {
    /// An arrow tower: the targeting marker only.
    ArrowTower,
    /// A bonfire: a light source and its product list.
    Bonfire(Bonfire),
}

/// Builds the extras of one unit kind.
pub trait UnitFactory: Sized {
    /// The extras this factory adds to a freshly spawned unit.
    fn spawn(&self, data: &UnitData) -> UnitExtras;
}

/// A unit factory with its kind erased: one variant per factory.
#[derive(Clone, Copy, Debug, PartialEq, Eq, Structural)]
pub enum UnitFactoryKind {
    ArrowTower(ArrowTowerFactory),
    Bonfire(BonfireFactory),
}

impl UnitFactoryKind {
    /// Whether `r` is what this factory yields: the matching variant, a
    /// bonfire carrying the stock production.
    pub open spec fn spec_spawn_matches(self, r: UnitExtras) -> bool {
        match (self, r) {
            (UnitFactoryKind::ArrowTower(_), UnitExtras::ArrowTower) => true,
            (UnitFactoryKind::Bonfire(_), UnitExtras::Bonfire(b)) => b@
                == crate::bonfire::spec_bonfire_default_products(),
            _ => false,
        }
    }

    /// Build the extras of this factory's unit kind.
    pub fn spawn(&self, data: &UnitData) -> (r: UnitExtras)
        ensures
            self.spec_spawn_matches(r),
    {
        match self {
            UnitFactoryKind::ArrowTower(f) => f.spawn(data),
            UnitFactoryKind::Bonfire(f) => f.spawn(data),
        }
    }
}

/// The registry of unit factories, keyed by the unit's `item_name`.
#[derive(Debug)]
pub struct UnitFactoryContainer(pub StringRegistry<UnitFactoryKind>);

impl UnitFactoryContainer {
    /// Well-formed: the underlying registry is.
    pub open spec fn wf(self) -> bool {
        self.0.wf()
    }

    /// The registered factories, by name.
    pub open spec fn view(self) -> Map<Seq<char>, UnitFactoryKind> {
        self.0@
    }

    /// A container with no factories.
    pub fn empty() -> (r: Self)
        ensures
            r.wf(),
            r.view() == Map::<Seq<char>, UnitFactoryKind>::empty(),
    {
        UnitFactoryContainer(StringRegistry::new())
    }

    /// Register a factory under `name`, replacing any present one.
    pub fn register(&mut self, name: &str, value: UnitFactoryKind)
        requires
            old(self).wf(),
        ensures
            final(self).wf(),
            final(self).view() == old(self).view().insert(name@, value),
    {
        self.0.insert(name, value);
    }
}

impl Default for UnitFactoryContainer {
    /// The stock container: the arrow tower factory under `arrow_tower`.
    fn default() -> (r: Self)
        ensures
            r.wf(),
            r.view() == Map::<Seq<char>, UnitFactoryKind>::empty().insert(
                "arrow_tower"@,
                UnitFactoryKind::ArrowTower(ArrowTowerFactory),
            ),
    {
        let mut container = UnitFactoryContainer::empty();
        container.register("arrow_tower", UnitFactoryKind::ArrowTower(ArrowTowerFactory));
        container
    }
}

/// The entity references of the enemies a tower currently tracks, in
/// acquisition order. Entries are appended without deduplication, so an
/// enemy that re-enters range is tracked more than once.
#[derive(Clone, Debug)]
pub struct EnemyTargets(pub Vec<EntityId>);

impl Default for EnemyTargets {
    fn default() -> (r: Self)
        ensures
            r.0@ == Seq::<EntityId>::empty(),
    {
        EnemyTargets(Vec::new())
    }
}

/// The entries of `targets` that `live` still contains, in order.
pub open spec fn spec_retain_live(targets: Seq<EntityId>, live: Seq<EntityId>) -> Seq<EntityId>
    decreases targets.len(),
{
    if targets.len() == 0 {
        Seq::empty()
    } else {
        let rest = spec_retain_live(targets.drop_last(), live);
        if live.contains(targets.last()) {
            rest.push(targets.last())
        } else {
            rest
        }
    }
}

impl EnemyTargets {
    /// Drop every tracked target that is no longer a live enemy, keeping the
    /// order of the rest.
    pub fn retain_live(&mut self, live: &Vec<EntityId>)
        ensures
            final(self).0@ == spec_retain_live(old(self).0@, live@),
    {
        let ghost old_targets = self.0@;
        let mut kept: Vec<EntityId> = Vec::new();
        let n = self.0.len();
        let mut i: usize = 0;
        while i < n
            invariant
                i <= n,
                n == self.0@.len(),
                self.0@ == old_targets,
                kept@ == spec_retain_live(old_targets.take(i as int), live@),
            decreases n - i,
        {
            proof {
                assert(old_targets.take(i + 1).drop_last() =~= old_targets.take(i as int));
                assert(old_targets.take(i + 1).last() == old_targets[i as int]);
            }
            if contains_entity(live, self.0[i]) {
                kept.push(self.0[i]);
            }
            i = i + 1;
        }
        proof {
            assert(old_targets.take(n as int) =~= old_targets);
        }
        self.0 = kept;
    }
}

/// A repeating cooldown gate: it elapses every `duration_ms` of ticked time
/// and wraps.
#[derive(Clone, Copy, Debug, PartialEq, Eq, Structural)]
pub struct CooldownTimer {
    /// Time accumulated since the last expiry; always below the duration.
    pub elapsed_ms: u64,
    /// The period.
    pub duration_ms: u64,
}

impl CooldownTimer {
    /// Well-formed: a positive period, elapsed time inside it.
    pub open spec fn wf(self) -> bool {
        0 < self.duration_ms && self.elapsed_ms < self.duration_ms
    }

    /// A fresh timer with the given period.
    pub fn new(duration_ms: u64) -> (r: Self)
        requires
            duration_ms > 0,
        ensures
            r.wf(),
            r.duration_ms == duration_ms,
            r.elapsed_ms == 0,
    {
        CooldownTimer { elapsed_ms: 0, duration_ms }
    }

    /// Advance the timer by `delta_ms`. Returns whether the period elapsed
    /// during this tick; the accumulated time wraps modulo the period.
    pub fn tick(&mut self, delta_ms: u64) -> (just_finished: bool)
        requires
            old(self).wf(),
        ensures
            final(self).wf(),
            final(self).duration_ms == old(self).duration_ms,
            just_finished == (old(self).elapsed_ms + delta_ms >= old(self).duration_ms),
            final(self).elapsed_ms == (old(self).elapsed_ms + delta_ms) % (
            old(self).duration_ms as int),
    {
        let total: u128 = (self.elapsed_ms as u128) + (delta_ms as u128);
        if total >= self.duration_ms as u128 {
            self.elapsed_ms = (total % (self.duration_ms as u128)) as u64;
            true
        } else {
            proof {
                vstd::arithmetic::div_mod::lemma_small_mod(
                    total as nat,
                    self.duration_ms as nat,
                );
            }
            self.elapsed_ms = total as u64;
            false
        }
    }
}

/// Everything the engine needs to spawn one unit: its state, placement,
/// masks, cooldown, range sensor and kind-specific extras.
#[derive(Clone, Debug)]
pub struct UnitSpawn {
    /// The unit's live state.
    pub unit: Unit,
    /// Where it stands.
    pub position: Vec3Fixed,
    /// Masks of the unit body.
    pub body_layers: CollisionLayers,
    /// The skill the unit fires with.
    pub skill: Skill,
    /// The firing gate.
    pub cooldown: CooldownTimer,
    /// Radius of the target-acquisition sensor.
    pub attack_distance: Fixed,
    /// Masks of the target-acquisition sensor.
    pub attack_distance_layers: CollisionLayers,
    /// What the unit's own factory adds.
    pub extras: UnitExtras,
}

impl Unit {
    /// Describe the spawn of this unit: a static body on the unit layers,
    /// an empty target list, a fresh cooldown, a range sensor noticing
    /// enemies, and the factory's extras.
    pub fn spawn_unit(
        &self,
        position: Vec3Fixed,
        data: &UnitData,
        factory: &UnitFactoryKind,
    ) -> (r: UnitSpawn)
        ensures
            r.unit == *self,
            r.position == position,
            r.body_layers.memberships == GameLayer::Unit.spec_bit(),
            r.body_layers.filters == GameLayer::Default.spec_bit() | GameLayer::Unit.spec_bit()
                | GameLayer::Enemy.spec_bit(),
            r.cooldown.duration_ms == UNIT_COOLDOWN_MS && r.cooldown.elapsed_ms == 0,
            r.attack_distance.as_milli() == UNIT_ATTACK_DISTANCE * crate::fixed::FIXED_SCALE,
            r.attack_distance_layers.memberships == GameLayer::Unit.spec_bit(),
            r.attack_distance_layers.filters == GameLayer::Enemy.spec_bit(),
            factory.spec_spawn_matches(r.extras),
    {
        UnitSpawn {
            unit: Unit { cooling_down: self.cooling_down },
            position,
            body_layers: GameLayer::unit_layers(),
            skill: Skill {  },
            cooldown: CooldownTimer::new(UNIT_COOLDOWN_MS),
            attack_distance: Fixed::from_int(UNIT_ATTACK_DISTANCE),
            attack_distance_layers: GameLayer::unit_attack_distance_layers(),
            extras: factory.spawn(data),
        }
    }
}

/// Describe the spawn of the unit `data` names: nothing when no factory is
/// registered under its `item_name`.
pub fn spawn_unit(
    position: Vec3Fixed,
    data: &UnitData,
    container: &UnitFactoryContainer,
) -> (r: Option<UnitSpawn>)
    requires
        container.wf(),
    ensures
        container.view().contains_key(data.item_name@) <==> r is Some,
        r matches Some(spawn) ==> container.view()[data.item_name@].spec_spawn_matches(spawn.extras)
            && spawn.position == position && spawn.unit.cooling_down == false,
{
    match container.0.get(data.item_name.as_str()) {
        Some(factory) => {
            let unit = Unit::from_data(data);
            Some(unit.spawn_unit(position, data, factory))
        },
        None => None,
    }
}

} // verus!
