//! Map item factories: each map item name resolves to the factory that
//! describes what to spawn for it; unknown names are a silent no-op.

use vstd::prelude::*;

use crate::common::Vec3Fixed;
use crate::enemy::{EnemySpawn, EnemySpawnerContainer, EnemySpawnerKind, SquareEnemySpawner};
use crate::map::{spec_hill_spawn, spawn_hill_map_item, HillSpawn, MapItemData, MapItemDataModel};
use crate::registry::StringRegistry;
use crate::unit::{spawn_unit, UnitFactoryContainer, UnitFactoryKind, UnitSpawn};

verus! {

/// What one map item spawns: scenery, a unit, or an enemy.
#[derive(Clone, Debug)]
pub enum MapItemSpawn {
    Hill(HillSpawn),
    Unit(UnitSpawn),
    Enemy(EnemySpawn),
}

/// Builds one kind of map item.
pub trait MapItemFactory: Sized {
    /// What this factory needs of its own state to describe a spawn.
    spec fn spawn_wf(self) -> bool;

    /// The map item name this factory answers to.
    fn map_item_name(&self) -> &'static str;

    /// Describe what to spawn for `item_data` at `position`; nothing when a
    /// needed inner factory is missing.
    fn spawn_map_item(
        &self,
        item_data: &MapItemData,
        position: Vec3Fixed,
        unit_factory_container: &UnitFactoryContainer,
    ) -> Option<MapItemSpawn>
        requires
            self.spawn_wf(),
            unit_factory_container.wf(),
    ;
}

/// Builds hill scenery.
#[derive(Clone, Copy, Debug, PartialEq, Eq, Structural)]
pub struct HillMapItemFactory;

impl MapItemFactory for HillMapItemFactory {
    open spec fn spawn_wf(self) -> bool {
        true
    }

    fn map_item_name(&self) -> (r: &'static str)
        ensures
            r@ == "hill"@,
    {
        "hill"
    }

    fn spawn_map_item(
        &self,
        item_data: &MapItemData,
        position: Vec3Fixed,
        _unit_factory_container: &UnitFactoryContainer,
    ) -> (r: Option<MapItemSpawn>)
        ensures
            r matches Some(s) && s matches MapItemSpawn::Hill(h) && h == spec_hill_spawn(position),
    {
        Some(MapItemSpawn::Hill(spawn_hill_map_item(item_data, position)))
    }
}

/// Builds placed units through the unit factory registry.
#[derive(Clone, Copy, Debug, PartialEq, Eq, Structural)]
pub struct UnitMapItemFactory;

impl MapItemFactory for UnitMapItemFactory {
    open spec fn spawn_wf(self) -> bool {
        true
    }

    fn map_item_name(&self) -> (r: &'static str)
        ensures
            r@ == "unit"@,
    {
        "unit"
    }

    fn spawn_map_item(
        &self,
        item_data: &MapItemData,
        position: Vec3Fixed,
        unit_factory_container: &UnitFactoryContainer,
    ) -> (r: Option<MapItemSpawn>)
        ensures
            unit_factory_container.view().contains_key(item_data@.unit_item_name) <==> r is Some,
            r matches Some(s) ==> s matches MapItemSpawn::Unit(u) && u.position == position
                && unit_factory_container.view()[item_data@.unit_item_name].spec_spawn_matches(
                u.extras,
            ),
    {
        let unit_data = item_data.get_unit_data();
        match spawn_unit(position, &unit_data, unit_factory_container) {
            Some(u) => Some(MapItemSpawn::Unit(u)),
            None => None,
        }
    }
}

/// Builds enemies through its own enemy spawner registry.
#[derive(Debug)]
pub struct EnemyMapItemFactory {
    /// The registered enemy spawners.
    pub data: EnemySpawnerContainer,
}

impl Default for EnemyMapItemFactory {
    fn default() -> (r: Self)
        ensures
            r.data.wf(),
            r.data.view() == Map::<Seq<char>, EnemySpawnerKind>::empty().insert(
                "square"@,
                EnemySpawnerKind::Square(SquareEnemySpawner),
            ),
    {
        EnemyMapItemFactory { data: EnemySpawnerContainer::default() }
    }
}

impl MapItemFactory for EnemyMapItemFactory {
    open spec fn spawn_wf(self) -> bool {
        self.data.wf()
    }

    fn map_item_name(&self) -> (r: &'static str)
        ensures
            r@ == "enemy"@,
    {
        "enemy"
    }

    fn spawn_map_item(
        &self,
        item_data: &MapItemData,
        position: Vec3Fixed,
        _unit_factory_container: &UnitFactoryContainer,
    ) -> (r: Option<MapItemSpawn>)
        ensures
            self.data.view().contains_key(item_data@.enemy_item_name) <==> r is Some,
            r matches Some(s) ==> s matches MapItemSpawn::Enemy(e) && e == self.data.view()[
                item_data@.enemy_item_name].spec_spawn(position),
    {
        match self.data.spawn_enemy(position, item_data.enemy_item_name.as_str()) {
            Some(e) => Some(MapItemSpawn::Enemy(e)),
            None => None,
        }
    }
}

/// A map item factory with its kind erased: one variant per factory.
#[derive(Debug)]
pub enum MapItemFactoryKind {
    Hill(HillMapItemFactory),
    Unit(UnitMapItemFactory),
    Enemy(EnemyMapItemFactory),
}

impl MapItemFactoryKind {
    /// Well-formed: an enemy factory's own registry is.
    pub open spec fn wf(self) -> bool {
        match self {
            MapItemFactoryKind::Enemy(f) => f.data.wf(),
            _ => true,
        }
    }

    /// Whether `r` is what this factory describes for the item at
    /// `position`, given the unit factories in `units`.
    pub open spec fn spec_spawn_matches(
        self,
        item: MapItemDataModel,
        position: Vec3Fixed,
        units: Map<Seq<char>, UnitFactoryKind>,
        r: Option<MapItemSpawn>,
    ) -> bool {
        match self {
            MapItemFactoryKind::Hill(_) => r matches Some(s) && s matches MapItemSpawn::Hill(h)
                && h == spec_hill_spawn(position),
            MapItemFactoryKind::Unit(_) => {
                &&& units.contains_key(item.unit_item_name) <==> r is Some
                &&& r matches Some(s) ==> s matches MapItemSpawn::Unit(u) && u.position == position
                    && units[item.unit_item_name].spec_spawn_matches(u.extras)
            },
            MapItemFactoryKind::Enemy(f) => {
                &&& f.data.view().contains_key(item.enemy_item_name) <==> r is Some
                &&& r matches Some(s) ==> s matches MapItemSpawn::Enemy(e) && e == f.data.view()[
                    item.enemy_item_name].spec_spawn(position)
            },
        }
    }

    /// The map item name this factory answers to.
    pub fn map_item_name(&self) -> (r: &'static str)
        ensures
            (self matches MapItemFactoryKind::Hill(_) ==> r@ == "hill"@),
            (self matches MapItemFactoryKind::Unit(_) ==> r@ == "unit"@),
            (self matches MapItemFactoryKind::Enemy(_) ==> r@ == "enemy"@),
    {
        match self {
            MapItemFactoryKind::Hill(f) => f.map_item_name(),
            MapItemFactoryKind::Unit(f) => f.map_item_name(),
            MapItemFactoryKind::Enemy(f) => f.map_item_name(),
        }
    }

    /// Describe what to spawn for `item_data` at `position`.
    pub fn spawn_map_item(
        &self,
        item_data: &MapItemData,
        position: Vec3Fixed,
        unit_factory_container: &UnitFactoryContainer,
    ) -> (r: Option<MapItemSpawn>)
        requires
            self.wf(),
            unit_factory_container.wf(),
        ensures
            self.spec_spawn_matches(item_data@, position, unit_factory_container.view(), r),
    {
        match self {
            MapItemFactoryKind::Hill(f) => f.spawn_map_item(
                item_data,
                position,
                unit_factory_container,
            ),
            MapItemFactoryKind::Unit(f) => f.spawn_map_item(
                item_data,
                position,
                unit_factory_container,
            ),
            MapItemFactoryKind::Enemy(f) => f.spawn_map_item(
                item_data,
                position,
                unit_factory_container,
            ),
        }
    }
}

/// The registry of map item factories, keyed by map item name.
#[derive(Debug)]
pub struct MapItemFactoryContainer(pub StringRegistry<MapItemFactoryKind>);

impl MapItemFactoryContainer {
    /// Well-formed: the registry is, and so is every registered factory.
    pub open spec fn wf(self) -> bool {
        &&& self.0.wf()
        &&& forall|k: Seq<char>| #[trigger] self.0@.contains_key(k) ==> self.0@[k].wf()
    }

    /// The registered factories, by name.
    pub open spec fn view(self) -> Map<Seq<char>, MapItemFactoryKind> {
        self.0@
    }

    /// The stock container: the hill, unit and enemy factories, each under
    /// its own name.
    pub fn new() -> (r: Self)
        ensures
            r.wf(),
            r.view().contains_key("hill"@) && r.view()["hill"@] matches MapItemFactoryKind::Hill(_),
            r.view().contains_key("unit"@) && r.view()["unit"@] matches MapItemFactoryKind::Unit(_),
            r.view().contains_key("enemy"@) && r.view()["enemy"@] matches MapItemFactoryKind::Enemy(
                _,
            ),
    {
        let mut container = Self::empty();
        container.register(MapItemFactoryKind::Hill(HillMapItemFactory));
        container.register(MapItemFactoryKind::Unit(UnitMapItemFactory));
        container.register(MapItemFactoryKind::Enemy(EnemyMapItemFactory::default()));
        proof {
            lemma_map_item_names_distinct();
        }
        container
    }

    /// A container with no factories.
    pub fn empty() -> (r: Self)
        ensures
            r.wf(),
            r.view() == Map::<Seq<char>, MapItemFactoryKind>::empty(),
    {
        MapItemFactoryContainer(StringRegistry::new())
    }

    /// Register a factory under its own map item name, replacing any present
    /// one.
    pub fn register(&mut self, value: MapItemFactoryKind)
        requires
            old(self).wf(),
            value.wf(),
        ensures
            final(self).wf(),
            (value matches MapItemFactoryKind::Hill(_) ==> final(self).view() == old(
                self,
            ).view().insert("hill"@, value)),
            (value matches MapItemFactoryKind::Unit(_) ==> final(self).view() == old(
                self,
            ).view().insert("unit"@, value)),
            (value matches MapItemFactoryKind::Enemy(_) ==> final(self).view() == old(
                self,
            ).view().insert("enemy"@, value)),
    {
        let name = value.map_item_name();
        self.0.insert(name, value);
        proof {
            assert forall|k: Seq<char>| #[trigger] self.0@.contains_key(k) implies self.0@[k].wf()
                by {
                if k != name@ {
                    assert(old(self).0@.contains_key(k));
                }
            }
        }
    }

    /// Look up the factory registered for `name`, if any.
    pub fn get_map_item_factory(&self, name: &str) -> (r: Option<&MapItemFactoryKind>)
        requires
            self.wf(),
        ensures
            match r {
                Some(f) => self.view().contains_key(name@) && *f == self.view()[name@] && f.wf(),
                None => !self.view().contains_key(name@),
            },
    {
        self.0.get(name)
    }

    /// Describe what to spawn for `item_data` at `position`: nothing when no
    /// factory is registered under the item's name.
    pub fn spawn_map_item(
        &self,
        item_data: &MapItemData,
        position: Vec3Fixed,
        unit_factory_container: &UnitFactoryContainer,
    ) -> (r: Option<MapItemSpawn>)
        requires
            self.wf(),
            unit_factory_container.wf(),
        ensures
            !self.view().contains_key(item_data@.name) ==> r is None,
            self.view().contains_key(item_data@.name) ==> self.view()[
                item_data@.name].spec_spawn_matches(
                item_data@,
                position,
                unit_factory_container.view(),
                r,
            ),
    {
        match self.get_map_item_factory(item_data.name.as_str()) {
            Some(factory) => factory.spawn_map_item(item_data, position, unit_factory_container),
            None => None,
        }
    }
}

impl Default for MapItemFactoryContainer {
    fn default() -> (r: Self)
        ensures
            r.wf(),
            r.view().contains_key("hill"@) && r.view()["hill"@] matches MapItemFactoryKind::Hill(_),
            r.view().contains_key("unit"@) && r.view()["unit"@] matches MapItemFactoryKind::Unit(_),
            r.view().contains_key("enemy"@) && r.view()["enemy"@] matches MapItemFactoryKind::Enemy(
                _,
            ),
    {
        MapItemFactoryContainer::new()
    }
}

/// The three stock map item names are pairwise distinct.
proof fn lemma_map_item_names_distinct()
    ensures
        "hill"@ != "unit"@,
        "hill"@ != "enemy"@,
        "unit"@ != "enemy"@,
{
    reveal_strlit("hill");
    reveal_strlit("unit");
    reveal_strlit("enemy");
    assert("hill"@[0] != "unit"@[0]);
    assert("hill"@.len() != "enemy"@.len());
    assert("unit"@.len() != "enemy"@.len());
}

} // verus!
