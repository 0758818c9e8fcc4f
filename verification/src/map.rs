//! The tile map: item data, grid arithmetic, the map environment and the
//! hill scenery item.

use vstd::prelude::*;

use crate::attribute::SkillAttributeSet;
use crate::common::{CollisionLayers, GameLayer, Vec2Fixed};
use crate::fixed::{spec_clamp, spec_sat64, Fixed, FIXED_SCALE};
use crate::unit::UnitData;

verus! {

/// Edge length of one map tile, in whole game units.
pub const MAP_TIEM_SIZE: i64 = 128;

/// Gap between tiles, in whole game units.
pub const MAP_TIEM_SPACE_SIZE: i64 = 2;

/// Edge length of the selection frame.
pub const MAP_ITEM_SELECTED_SIZE: i64 = MAP_TIEM_SIZE + MAP_TIEM_SPACE_SIZE;

/// Edge length of a tile's content.
pub const MAP_ITEM_CONTENT_SIZE: i64 = MAP_TIEM_SIZE - MAP_TIEM_SPACE_SIZE;

/// Depth of the map background.
pub const MAP_LAYER: i64 = -1;

/// Depth of the map tiles.
pub const MAP_TILE_LAYER: i64 = 10;

/// Depth of the selection frame.
pub const MAP_TILE_SELECTED_LAYER: i64 = 20;

/// One stored map item: which factory builds it, the unit or enemy it
/// stands for, and its grid cell.
#[derive(Debug)]
pub struct MapItemData {
    /// Which map item factory builds it.
    pub name: String,
    /// For unit items: the unit factory's name.
    pub unit_item_name: String,
    /// For unit items: the unit's sprite.
    pub unit_image: String,
    /// For enemy items: the enemy spawner's name.
    pub enemy_item_name: String,
    /// Grid column.
    pub x: i32,
    /// Grid row.
    pub y: i32,
}

/// The mathematical content of a map item.
pub ghost struct MapItemDataModel {
    pub name: Seq<char>,
    pub unit_item_name: Seq<char>,
    pub unit_image: Seq<char>,
    pub enemy_item_name: Seq<char>,
    pub x: int,
    pub y: int,
}

impl View for MapItemData {
    type V = MapItemDataModel;

    open spec fn view(&self) -> MapItemDataModel {
        MapItemDataModel {
            name: self.name@,
            unit_item_name: self.unit_item_name@,
            unit_image: self.unit_image@,
            enemy_item_name: self.enemy_item_name@,
            x: self.x as int,
            y: self.y as int,
        }
    }
}

impl Clone for MapItemData {
    fn clone(&self) -> (r: Self)
        ensures
            r@ == self@,
    {
        MapItemData {
            name: self.name.clone(),
            unit_item_name: self.unit_item_name.clone(),
            unit_image: self.unit_image.clone(),
            enemy_item_name: self.enemy_item_name.clone(),
            x: self.x,
            y: self.y,
        }
    }
}

impl Default for MapItemData {
    fn default() -> (r: Self)
        ensures
            r@.name == Seq::<char>::empty(),
            r@.unit_item_name == Seq::<char>::empty(),
            r@.unit_image == Seq::<char>::empty(),
            r@.enemy_item_name == Seq::<char>::empty(),
            r@.x == 0,
            r@.y == 0,
    {
        MapItemData {
            name: String::new(),
            unit_item_name: String::new(),
            unit_image: String::new(),
            enemy_item_name: String::new(),
            x: 0,
            y: 0,
        }
    }
}

/// The map item a placed unit stands for: a `unit` item at the origin
/// carrying the unit's factory name and sprite.
pub open spec fn spec_item_from_unit_data(u: crate::unit::UnitDataModel) -> MapItemDataModel {
    MapItemDataModel {
        name: "unit"@,
        unit_item_name: u.item_name,
        unit_image: u.image,
        enemy_item_name: Seq::empty(),
        x: 0,
        y: 0,
    }
}

impl MapItemData {
    /// The unit description a unit item stands for.
    pub fn get_unit_data(&self) -> (r: UnitData)
        ensures
            r.item_name@ == self@.unit_item_name,
            r.image@ == self@.unit_image,
    {
        UnitData { item_name: self.unit_item_name.clone(), image: self.unit_image.clone() }
    }

    /// The map item a placed unit stands for.
    pub fn from_unit_data(unit_data: &UnitData) -> (r: Self)
        ensures
            r@ == spec_item_from_unit_data(unit_data@),
    {
        MapItemData {
            name: "unit".to_owned(),
            unit_item_name: unit_data.item_name.clone(),
            unit_image: unit_data.image.clone(),
            enemy_item_name: String::new(),
            x: 0,
            y: 0,
        }
    }
}

/// The stored layout of a level's map.
#[derive(Debug)]
pub struct MapData {
    /// The items, in spawn order.
    pub items: Vec<MapItemData>,
}

impl Default for MapData {
    /// The stock layout: two rows of four hills framing the field, and a
    /// bonfire unit at the origin.
    fn default() -> (r: Self)
        ensures
            r.items@.len() == 9,
            forall|i: int| 0 <= i < 8 ==> (#[trigger] r.items@[i])@.name == "hill"@,
            forall|i: int| 0 <= i < 4 ==> (#[trigger] r.items@[i])@.x == i - 2 && r.items@[i]@.y == 2,
            forall|i: int|
                4 <= i < 8 ==> (#[trigger] r.items@[i])@.x == i - 6 && r.items@[i]@.y == -2,
            r.items@[8]@.name == "unit"@,
            r.items@[8]@.unit_item_name == "bonfire"@,
            r.items@[8]@.unit_image == "TemporaryArrowTower"@,
            r.items@[8]@.x == 0 && r.items@[8]@.y == 0,
    {
        let mut items: Vec<MapItemData> = Vec::new();
        let mut i: i32 = -2;
        while i < 2
            invariant
                -2 <= i <= 2,
                items@.len() == i + 2,
                forall|k: int|
                    0 <= k < items@.len() ==> (#[trigger] items@[k])@.name == "hill"@ && items@[k]@.x
                        == k - 2 && items@[k]@.y == 2,
            decreases 2 - i,
        {
            let mut item = MapItemData::default();
            item.name = "hill".to_owned();
            item.x = i;
            item.y = 2;
            items.push(item);
            i = i + 1;
        }
        let mut i: i32 = -2;
        while i < 2
            invariant
                -2 <= i <= 2,
                items@.len() == i + 6,
                forall|k: int|
                    0 <= k < 4 ==> (#[trigger] items@[k])@.name == "hill"@ && items@[k]@.x == k - 2
                        && items@[k]@.y == 2,
                forall|k: int|
                    4 <= k < items@.len() ==> (#[trigger] items@[k])@.name == "hill"@ && items@[k]@.x
                        == k - 6 && items@[k]@.y == -2,
            decreases 2 - i,
        {
            let mut item = MapItemData::default();
            item.name = "hill".to_owned();
            item.x = i;
            item.y = -2;
            items.push(item);
            i = i + 1;
        }
        let mut item = MapItemData::default();
        item.name = "unit".to_owned();
        item.unit_item_name = "bonfire".to_owned();
        item.unit_image = "TemporaryArrowTower".to_owned();
        items.push(item);
        MapData { items }
    }
}

/// The map editor's transient state: what is selected for placement and
/// whether placing is allowed right now.
#[derive(Debug)]
pub struct MapState {
    /// The item the next click places, if any.
    pub selelcted_map_item_data: Option<MapItemData>,
    /// Whether a click on the map places the selection.
    pub enable: bool,
}

impl Default for MapState {
    fn default() -> (r: Self)
        ensures
            r.selelcted_map_item_data is None,
            r.enable == false,
    {
        MapState { selelcted_map_item_data: None, enable: false }
    }
}

/// The grid cell the cursor hovers over.
#[derive(Clone, Copy, Debug, PartialEq, Eq, Structural)]
pub struct MapPosition {
    pub x: i32,
    pub y: i32,
}

impl Default for MapPosition {
    fn default() -> (r: Self)
        ensures
            r.x == 0 && r.y == 0,
    {
        MapPosition { x: 0, y: 0 }
    }
}

/// The world position of the grid cell `(x, y)`: one unit in from the cell's
/// corner, cells being one tile apart.
pub fn get_item_position(x: i32, y: i32) -> (r: Vec2Fixed)
    ensures
        r.x.as_milli() == FIXED_SCALE + x * MAP_TIEM_SIZE * FIXED_SCALE,
        r.y.as_milli() == -FIXED_SCALE + y * MAP_TIEM_SIZE * FIXED_SCALE,
{
    let step: i64 = MAP_TIEM_SIZE * FIXED_SCALE;
    Vec2Fixed {
        x: Fixed::from_milli(FIXED_SCALE + (x as i64) * step),
        y: Fixed::from_milli(-FIXED_SCALE + (y as i64) * step),
    }
}

/// The grid column a world x-coordinate (in thousandths) falls into,
/// rounding down, saturated into the index range.
pub open spec fn spec_cell_x(milli: int) -> int {
    spec_clamp(
        (milli - FIXED_SCALE) / (MAP_TIEM_SIZE * FIXED_SCALE) as int,
        i32::MIN as int,
        i32::MAX as int,
    )
}

/// The grid row a world y-coordinate (in thousandths) falls into, rounding
/// down, saturated into the index range.
pub open spec fn spec_cell_y(milli: int) -> int {
    spec_clamp(
        milli / (MAP_TIEM_SIZE * FIXED_SCALE) as int,
        i32::MIN as int,
        i32::MAX as int,
    )
}

/// The grid cell a world position falls into, rounding down, saturated into
/// the cell index range.
pub fn get_item_position_i(x: Fixed, y: Fixed) -> (r: MapPosition)
    ensures
        r.x as int == spec_cell_x(x.as_milli()),
        r.y as int == spec_cell_y(y.as_milli()),
{
    let step: i128 = (MAP_TIEM_SIZE * FIXED_SCALE) as i128;
    let dx: i128 = (x.raw as i128) - (FIXED_SCALE as i128);
    let qx: i128 = match dx.checked_div_euclid(step) {
        Some(q) => q,
        None => 0,
    };
    let qy: i128 = match (y.raw as i128).checked_div_euclid(step) {
        Some(q) => q,
        None => 0,
    };
    MapPosition { x: saturate_to_i32(qx), y: saturate_to_i32(qy) }
}

/// Saturate a wide quotient into the `i32` range.
fn saturate_to_i32(v: i128) -> (r: i32)
    ensures
        r as int == spec_clamp(v as int, i32::MIN as int, i32::MAX as int),
{
    if v < i32::MIN as i128 {
        i32::MIN
    } else if v > i32::MAX as i128 {
        i32::MAX
    } else {
        v as i32
    }
}

/// The map: its item factories and its size in tiles.
#[derive(Debug)]
pub struct GameMap {
    /// Builds the map's items by name.
    pub item_factory_container: crate::item_data_factory::MapItemFactoryContainer,
    /// Width in tiles.
    pub x: i32,
    /// Height in tiles.
    pub y: i32,
}

impl GameMap {
    /// The map's size in world units: tiles times tile edge, per axis.
    pub fn get_map_size(&self) -> (r: Vec2Fixed)
        ensures
            r.x.as_milli() == spec_sat64(self.x * MAP_TIEM_SIZE * FIXED_SCALE),
            r.y.as_milli() == spec_sat64(self.y * MAP_TIEM_SIZE * FIXED_SCALE),
    {
        let step: i64 = MAP_TIEM_SIZE * FIXED_SCALE;
        Vec2Fixed {
            x: Fixed::from_milli((self.x as i64) * step),
            y: Fixed::from_milli((self.y as i64) * step),
        }
    }
}

impl Default for GameMap {
    /// The stock map: twenty-five tiles a side, the stock factories.
    fn default() -> (r: Self)
        ensures
            r.x == 25,
            r.y == 25,
            r.item_factory_container.wf(),
    {
        GameMap {
            item_factory_container: crate::item_data_factory::MapItemFactoryContainer::new(),
            x: 25,
            y: 25,
        }
    }
}

/// Marker of a hill scenery item.
#[derive(Clone, Copy, Debug, PartialEq, Eq, Structural)]
pub struct Hill;

/// Everything the engine needs to spawn one hill: placement, extent, and the
/// masks of its static body. A hill is also a navigation obstacle.
#[derive(Clone, Copy, Debug, PartialEq, Eq, Structural)]
pub struct HillSpawn {
    /// Where the hill stands.
    pub position: crate::common::Vec3Fixed,
    /// Edge length of the hill's sprite and collider.
    pub size: Fixed,
    /// Masks of the hill's static body.
    pub layers: CollisionLayers,
}

/// What spawning a hill at `position` yields.
pub open spec fn spec_hill_spawn(position: crate::common::Vec3Fixed) -> HillSpawn {
    HillSpawn {
        position,
        size: Fixed { raw: (MAP_ITEM_CONTENT_SIZE * FIXED_SCALE) as i64 },
        layers: CollisionLayers {
            memberships: GameLayer::Default.spec_bit(),
            filters: GameLayer::Default.spec_bit() | GameLayer::Enemy.spec_bit()
                | GameLayer::Unit.spec_bit(),
        },
    }
}

/// Describe the hill to spawn at `position`: a static obstacle of the tile's
/// content size on the default layers.
pub fn spawn_hill_map_item(
    _map_item_data: &MapItemData,
    position: crate::common::Vec3Fixed,
) -> (r: HillSpawn)
    ensures
        r == spec_hill_spawn(position),
{
    HillSpawn {
        position,
        size: Fixed::from_milli(MAP_ITEM_CONTENT_SIZE * FIXED_SCALE),
        layers: GameLayer::default_layers(),
    }
}

/// The world position of the grid cell `(x, y)` at tile depth.
pub open spec fn spec_item_world_position(x: int, y: int) -> crate::common::Vec3Fixed
    recommends
        i32::MIN <= x <= i32::MAX,
        i32::MIN <= y <= i32::MAX,
{
    crate::common::Vec3Fixed {
        x: Fixed { raw: (FIXED_SCALE + x * MAP_TIEM_SIZE * FIXED_SCALE) as i64 },
        y: Fixed { raw: (-FIXED_SCALE + y * MAP_TIEM_SIZE * FIXED_SCALE) as i64 },
        z: Fixed { raw: (MAP_TILE_LAYER * FIXED_SCALE) as i64 },
    }
}

/// The full plan of a map spawn: the background's extent and, for every
/// stored item in order, what its factory describes (or nothing for an
/// unknown item name).
#[derive(Debug)]
pub struct MapSpawnPlan {
    /// Size of the tiled background.
    pub background_size: Vec2Fixed,
    /// One planned spawn per stored item, in order.
    pub items: Vec<Option<crate::item_data_factory::MapItemSpawn>>,
}

/// Plan the spawn of a whole map: the background sized to the map, and each
/// stored item placed on its grid cell at tile depth and described by its
/// factory; items with unknown names are skipped.
pub fn spawn_map(
    map_data: &MapData,
    map: &GameMap,
    unit_factory_container: &crate::unit::UnitFactoryContainer,
) -> (r: MapSpawnPlan)
    requires
        map.item_factory_container.wf(),
        unit_factory_container.wf(),
    ensures
        r.background_size.x.as_milli() == spec_sat64(map.x * MAP_TIEM_SIZE * FIXED_SCALE),
        r.background_size.y.as_milli() == spec_sat64(map.y * MAP_TIEM_SIZE * FIXED_SCALE),
        r.items@.len() == map_data.items@.len(),
        forall|k: int|
            0 <= k < map_data.items@.len() && !map.item_factory_container.view().contains_key(
                (#[trigger] map_data.items@[k])@.name,
            ) ==> r.items@[k] is None,
        forall|k: int|
            0 <= k < map_data.items@.len() && map.item_factory_container.view().contains_key(
                (#[trigger] map_data.items@[k])@.name,
            ) ==> map.item_factory_container.view()[map_data.items@[k]@.name].spec_spawn_matches(
                map_data.items@[k]@,
                spec_item_world_position(map_data.items@[k]@.x, map_data.items@[k]@.y),
                unit_factory_container.view(),
                r.items@[k],
            ),
{
    let background_size = map.get_map_size();
    let mut items: Vec<Option<crate::item_data_factory::MapItemSpawn>> = Vec::new();
    let n = map_data.items.len();
    let mut i: usize = 0;
    while i < n
        invariant
            i <= n,
            n == map_data.items@.len(),
            map.item_factory_container.wf(),
            unit_factory_container.wf(),
            items@.len() == i,
            forall|k: int|
                0 <= k < i && !map.item_factory_container.view().contains_key(
                    (#[trigger] map_data.items@[k])@.name,
                ) ==> items@[k] is None,
            forall|k: int|
                0 <= k < i && map.item_factory_container.view().contains_key(
                    (#[trigger] map_data.items@[k])@.name,
                ) ==> map.item_factory_container.view()[
                    map_data.items@[k]@.name].spec_spawn_matches(
                    map_data.items@[k]@,
                    spec_item_world_position(map_data.items@[k]@.x, map_data.items@[k]@.y),
                    unit_factory_container.view(),
                    items@[k],
                ),
        decreases n - i,
    {
        let item = &map_data.items[i];
        let flat = get_item_position(item.x, item.y);
        let position = crate::common::Vec3Fixed {
            x: flat.x,
            y: flat.y,
            z: Fixed::from_int(MAP_TILE_LAYER),
        };
        proof {
            assert(position == spec_item_world_position(item@.x, item@.y));
        }
        let planned = map.item_factory_container.spawn_map_item(
            item,
            position,
            unit_factory_container,
        );
        items.push(planned);
        i = i + 1;
    }
    MapSpawnPlan { background_size, items }
}

/// The selected item's model, stamped onto the cell `(x, y)`.
pub open spec fn spec_placed_item(m: MapItemDataModel, x: int, y: int) -> MapItemDataModel {
    MapItemDataModel {
        name: m.name,
        unit_item_name: m.unit_item_name,
        unit_image: m.unit_image,
        enemy_item_name: m.enemy_item_name,
        x,
        y,
    }
}

impl MapState {
    /// The placement decision on a map click: with placing enabled and an
    /// item selected, stamp the selected item onto the hovered cell and
    /// return it with the cell's world position; placing is then disabled
    /// and the selection cleared. Otherwise nothing changes.
    pub fn on_spawn_unit(&mut self, map_position: MapPosition) -> (r: Option<
        (MapItemData, Vec2Fixed),
    >)
        ensures
            !(old(self).enable && old(self).selelcted_map_item_data is Some) ==> *final(self)
                == *old(self) && r is None,
            old(self).enable && (old(self).selelcted_map_item_data matches Some(selected)
                && final(self).enable == false && final(self).selelcted_map_item_data is None && (
            r matches Some(placed) && placed.0@ == spec_placed_item(
                selected@,
                map_position.x as int,
                map_position.y as int,
            ) && placed.1.x.as_milli() == FIXED_SCALE + map_position.x * MAP_TIEM_SIZE * FIXED_SCALE
                && placed.1.y.as_milli() == -FIXED_SCALE + map_position.y * MAP_TIEM_SIZE
                * FIXED_SCALE)) || !old(self).enable || old(self).selelcted_map_item_data is None,
    {
        if !self.enable {
            return None;
        }
        let selected = match &self.selelcted_map_item_data {
            Some(item) => item.clone(),
            None => {
                return None;
            },
        };
        let mut map_item_data = selected;
        map_item_data.x = map_position.x;
        map_item_data.y = map_position.y;
        let position = get_item_position(map_item_data.x, map_item_data.y);
        self.enable = false;
        self.selelcted_map_item_data = None;
        Some((map_item_data, position))
    }
}

/// Half a tile, in whole game units: the offset that centers the cursor on
/// its cell.
pub const MAP_TIEM_HALF_SIZE: i64 = 64;

/// The hovered cell and its world position for a cursor at
/// `global_position`: the cursor is shifted by half a tile so the cell under
/// its center wins.
pub fn update_map_position(global_position: Vec2Fixed) -> (r: (MapPosition, Vec2Fixed))
    ensures
        r.0.x as int == spec_cell_x(
            spec_sat64(global_position.x.as_milli() + MAP_TIEM_HALF_SIZE * FIXED_SCALE),
        ),
        r.0.y as int == spec_cell_y(
            spec_sat64(global_position.y.as_milli() + MAP_TIEM_HALF_SIZE * FIXED_SCALE),
        ),
        r.1.x.as_milli() == FIXED_SCALE + r.0.x * MAP_TIEM_SIZE * FIXED_SCALE,
        r.1.y.as_milli() == -FIXED_SCALE + r.0.y * MAP_TIEM_SIZE * FIXED_SCALE,
{
    let half = Fixed::from_int(MAP_TIEM_HALF_SIZE);
    let shifted_x = global_position.x.add(half);
    let shifted_y = global_position.y.add(half);
    let position_i = get_item_position_i(shifted_x, shifted_y);
    let position = get_item_position(position_i.x, position_i.y);
    (position_i, position)
}

/// The map-wide environment: a set of named attributes game rules may read.
#[derive(Debug)]
pub struct MapEnvironment(pub SkillAttributeSet);

impl MapEnvironment {
    /// Well-formed: the attribute set is.
    pub open spec fn wf(self) -> bool {
        self.0.wf()
    }

    /// Read the named environment attribute's current value in whole units;
    /// an unknown name reads as zero.
    pub fn get_property(&self, name: &str) -> (r: i64)
        requires
            self.wf(),
        ensures
            self.0.has_attribute(name@) ==> r == crate::attribute::spec_unit_current(
                self.0.attrs()[self.0.attr_index_of(name@)],
            ),
            !self.0.has_attribute(name@) ==> r == 0,
    {
        match self.0.skill_attribute(name) {
            Some(attribute) => attribute.get_current_value(),
            None => 0,
        }
    }
}

impl Default for MapEnvironment {
    fn default() -> (r: Self)
        ensures
            r.wf(),
            r.0.attrs() == Seq::<crate::attribute::AttributeModel>::empty(),
            r.0.deps() == Seq::<crate::attribute::DependencyModel>::empty(),
    {
        MapEnvironment(SkillAttributeSet::default())
    }
}

} // verus!
