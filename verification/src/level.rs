//! The running level: collected products, the unit palette and its buttons.

use vstd::prelude::*;

use crate::map::{MapItemData, MapState};
use crate::product::{ErasedProduct, ErasedProductProcessor, ProductMeta, ProductSystem, Sunlight,
    SunlightProductProcessor};
use crate::unit::UnitData;

verus! {

/// Marker of the text widget showing the collected sunlight.
#[derive(Clone, Copy, Debug, PartialEq, Eq, Structural)]
pub struct SunlightText;

/// What a level has collected so far.
#[derive(Clone, Copy, Debug, PartialEq, Eq, Structural)]
pub struct LevelCollection {
    /// Sunlight gathered, in whole units.
    pub sunlight: u32,
}

impl Default for LevelCollection {
    fn default() -> (r: Self)
        ensures
            r.sunlight == 0,
    {
        LevelCollection { sunlight: 0 }
    }
}

/// The sunlight the level's product system yields for a batch of product
/// announcements, summed in order.
pub open spec fn spec_collected_sunlight(sys: ProductSystem, metas: Seq<ProductMeta>) -> int
    decreases metas.len(),
{
    if metas.len() == 0 {
        0
    } else {
        spec_collected_sunlight(sys, metas.drop_last()) + (match sys.spec_create(
            metas.last().name@,
            metas.last().value.as_milli(),
        ) {
            Some(e) => match e {
                ErasedProduct::Sunlight(s) => s.0 as int,
            },
            None => 0,
        })
    }
}

/// A batch yields a non-negative amount, and every prefix yields at most
/// the whole batch.
pub proof fn lemma_collected_sunlight_prefix(sys: ProductSystem, metas: Seq<ProductMeta>, i: int)
    requires
        0 <= i <= metas.len(),
    ensures
        0 <= spec_collected_sunlight(sys, metas.take(i)) <= spec_collected_sunlight(sys, metas),
    decreases metas.len() - i,
{
    if i == metas.len() {
        assert(metas.take(i) =~= metas);
        lemma_collected_sunlight_nonneg(sys, metas);
    } else {
        lemma_collected_sunlight_prefix(sys, metas, i + 1);
        assert(metas.take(i + 1).drop_last() =~= metas.take(i));
        lemma_collected_sunlight_nonneg(sys, metas.take(i));
    }
}

/// A batch yields a non-negative amount.
pub proof fn lemma_collected_sunlight_nonneg(sys: ProductSystem, metas: Seq<ProductMeta>)
    ensures
        0 <= spec_collected_sunlight(sys, metas),
    decreases metas.len(),
{
    if metas.len() > 0 {
        lemma_collected_sunlight_nonneg(sys, metas.drop_last());
    }
}

/// A running level: its product system and what it has collected.
#[derive(Debug)]
pub struct Level {
    /// Resolves product announcements.
    pub product_system: ProductSystem,
    /// The gathered goods.
    pub collection: LevelCollection,
}

impl Level {
    /// Well-formed: the product system is.
    pub open spec fn wf(self) -> bool {
        self.product_system.wf()
    }

    /// Collect a batch of product announcements: every resolvable sunlight
    /// announcement adds its amount to the collection; unresolvable ones are
    /// skipped.
    pub fn collect_product(&mut self, metas: &Vec<ProductMeta>)
        requires
            old(self).wf(),
            old(self).collection.sunlight + spec_collected_sunlight(
                old(self).product_system,
                metas@,
            ) <= u32::MAX,
        ensures
            final(self).wf(),
            final(self).product_system == old(self).product_system,
            final(self).collection.sunlight == old(self).collection.sunlight
                + spec_collected_sunlight(old(self).product_system, metas@),
    {
        let mut sunlight: u32 = 0;
        let n = metas.len();
        let mut i: usize = 0;
        while i < n
            invariant
                i <= n,
                n == metas@.len(),
                *self == *old(self),
                old(self).wf(),
                old(self).collection.sunlight + spec_collected_sunlight(
                    old(self).product_system,
                    metas@,
                ) <= u32::MAX,
                sunlight as int == spec_collected_sunlight(
                    old(self).product_system,
                    metas@.take(i as int),
                ),
            decreases n - i,
        {
            proof {
                assert(metas@.take(i + 1).drop_last() =~= metas@.take(i as int));
                assert(metas@.take(i + 1).last() == metas@[i as int]);
                lemma_collected_sunlight_prefix(old(self).product_system, metas@, i + 1);
            }
            let created: Option<Sunlight> = self.product_system.create(&metas[i]);
            match created {
                Some(product) => {
                    sunlight = sunlight + product.0;
                },
                None => {},
            }
            i = i + 1;
        }
        proof {
            assert(metas@.take(n as int) =~= metas@);
        }
        if sunlight == 0 {
            return ;
        }
        self.collection.sunlight = self.collection.sunlight + sunlight;
    }
}

impl Default for Level {
    /// The stock level: the sunlight processor registered under `sunlight`,
    /// nothing collected yet.
    fn default() -> (r: Self)
        ensures
            r.wf(),
            r.collection.sunlight == 0,
            r.product_system.view() == Map::<Seq<char>, ErasedProductProcessor>::empty().insert(
                "sunlight"@,
                ErasedProductProcessor::Sunlight(SunlightProductProcessor),
            ),
    {
        let mut product_system = ProductSystem::empty();
        product_system.register_processor(
            "sunlight",
            ErasedProductProcessor::Sunlight(SunlightProductProcessor),
        );
        Level { product_system, collection: LevelCollection::default() }
    }
}

/// A palette button offering one unit for placement; pressing it selects the
/// unit on the map and starts the button's own cooldown.
#[derive(Debug)]
pub struct UnitDataButton {
    /// The unit this button places.
    pub unit_data: UnitData,
    /// Set while the button's cooldown runs.
    pub disabled: bool,
}

impl UnitDataButton {
    /// Press the button: when it is not disabled, disable it and select this
    /// button's unit as the pending map item. Returns whether the press took
    /// effect (and so whether a cooldown must start).
    pub fn press(&mut self, map_state: &mut MapState) -> (took: bool)
        ensures
            took == !old(self).disabled,
            final(self).disabled == true,
            final(self).unit_data@ == old(self).unit_data@,
            old(self).disabled ==> *final(map_state) == *old(map_state) && *final(self)
                == *old(self),
            !old(self).disabled ==> final(map_state).enable == old(map_state).enable
                && (final(map_state).selelcted_map_item_data matches Some(item) && item@
                == crate::map::spec_item_from_unit_data(old(self).unit_data@)),
    {
        if !self.disabled {
            self.disabled = true;
            map_state.selelcted_map_item_data = Some(
                MapItemData::from_unit_data(&self.unit_data),
            );
            true
        } else {
            false
        }
    }
}

/// A one-shot timer gating how soon a palette button can be pressed again.
#[derive(Clone, Copy, Debug, PartialEq, Eq, Structural)]
pub struct UsedCooldownTimer {
    /// Time accumulated so far, capped at the duration.
    pub elapsed_ms: u64,
    /// The full wait.
    pub duration_ms: u64,
}

impl UsedCooldownTimer {
    /// A fresh timer waiting `secs` seconds.
    pub fn new(secs: u64) -> (r: UsedCooldownTimer)
        requires
            secs <= 18_446_744_073_709_551,
        ensures
            r.elapsed_ms == 0,
            r.duration_ms == secs * 1000,
    {
        UsedCooldownTimer { elapsed_ms: 0, duration_ms: secs * 1000 }
    }

    /// Advance by `delta_ms`; returns whether the wait ended during this
    /// tick. The accumulated time caps at the duration and stays there.
    pub fn tick(&mut self, delta_ms: u64) -> (just_finished: bool)
        ensures
            final(self).duration_ms == old(self).duration_ms,
            just_finished == (old(self).elapsed_ms < old(self).duration_ms && old(self).elapsed_ms
                + delta_ms >= old(self).duration_ms),
            final(self).elapsed_ms == (if old(self).elapsed_ms + delta_ms
                >= old(self).duration_ms {
                old(self).duration_ms as int
            } else {
                old(self).elapsed_ms + delta_ms
            }),
    {
        let total: u128 = (self.elapsed_ms as u128) + (delta_ms as u128);
        if total >= self.duration_ms as u128 {
            let finished = self.elapsed_ms < self.duration_ms;
            self.elapsed_ms = self.duration_ms;
            finished
        } else {
            self.elapsed_ms = total as u64;
            false
        }
    }
}

/// One tick of a button's re-use gate: advance the timer and, the moment the
/// wait ends, enable the button again. Returns whether the wait ended during
/// this tick (and so whether the timer can be discarded).
pub fn update_used_cooldown_timer(
    used_cooldown_timer: &mut UsedCooldownTimer,
    delta_ms: u64,
    button: &mut UnitDataButton,
) -> (finished: bool)
    ensures
        finished == (old(used_cooldown_timer).elapsed_ms < old(used_cooldown_timer).duration_ms
            && old(used_cooldown_timer).elapsed_ms + delta_ms >= old(
            used_cooldown_timer,
        ).duration_ms),
        finished ==> final(button).disabled == false && final(button).unit_data@ == old(
            button,
        ).unit_data@,
        !finished ==> *final(button) == *old(button),
        final(used_cooldown_timer).duration_ms == old(used_cooldown_timer).duration_ms,
{
    let finished = used_cooldown_timer.tick(delta_ms);
    if finished {
        button.disabled = false;
    }
    finished
}

/// Marker tying a cooldown text widget to its button entity.
#[derive(Clone, Copy, Debug, PartialEq, Eq, Structural)]
pub struct UsedCooldownTimerText(pub crate::skill::EntityId);

/// The palette of units the player can place.
#[derive(Debug)]
pub struct UnitDataCollection {
    /// The offered units, in display order.
    pub items: Vec<UnitData>,
}

impl Default for UnitDataCollection {
    /// The stock palette: the arrow tower.
    fn default() -> (r: Self)
        ensures
            r.items@.len() == 1,
            r.items@[0].item_name@ == "arrow_tower"@,
            r.items@[0].image@ == "TemporaryArrowTower"@,
    {
        let mut items: Vec<UnitData> = Vec::new();
        items.push(
            UnitData {
                item_name: "arrow_tower".to_owned(),
                image: "TemporaryArrowTower".to_owned(),
            },
        );
        UnitDataCollection { items }
    }
}

} // verus!
