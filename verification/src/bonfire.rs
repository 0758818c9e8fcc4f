//! The bonfire: a unit that periodically generates sunlight products.

use vstd::prelude::*;

use crate::fixed::{Fixed, FIXED_SCALE};
use crate::product::{ProductMeta, ProductMetaModel};
use crate::unit::{Unit, UnitData, UnitExtras, UnitFactory};

verus! {

/// Whole units of sunlight one bonfire tick announces.
pub const BONFIRE_SUNLIGHT: i64 = 10;

/// A bonfire's production: the product announcements it emits whenever its
/// unit finishes a cooldown.
#[derive(Debug)]
pub struct Bonfire {
    /// What one emission announces.
    pub products: Vec<ProductMeta>,
}

impl View for Bonfire {
    type V = Seq<ProductMetaModel>;

    open spec fn view(&self) -> Seq<ProductMetaModel> {
        self.products@.map_values(|m: ProductMeta| m@)
    }
}

impl Clone for Bonfire {
    fn clone(&self) -> (r: Self)
        ensures
            r@ == self@,
    {
        let mut products: Vec<ProductMeta> = Vec::new();
        let n = self.products.len();
        let mut i: usize = 0;
        while i < n
            invariant
                i <= n,
                n == self.products@.len(),
                products@.len() == i,
                forall|j: int| 0 <= j < i ==> (#[trigger] products@[j])@ == self.products@[j]@,
            decreases n - i,
        {
            products.push(self.products[i].clone());
            i = i + 1;
        }
        let r = Bonfire { products };
        proof {
            assert(r@ =~= self@);
        }
        r
    }
}

/// The production of a stock bonfire: one sunlight announcement of the fixed
/// amount.
pub open spec fn spec_bonfire_default_products() -> Seq<ProductMetaModel> {
    seq![ProductMetaModel { name: "sunlight"@, value: BONFIRE_SUNLIGHT * FIXED_SCALE }]
}

impl Default for Bonfire {
    fn default() -> (r: Self)
        ensures
            r@ == spec_bonfire_default_products(),
    {
        let mut products: Vec<ProductMeta> = Vec::new();
        let name: String = "sunlight".to_owned();
        products.push(ProductMeta { name, value: Fixed::from_int(BONFIRE_SUNLIGHT) });
        let r = Bonfire { products };
        proof {
            assert(r@ =~= spec_bonfire_default_products());
        }
        r
    }
}

impl Bonfire {
    /// One bonfire step: when the unit's production is ready, reset the flag
    /// and emit this bonfire's announcements; otherwise emit nothing.
    pub fn process(&self, unit: &mut Unit) -> (emitted: Vec<ProductMeta>)
        ensures
            final(unit).cooling_down == false,
            old(unit).cooling_down ==> emitted@.map_values(|m: ProductMeta| m@) == self@,
            !old(unit).cooling_down ==> emitted@.len() == 0,
    {
        if unit.cooling_down {
            unit.cooling_down = false;
            let r = self.clone();
            r.products
        } else {
            Vec::new()
        }
    }
}

/// Builds bonfires with the stock production.
#[derive(Clone, Copy, Debug, PartialEq, Eq, Structural)]
pub struct BonfireFactory;

impl UnitFactory for BonfireFactory {
    fn spawn(&self, _data: &UnitData) -> (r: UnitExtras)
        ensures
            r matches UnitExtras::Bonfire(b) && b@ == spec_bonfire_default_products(),
    {
        UnitExtras::Bonfire(Bonfire::default())
    }
}

} // verus!
