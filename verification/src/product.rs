//! Products: typed goods that units generate, resolved by name through a
//! registry of processors.
//!
//! A processor turns a [`ProductMeta`] announcement into a typed product; the
//! payload universe is closed, so type erasure is a sum type and the typed
//! retrieval is a safe downcast that yields nothing on a kind mismatch.

use vstd::prelude::*;

use crate::fixed::{spec_clamp, spec_div_trunc, Fixed, FIXED_SCALE};
use crate::registry::StringRegistry;

verus! {

/// The announcement of a generated product: its processor's name and a raw
/// magnitude.
#[derive(Debug)]
pub struct ProductMeta {
    /// Which processor resolves this product.
    pub name: String,
    /// Raw magnitude the processor interprets.
    pub value: Fixed,
}

/// The mathematical content of a product announcement.
pub ghost struct ProductMetaModel {
    pub name: Seq<char>,
    pub value: int,
}

impl View for ProductMeta {
    type V = ProductMetaModel;

    open spec fn view(&self) -> ProductMetaModel {
        ProductMetaModel { name: self.name@, value: self.value.as_milli() }
    }
}

impl Clone for ProductMeta {
    fn clone(&self) -> (r: Self)
        ensures
            r@ == self@,
    {
        ProductMeta { name: self.name.clone(), value: self.value }
    }
}

/// An amount of sunlight, the game's currency product.
#[derive(Clone, Copy, Debug, PartialEq, Eq, Structural)]
pub struct Sunlight(pub u32);

/// A typed product: a value that can be recovered from its erased form, and
/// only from the matching kind.
pub trait Product: Sized {
    /// The downcast: the typed product, if the erased value is of this kind.
    spec fn spec_from_erased(e: ErasedProduct) -> Option<Self>;

    /// Recover the typed product from its erased form; nothing on a kind
    /// mismatch.
    fn from_erased(e: &ErasedProduct) -> (r: Option<Self>)
        ensures
            r == Self::spec_from_erased(*e),
    ;
}

/// A product with its type erased: one variant per product kind.
#[derive(Clone, Copy, Debug, PartialEq, Eq, Structural)]
pub enum ErasedProduct {
    /// An erased sunlight amount.
    Sunlight(Sunlight),
}

impl Product for Sunlight {
    open spec fn spec_from_erased(e: ErasedProduct) -> Option<Sunlight> {
        match e {
            ErasedProduct::Sunlight(s) => Some(s),
        }
    }

    fn from_erased(e: &ErasedProduct) -> (r: Option<Sunlight>)
        ensures
            r == Self::spec_from_erased(*e),
    {
        match *e {
            ErasedProduct::Sunlight(s) => Some(s),
        }
    }
}

/// A handler turning product announcements into one typed product kind.
pub trait ProductProcessor: Sized {
    /// The product kind this processor yields.
    type Output: Product;

    /// Resolve one announcement; nothing when it is not for this processor.
    fn process(&self, product_meta: &ProductMeta) -> Option<Self::Output>;
}

/// The processor of sunlight announcements.
#[derive(Clone, Copy, Debug, PartialEq, Eq, Structural)]
pub struct SunlightProductProcessor;

/// What the sunlight processor yields: the announced magnitude in whole
/// units, clamped into the `u32` range, for announcements named `Sunlight`.
pub open spec fn spec_sunlight_process(name: Seq<char>, value: int) -> Option<Sunlight> {
    if name == "Sunlight"@ {
        Some(
            Sunlight(
                spec_clamp(spec_div_trunc(value, FIXED_SCALE as int), 0, u32::MAX as int) as u32,
            ),
        )
    } else {
        None
    }
}

impl ProductProcessor for SunlightProductProcessor {
    type Output = Sunlight;

    fn process(&self, product_meta: &ProductMeta) -> (r: Option<Sunlight>)
        ensures
            r == spec_sunlight_process(product_meta.name@, product_meta.value.as_milli()),
    {
        let expected: String = "Sunlight".to_owned();
        if product_meta.name == expected {
            Some(Sunlight(product_meta.value.to_u32()))
        } else {
            None
        }
    }
}

/// A processor with its output type erased: one variant per processor kind.
#[derive(Clone, Copy, Debug, PartialEq, Eq, Structural)]
pub enum ErasedProductProcessor {
    /// The sunlight processor.
    Sunlight(SunlightProductProcessor),
}

impl ErasedProductProcessor {
    /// What this processor yields for an announcement, erased.
    pub open spec fn spec_process(self, name: Seq<char>, value: int) -> Option<ErasedProduct> {
        match self {
            ErasedProductProcessor::Sunlight(_) => match spec_sunlight_process(name, value) {
                Some(s) => Some(ErasedProduct::Sunlight(s)),
                None => None,
            },
        }
    }

    /// Resolve one announcement, erased; nothing when the processor does not
    /// accept it.
    pub fn process(&self, product_meta: &ProductMeta) -> (r: Option<ErasedProduct>)
        ensures
            r == self.spec_process(product_meta.name@, product_meta.value.as_milli()),
    {
        match self {
            ErasedProductProcessor::Sunlight(p) => match p.process(product_meta) {
                Some(s) => Some(ErasedProduct::Sunlight(s)),
                None => None,
            },
        }
    }
}

/// The registry of product processors, keyed by name.
#[derive(Debug)]
pub struct ProductSystem(pub StringRegistry<ErasedProductProcessor>);

impl ProductSystem {
    /// Well-formed: the underlying registry is.
    pub open spec fn wf(self) -> bool {
        self.0.wf()
    }

    /// The registered processors, by name.
    pub open spec fn view(self) -> Map<Seq<char>, ErasedProductProcessor> {
        self.0@
    }

    /// What creating a product from `meta` yields: the registered processor's
    /// output, if the name is registered and the processor accepts the
    /// announcement.
    pub open spec fn spec_create(self, name: Seq<char>, value: int) -> Option<ErasedProduct> {
        if self.view().contains_key(name) {
            self.view()[name].spec_process(name, value)
        } else {
            None
        }
    }

    /// A system with no processors.
    pub fn empty() -> (r: Self)
        ensures
            r.wf(),
            r.view() == Map::<Seq<char>, ErasedProductProcessor>::empty(),
    {
        ProductSystem(StringRegistry::new())
    }

    /// Register a processor under `name`, replacing any present one.
    pub fn register_processor(&mut self, name: &str, processor: ErasedProductProcessor)
        requires
            old(self).wf(),
        ensures
            final(self).wf(),
            final(self).view() == old(self).view().insert(name@, processor),
    {
        self.0.insert(name, processor);
    }

    /// Create the typed product announced by `meta`: nothing when no
    /// processor is registered under its name, when the processor rejects the
    /// announcement, or when the requested type does not match what the
    /// processor yields.
    pub fn create<T: Product>(&self, product_meta: &ProductMeta) -> (r: Option<T>)
        requires
            self.wf(),
        ensures
            r == (match self.spec_create(product_meta.name@, product_meta.value.as_milli()) {
                Some(e) => T::spec_from_erased(e),
                None => None::<T>,
            }),
    {
        match self.0.get(product_meta.name.as_str()) {
            Some(processor) => match processor.process(product_meta) {
                Some(erased) => T::from_erased(&erased),
                None => None,
            },
            None => None,
        }
    }
}

} // verus!
