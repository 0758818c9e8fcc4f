//! Numeric game attributes with layered modifiers.
//!
//! A [`SkillAttribute`] keeps a base value and an ordered list of
//! [`SkillAttributeModifier`]s and derives a cached current value after every
//! mutation: absolute modifiers add their value, percentage modifiers each add
//! their value times the base (not the running total), and if any overload
//! modifier is present the one with the highest priority (first-registered
//! wins on ties) replaces the result outright. Reads clamp into the
//! attribute's physical range and truncate to whole game units.

use vstd::prelude::*;
use vstd::string::StringExecFns;

use crate::fixed::{Fixed, FIXED_SCALE, spec_clamp, spec_div_trunc, spec_sat64};

verus! {

/// How a modifier changes the attribute value.
#[derive(Clone, Copy, Debug, PartialEq, Eq, Structural)]
pub enum SkillAttributeModifierOperation {
    /// Adds its value to the base.
    Absolute,
    /// Adds its value times the base.
    Percentage,
    /// Replaces the combined value outright.
    Overload,
}

impl Default for SkillAttributeModifierOperation {
    fn default() -> (r: Self)
        ensures
            r is Absolute,
    {
        SkillAttributeModifierOperation::Absolute
    }
}

/// One adjustment to an attribute, tagged with the source that installed it.
#[derive(Debug)]
pub struct SkillAttributeModifier {
    /// How the value is applied.
    pub operation: SkillAttributeModifierOperation,
    /// Conflict rank among overload modifiers.
    pub priority: u32,
    /// The magnitude of the adjustment.
    pub value: Fixed,
    /// Tag naming who installed the modifier.
    pub source: String,
}

/// The mathematical content of a modifier: its exec form with the value in
/// thousandths of a unit and the source as a character sequence.
pub ghost struct ModifierModel {
    pub operation: SkillAttributeModifierOperation,
    pub priority: u32,
    pub value: int,
    pub source: Seq<char>,
}

impl View for SkillAttributeModifier {
    type V = ModifierModel;

    open spec fn view(&self) -> ModifierModel {
        ModifierModel {
            operation: self.operation,
            priority: self.priority,
            value: self.value.as_milli(),
            source: self.source@,
        }
    }
}

impl Clone for SkillAttributeModifier {
    fn clone(&self) -> (r: Self)
        ensures
            r@ == self@,
    {
        SkillAttributeModifier {
            operation: self.operation,
            priority: self.priority,
            value: self.value,
            source: self.source.clone(),
        }
    }
}

impl PartialEq for SkillAttributeModifier {
    /// Structural equality, the identity used for add/remove deduplication.
    fn eq(&self, other: &Self) -> (r: bool) {
        self.operation == other.operation && self.priority == other.priority && self.value
            == other.value && self.source == other.source
    }
}

impl vstd::std_specs::cmp::PartialEqSpecImpl for SkillAttributeModifier {
    open spec fn obeys_eq_spec() -> bool {
        true
    }

    open spec fn eq_spec(&self, other: &Self) -> bool {
        self@ == other@
    }
}

impl Default for SkillAttributeModifier {
    fn default() -> (r: Self)
        ensures
            r@.operation is Absolute,
            r@.priority == 0,
            r@.value == 0,
            r@.source == Seq::<char>::empty(),
    {
        SkillAttributeModifier {
            operation: SkillAttributeModifierOperation::Absolute,
            priority: 0,
            value: Fixed::from_milli(0),
            source: String::new(),
        }
    }
}

/// The models of a list of modifiers, in order.
pub open spec fn models_of(mods: Seq<SkillAttributeModifier>) -> Seq<ModifierModel> {
    mods.map_values(|m: SkillAttributeModifier| m@)
}

/// Sum of the values of the absolute modifiers.
pub open spec fn spec_sum_absolute(mods: Seq<ModifierModel>) -> int
    decreases mods.len(),
{
    if mods.len() == 0 {
        0
    } else {
        spec_sum_absolute(mods.drop_last()) + if mods.last().operation is Absolute {
            mods.last().value
        } else {
            0
        }
    }
}

/// One percentage modifier's contribution: its value times the base, exact to
/// the nearest thousandth and saturated.
pub open spec fn spec_pct_term(value: int, base: int) -> int {
    spec_sat64(spec_div_trunc(value * base, FIXED_SCALE as int))
}

/// Sum of the contributions of the percentage modifiers, each scaling the
/// base value, not the running total.
pub open spec fn spec_sum_percentage(mods: Seq<ModifierModel>, base: int) -> int
    decreases mods.len(),
{
    if mods.len() == 0 {
        0
    } else {
        spec_sum_percentage(mods.drop_last(), base) + if mods.last().operation is Percentage {
            spec_pct_term(mods.last().value, base)
        } else {
            0
        }
    }
}

/// The winning overload modifier, if any: a later one displaces the incumbent
/// only when its priority is strictly greater, so the first-registered wins
/// on ties.
pub open spec fn spec_pick_overload(mods: Seq<ModifierModel>) -> Option<ModifierModel>
    decreases mods.len(),
{
    if mods.len() == 0 {
        None
    } else {
        let prev = spec_pick_overload(mods.drop_last());
        let m = mods.last();
        if !(m.operation is Overload) {
            prev
        } else {
            match prev {
                None => Some(m),
                Some(p) => if p.priority < m.priority {
                    Some(m)
                } else {
                    Some(p)
                },
            }
        }
    }
}

/// The combination rule: base plus absolute and percentage contributions,
/// unless an overload modifier replaces the value outright.
pub open spec fn spec_combined(base: int, mods: Seq<ModifierModel>) -> int {
    match spec_pick_overload(mods) {
        Some(m) => m.value,
        None => spec_sat64(base + spec_sum_absolute(mods) + spec_sum_percentage(mods, base)),
    }
}

/// Recompute the combined value of `base` under `modifiers`, exactly as
/// [`spec_combined`] states it.
fn combined_value(base: Fixed, modifiers: &Vec<SkillAttributeModifier>) -> (r: Fixed)
    ensures
        r.as_milli() == spec_combined(base.as_milli(), models_of(modifiers@)),
{
    let ghost models = models_of(modifiers@);
    let mut abs_acc: i128 = 0;
    let mut pct_acc: i128 = 0;
    let mut overload: Option<SkillAttributeModifier> = None;
    let n = modifiers.len();
    let mut i: usize = 0;
    while i < n
        invariant
            i <= n,
            n == modifiers@.len(),
            models == models_of(modifiers@),
            abs_acc == spec_sum_absolute(models.take(i as int)),
            pct_acc == spec_sum_percentage(models.take(i as int), base.as_milli()),
            -(i as int) * 0x8000_0000_0000_0000 <= abs_acc <= (i as int) * 0x7fff_ffff_ffff_ffff,
            -(i as int) * 0x8000_0000_0000_0000 <= pct_acc <= (i as int) * 0x7fff_ffff_ffff_ffff,
            -(i as int) * 0x8000_0000_0000_0000 <= abs_acc + pct_acc <= (i as int)
                * 0x7fff_ffff_ffff_ffff,
            overload matches Some(m) ==> spec_pick_overload(models.take(i as int)) == Some(m@),
            overload is None ==> spec_pick_overload(models.take(i as int)) is None,
        decreases n - i,
    {
        proof {
            assert(models.take(i + 1).drop_last() =~= models.take(i as int));
            assert(models.take(i + 1).last() == models[i as int]);
        }
        let m = &modifiers[i];
        match m.operation {
            SkillAttributeModifierOperation::Absolute => {
                abs_acc = abs_acc + (m.value.raw as i128);
            },
            SkillAttributeModifierOperation::Percentage => {
                let term = m.value.mul(base);
                pct_acc = pct_acc + (term.raw as i128);
            },
            SkillAttributeModifierOperation::Overload => {
                let displace = match &overload {
                    None => true,
                    Some(cur) => cur.priority < m.priority,
                };
                if displace {
                    overload = Some(m.clone());
                }
            },
        }
        i = i + 1;
    }
    proof {
        assert(models.take(n as int) =~= models);
    }
    match overload {
        Some(m) => m.value,
        None => {
            let total: i128 = (base.raw as i128) + abs_acc + pct_acc;
            if total > i64::MAX as i128 {
                Fixed::from_milli(i64::MAX)
            } else if total < i64::MIN as i128 {
                Fixed::from_milli(i64::MIN)
            } else {
                Fixed::from_milli(total as i64)
            }
        },
    }
}

/// The modifiers of `mods` whose source is not `source`, in order.
pub open spec fn spec_filter_out_source(mods: Seq<ModifierModel>, source: Seq<char>) -> Seq<
    ModifierModel,
>
    decreases mods.len(),
{
    if mods.len() == 0 {
        Seq::empty()
    } else {
        let rest = spec_filter_out_source(mods.drop_last(), source);
        if mods.last().source == source {
            rest
        } else {
            rest.push(mods.last())
        }
    }
}

/// Whether some modifier in `mods` has the model `m`.
pub open spec fn spec_contains_model(mods: Seq<ModifierModel>, m: ModifierModel) -> bool {
    exists|i: int| 0 <= i < mods.len() && mods[i] == m
}

/// A bounded numeric stat: a base value plus layered modifiers, combined into
/// a cached current value that is recomputed after every mutation.
#[derive(Debug)]
pub struct SkillAttribute {
    /// Physical lower bound, applied at read time.
    pub min_value: Fixed,
    /// Physical upper bound, applied at read time.
    pub max_value: Fixed,
    /// The unmodified value.
    pub base_value: Fixed,
    /// Cached result of the combination rule; never stale.
    pub current_value: Fixed,
    /// The installed modifiers, in registration order, without structural
    /// duplicates.
    pub modifiers: Vec<SkillAttributeModifier>,
    /// The attribute's key within its set.
    pub name: String,
}

impl SkillAttribute {
    /// The models of the installed modifiers, in order.
    pub open spec fn modifiers_model(self) -> Seq<ModifierModel> {
        models_of(self.modifiers@)
    }

    /// Well-formed: bounds ordered, the cache agrees with the combination
    /// rule, and no two installed modifiers are structurally equal.
    pub open spec fn wf(self) -> bool {
        &&& self.min_value.as_milli() <= self.max_value.as_milli()
        &&& self.current_value.as_milli() == spec_combined(
            self.base_value.as_milli(),
            self.modifiers_model(),
        )
        &&& forall|i: int, j: int|
            0 <= i < j < self.modifiers_model().len() ==> self.modifiers_model()[i]
                != self.modifiers_model()[j]
    }

    /// Everything but the base value, the cache and the modifier list is kept.
    pub open spec fn same_frame(self, other: SkillAttribute) -> bool {
        &&& self.min_value == other.min_value
        &&& self.max_value == other.max_value
        &&& self.name@ == other.name@
    }

    fn calculate_current_value(&mut self)
        ensures
            final(self).current_value.as_milli() == spec_combined(
                final(self).base_value.as_milli(),
                final(self).modifiers_model(),
            ),
            final(self).base_value == old(self).base_value,
            final(self).modifiers@ == old(self).modifiers@,
            final(self).same_frame(*old(self)),
    {
        self.current_value = combined_value(self.base_value, &self.modifiers);
    }

    /// Shift the base value by `value` and recompute the current value. The
    /// base itself is not bounds-checked; clamping happens only at read time.
    pub fn update_base_value(&mut self, value: Fixed)
        requires
            old(self).wf(),
        ensures
            final(self).wf(),
            final(self).same_frame(*old(self)),
            final(self).base_value.as_milli() == spec_sat64(
                old(self).base_value.as_milli() + value.as_milli(),
            ),
            final(self).modifiers_model() == old(self).modifiers_model(),
            final(self).current_value.as_milli() == spec_combined(
                final(self).base_value.as_milli(),
                old(self).modifiers_model(),
            ),
    {
        self.base_value = self.base_value.add(value);
        self.calculate_current_value();
    }

    /// Install `modifier` unless a structurally equal one is already present;
    /// a duplicate add is a silent no-op.
    pub fn add_modifier(&mut self, modifier: &SkillAttributeModifier)
        requires
            old(self).wf(),
        ensures
            final(self).wf(),
            final(self).same_frame(*old(self)),
            final(self).base_value == old(self).base_value,
            spec_contains_model(old(self).modifiers_model(), modifier@)
                ==> *final(self) == *old(self),
            !spec_contains_model(old(self).modifiers_model(), modifier@)
                ==> final(self).modifiers_model() == old(self).modifiers_model().push(modifier@),
            final(self).current_value.as_milli() == spec_combined(
                final(self).base_value.as_milli(),
                final(self).modifiers_model(),
            ),
    {
        if !contains_modifier(&self.modifiers, modifier) {
            self.modifiers.push(modifier.clone());
            proof {
                assert(self.modifiers_model() =~= old(self).modifiers_model().push(modifier@));
            }
            self.calculate_current_value();
        }
    }

    /// Remove the modifier structurally equal to `modifier`, if present;
    /// removing an absent modifier is a silent no-op.
    pub fn remove_modifier(&mut self, modifier: &SkillAttributeModifier)
        requires
            old(self).wf(),
        ensures
            final(self).wf(),
            final(self).same_frame(*old(self)),
            final(self).base_value == old(self).base_value,
            !spec_contains_model(old(self).modifiers_model(), modifier@)
                ==> *final(self) == *old(self),
            spec_contains_model(old(self).modifiers_model(), modifier@) ==> exists|i: int|
                0 <= i < old(self).modifiers_model().len() && old(self).modifiers_model()[i]
                    == modifier@ && final(self).modifiers_model() == old(
                self,
            ).modifiers_model().remove(i),
            final(self).current_value.as_milli() == spec_combined(
                final(self).base_value.as_milli(),
                final(self).modifiers_model(),
            ),
    {
        let ghost old_models = self.modifiers_model();
        let n = self.modifiers.len();
        let mut i: usize = 0;
        while i < n
            invariant
                i <= n,
                n == self.modifiers@.len(),
                *self == *old(self),
                old(self).wf(),
                old_models == old(self).modifiers_model(),
                forall|j: int| 0 <= j < i ==> old_models[j] != modifier@,
            decreases n - i,
        {
            if self.modifiers[i].eq(modifier) {
                proof {
                    assert(old_models[i as int] == modifier@);
                    assert(spec_contains_model(old_models, modifier@));
                }
                self.modifiers.remove(i);
                proof {
                    assert(self.modifiers_model() =~= old_models.remove(i as int));
                    lemma_remove_keeps_uniqueness(old_models, i as int);
                }
                self.calculate_current_value();
                proof {
                    assert(self.modifiers_model() == old_models.remove(i as int));
                }
                return ;
            }
            i = i + 1;
        }
        proof {
            assert(forall|j: int| 0 <= j < old_models.len() ==> old_models[j] != modifier@);
        }
    }

    /// Remove every modifier tagged `source` and recompute; other modifiers
    /// keep their order and contribution.
    pub fn remove_modifier_with_source(&mut self, source: &str)
        requires
            old(self).wf(),
        ensures
            final(self).wf(),
            final(self).same_frame(*old(self)),
            final(self).base_value == old(self).base_value,
            final(self).modifiers_model() == spec_filter_out_source(
                old(self).modifiers_model(),
                source@,
            ),
            final(self).current_value.as_milli() == spec_combined(
                final(self).base_value.as_milli(),
                final(self).modifiers_model(),
            ),
    {
        let ghost old_models = self.modifiers_model();
        let source_owned: String = source.to_owned();
        let mut kept: Vec<SkillAttributeModifier> = Vec::new();
        let n = self.modifiers.len();
        let mut i: usize = 0;
        while i < n
            invariant
                i <= n,
                n == self.modifiers@.len(),
                *self == *old(self),
                old(self).wf(),
                old_models == old(self).modifiers_model(),
                source_owned@ == source@,
                models_of(kept@) == spec_filter_out_source(old_models.take(i as int), source@),
            decreases n - i,
        {
            proof {
                assert(old_models.take(i + 1).drop_last() =~= old_models.take(i as int));
            }
            if !(self.modifiers[i].source == source_owned) {
                let ghost kept_before = models_of(kept@);
                kept.push(self.modifiers[i].clone());
                proof {
                    assert(models_of(kept@) =~= kept_before.push(old_models[i as int]));
                }
            }
            i = i + 1;
        }
        proof {
            assert(old_models.take(n as int) =~= old_models);
            lemma_filter_out_source_keeps_uniqueness(old_models, source@);
        }
        self.modifiers = kept;
        self.calculate_current_value();
    }

    /// The base value, clamped into the physical range and truncated to whole
    /// game units.
    pub fn base_value(&self) -> (r: i64)
        requires
            self.wf(),
        ensures
            r == spec_div_trunc(
                spec_clamp(
                    self.base_value.as_milli(),
                    self.min_value.as_milli(),
                    self.max_value.as_milli(),
                ),
                FIXED_SCALE as int,
            ),
    {
        self.base_value.clamp(self.min_value, self.max_value).to_int()
    }

    /// The current value, clamped into the physical range and truncated to
    /// whole game units.
    pub fn get_current_value(&self) -> (r: i64)
        requires
            self.wf(),
        ensures
            r == spec_div_trunc(
                spec_clamp(
                    self.current_value.as_milli(),
                    self.min_value.as_milli(),
                    self.max_value.as_milli(),
                ),
                FIXED_SCALE as int,
            ),
    {
        self.current_value.clamp(self.min_value, self.max_value).to_int()
    }
}

impl Default for SkillAttribute {
    /// An unbounded attribute with base zero, no modifiers and an empty name.
    fn default() -> (r: Self)
        ensures
            r.wf(),
            r.min_value.as_milli() == i64::MIN,
            r.max_value.as_milli() == i64::MAX,
            r.base_value.as_milli() == 0,
            r.current_value.as_milli() == 0,
            r.modifiers_model() == Seq::<ModifierModel>::empty(),
            r.name@ == Seq::<char>::empty(),
    {
        let r = SkillAttribute {
            min_value: Fixed::lower_limit(),
            max_value: Fixed::upper_limit(),
            base_value: Fixed::from_milli(0),
            current_value: Fixed::from_milli(0),
            modifiers: Vec::new(),
            name: String::new(),
        };
        proof {
            assert(r.modifiers_model() =~= Seq::<ModifierModel>::empty());
        }
        r
    }
}

/// Whether `modifiers` holds an element structurally equal to `modifier`.
fn contains_modifier(
    modifiers: &Vec<SkillAttributeModifier>,
    modifier: &SkillAttributeModifier,
) -> (r: bool)
    ensures
        r == spec_contains_model(models_of(modifiers@), modifier@),
{
    let n = modifiers.len();
    let mut i: usize = 0;
    while i < n
        invariant
            i <= n,
            n == modifiers@.len(),
            forall|j: int| 0 <= j < i ==> models_of(modifiers@)[j] != modifier@,
        decreases n - i,
    {
        if modifiers[i].eq(modifier) {
            proof {
                assert(models_of(modifiers@)[i as int] == modifier@);
            }
            return true;
        }
        i = i + 1;
    }
    false
}

/// The mathematical content of an attribute: every field of its exec form,
/// with values in thousandths of a unit.
pub ghost struct AttributeModel {
    pub min: int,
    pub max: int,
    pub base: int,
    pub current: int,
    pub modifiers: Seq<ModifierModel>,
    pub name: Seq<char>,
}

impl View for SkillAttribute {
    type V = AttributeModel;

    open spec fn view(&self) -> AttributeModel {
        AttributeModel {
            min: self.min_value.as_milli(),
            max: self.max_value.as_milli(),
            base: self.base_value.as_milli(),
            current: self.current_value.as_milli(),
            modifiers: self.modifiers_model(),
            name: self.name@,
        }
    }
}

/// The current value in whole game units, as `get_current_value` reads it.
pub open spec fn spec_unit_current(a: AttributeModel) -> int {
    spec_div_trunc(spec_clamp(a.current, a.min, a.max), FIXED_SCALE as int)
}

/// The model of an attribute after its base has been shifted by `value`
/// thousandths and its cache recomputed.
pub open spec fn spec_base_updated(a: AttributeModel, value: int) -> AttributeModel {
    let nb = spec_sat64(a.base + value);
    AttributeModel {
        min: a.min,
        max: a.max,
        base: nb,
        current: spec_combined(nb, a.modifiers),
        modifiers: a.modifiers,
        name: a.name,
    }
}

/// No modifier kept by the source filter carries the filtered source.
proof fn lemma_filter_out_source_removes(mods: Seq<ModifierModel>, source: Seq<char>)
    ensures
        forall|i: int|
            0 <= i < spec_filter_out_source(mods, source).len() ==> (
            #[trigger] spec_filter_out_source(mods, source)[i]).source != source,
    decreases mods.len(),
{
    if mods.len() > 0 {
        lemma_filter_out_source_removes(mods.drop_last(), source);
    }
}

/// A rule propagating changes of one attribute into a derived modifier on
/// another: when the source attribute's read value moves by some delta, the
/// target gains (or has replaced) an absolute modifier worth
/// `value * delta`, tagged with the rule's synthesized key.
#[derive(Debug)]
pub struct AttributeDependencyModifier {
    /// Name of the attribute whose changes are propagated.
    pub source: String,
    /// Name of the attribute receiving the derived modifier.
    pub target: String,
    /// Scale applied to the source's delta.
    pub value: Fixed,
}

/// The mathematical content of a dependency rule.
pub ghost struct DependencyModel {
    pub source: Seq<char>,
    pub target: Seq<char>,
    pub value: int,
}

impl View for AttributeDependencyModifier {
    type V = DependencyModel;

    open spec fn view(&self) -> DependencyModel {
        DependencyModel { source: self.source@, target: self.target@, value: self.value.as_milli() }
    }
}

impl Clone for AttributeDependencyModifier {
    fn clone(&self) -> (r: Self)
        ensures
            r@ == self@,
    {
        AttributeDependencyModifier {
            source: self.source.clone(),
            target: self.target.clone(),
            value: self.value,
        }
    }
}

impl Default for AttributeDependencyModifier {
    fn default() -> (r: Self)
        ensures
            r@.source == Seq::<char>::empty(),
            r@.target == Seq::<char>::empty(),
            r@.value == 0,
    {
        AttributeDependencyModifier {
            source: String::new(),
            target: String::new(),
            value: Fixed::from_milli(0),
        }
    }
}

/// The synthesized source tag under which a dependency rule installs its
/// derived modifier: unique per (source, target) pair.
pub open spec fn spec_dependency_key(source: Seq<char>, target: Seq<char>) -> Seq<char> {
    "__attribute_dependency_"@ + source + "__"@ + target
}

/// The derived modifier a dependency rule installs for a source delta of
/// `delta` whole units: absolute, priority zero, worth `value * delta`,
/// tagged with the rule's synthesized key.
pub open spec fn spec_derived_modifier(dep: DependencyModel, delta: int) -> ModifierModel {
    ModifierModel {
        operation: SkillAttributeModifierOperation::Absolute,
        priority: 0,
        value: spec_sat64(
            spec_div_trunc(dep.value * spec_sat64(delta * FIXED_SCALE), FIXED_SCALE as int),
        ),
        source: spec_dependency_key(dep.source, dep.target),
    }
}

impl AttributeDependencyModifier {
    /// The synthesized key of this rule, as a string.
    pub fn get_source(&self) -> (r: String)
        ensures
            r@ == spec_dependency_key(self@.source, self@.target),
    {
        let mut key: String = "__attribute_dependency_".to_owned();
        key.append(self.source.as_str());
        key.append("__");
        key.append(self.target.as_str());
        proof {
            assert(key@ =~= spec_dependency_key(self@.source, self@.target));
        }
        key
    }

    /// Replace the target's derived modifier for this rule with one worth
    /// `value * delta`: any prior modifier under the synthesized key is
    /// removed first, so repeated propagation never stacks.
    pub fn update(&self, target: &mut SkillAttribute, delta: i64)
        requires
            old(target).wf(),
        ensures
            final(target).wf(),
            final(target)@ == spec_derived_applied(old(target)@, self@, spec_derived_modifier(
                self@,
                delta as int,
            )),
    {
        let key = self.get_source();
        target.remove_modifier_with_source(key.as_str());
        proof {
            lemma_filter_out_source_removes(old(target).modifiers_model(), key@);
        }
        let mut modifier = SkillAttributeModifier::default();
        modifier.source = key;
        modifier.value = self.value.mul(Fixed::from_int(delta));
        target.add_modifier(&modifier);
    }
}

/// The model of an attribute after a dependency rule has replaced its derived
/// modifier with `derived` and the cache has been recomputed.
pub open spec fn spec_derived_applied(
    a: AttributeModel,
    dep: DependencyModel,
    derived: ModifierModel,
) -> AttributeModel {
    let mods = spec_filter_out_source(a.modifiers, spec_dependency_key(dep.source, dep.target)).push(
        derived,
    );
    AttributeModel {
        min: a.min,
        max: a.max,
        base: a.base,
        current: spec_combined(a.base, mods),
        modifiers: mods,
        name: a.name,
    }
}

/// The first dependency rule in `deps` with the given source and target
/// names, if any.
pub open spec fn spec_find_dep(
    deps: Seq<DependencyModel>,
    source: Seq<char>,
    target: Seq<char>,
) -> Option<DependencyModel>
    decreases deps.len(),
{
    if deps.len() == 0 {
        None
    } else {
        match spec_find_dep(deps.drop_last(), source, target) {
            Some(d) => Some(d),
            None => {
                let d = deps.last();
                if d.source == source && d.target == target {
                    Some(d)
                } else {
                    None
                }
            },
        }
    }
}

/// A found dependency rule is a member with the searched names, and a member
/// with the searched names means one is found.
proof fn lemma_find_dep_members(deps: Seq<DependencyModel>, source: Seq<char>, target: Seq<char>)
    ensures
        spec_find_dep(deps, source, target) matches Some(d) ==> d.source == source && d.target
            == target && exists|j: int| 0 <= j < deps.len() && deps[j] == d,
        (exists|j: int| 0 <= j < deps.len() && deps[j].source == source && deps[j].target == target)
            ==> spec_find_dep(deps, source, target) is Some,
    decreases deps.len(),
{
    if deps.len() > 0 {
        lemma_find_dep_members(deps.drop_last(), source, target);
        match spec_find_dep(deps.drop_last(), source, target) {
            Some(d) => {
                let j = choose|j: int| 0 <= j < deps.drop_last().len() && deps.drop_last()[j] == d;
                assert(deps[j] == d);
            },
            None => {},
        }
        if exists|j: int|
            0 <= j < deps.len() && deps[j].source == source && deps[j].target == target {
            let j = choose|j: int|
                0 <= j < deps.len() && deps[j].source == source && deps[j].target == target;
            if j < deps.len() - 1 {
                assert(deps.drop_last()[j] == deps[j]);
            }
        }
    }
}

/// The expected attribute list after shifting the base of the attribute at
/// `idx` by `value` thousandths: the attribute itself is base-updated, and if
/// its read value moved, every dependency rule sourced at it replaces the
/// derived modifier on its (present) target.
pub open spec fn spec_update_attribute_result(
    attrs: Seq<AttributeModel>,
    deps: Seq<DependencyModel>,
    idx: int,
    value: int,
) -> Seq<AttributeModel>
    recommends
        0 <= idx < attrs.len(),
{
    let a0 = attrs[idx];
    let a1 = spec_base_updated(a0, value);
    let mid = attrs.update(idx, a1);
    let delta = spec_unit_current(a1) - spec_unit_current(a0);
    if delta == 0 {
        mid
    } else {
        Seq::new(
            mid.len(),
            |k: int|
                match spec_find_dep(deps, a0.name, mid[k].name) {
                    Some(d) => spec_derived_applied(mid[k], d, spec_derived_modifier(d, delta)),
                    None => mid[k],
                },
        )
    }
}

/// A named collection of attributes plus the dependency rules that propagate
/// a change of one attribute's value into a derived modifier on another.
#[derive(Debug)]
pub struct SkillAttributeSet {
    /// The attributes, keyed by their `name` field; names are unique.
    pub data: Vec<SkillAttribute>,
    /// The propagation rules; (source, target) pairs are unique.
    pub dependency_modifiers: Vec<AttributeDependencyModifier>,
}

impl SkillAttributeSet {
    /// The models of the attributes, in insertion order.
    pub open spec fn attrs(self) -> Seq<AttributeModel> {
        self.data@.map_values(|a: SkillAttribute| a@)
    }

    /// The models of the dependency rules, in insertion order.
    pub open spec fn deps(self) -> Seq<DependencyModel> {
        self.dependency_modifiers@.map_values(|d: AttributeDependencyModifier| d@)
    }

    /// Well-formed: every attribute is, attribute names are unique, and no
    /// two rules share a (source, target) pair.
    pub open spec fn wf(self) -> bool {
        &&& forall|i: int| 0 <= i < self.data@.len() ==> (#[trigger] self.data@[i]).wf()
        &&& forall|i: int, j: int|
            0 <= i < j < self.attrs().len() ==> self.attrs()[i].name != self.attrs()[j].name
        &&& forall|i: int, j: int|
            0 <= i < j < self.deps().len() ==> !(self.deps()[i].source == self.deps()[j].source
                && self.deps()[i].target == self.deps()[j].target)
    }

    /// Whether an attribute named `name` is present.
    pub open spec fn has_attribute(self, name: Seq<char>) -> bool {
        exists|i: int| 0 <= i < self.attrs().len() && self.attrs()[i].name == name
    }

    /// The index of the attribute named `name`; meaningful only when present
    /// (and then unique, names being unique).
    pub open spec fn attr_index_of(self, name: Seq<char>) -> int {
        choose|i: int| 0 <= i < self.attrs().len() && self.attrs()[i].name == name
    }

    /// Whether a rule with this (source, target) pair is present.
    pub open spec fn has_dependency(self, source: Seq<char>, target: Seq<char>) -> bool {
        exists|i: int|
            0 <= i < self.deps().len() && self.deps()[i].source == source && self.deps()[i].target
                == target
    }

    /// The index of the rule with this (source, target) pair; meaningful only
    /// when present (and then unique, pairs being unique).
    pub open spec fn dep_index_of(self, source: Seq<char>, target: Seq<char>) -> int {
        choose|i: int|
            0 <= i < self.deps().len() && self.deps()[i].source == source && self.deps()[i].target
                == target
    }

    /// Look up an attribute by name.
    pub fn skill_attribute(&self, attribute_name: &str) -> (r: Option<&SkillAttribute>)
        requires
            self.wf(),
        ensures
            match r {
                Some(a) => self.has_attribute(attribute_name@) && a@ == self.attrs()[self.attr_index_of(
                    attribute_name@,
                )] && a.wf(),
                None => !self.has_attribute(attribute_name@),
            },
    {
        let needle: String = attribute_name.to_owned();
        match find_attribute_index(&self.data, &needle) {
            Some(i) => {
                proof {
                    let w = self.attr_index_of(attribute_name@);
                    assert(self.attrs()[i as int].name == attribute_name@);
                    assert(self.has_attribute(attribute_name@));
                }
                Some(&self.data[i])
            },
            None => {
                proof {
                    assert forall|i: int|
                        0 <= i < self.attrs().len() implies self.attrs()[i].name
                        != attribute_name@ by {
                        assert(self.data@[i].name@ != needle@);
                    }
                }
                None
            },
        }
    }

    /// Insert an attribute, replacing any present one of the same name.
    pub fn add_skill_attribute(&mut self, attribute: SkillAttribute)
        requires
            old(self).wf(),
            attribute.wf(),
        ensures
            final(self).wf(),
            final(self).deps() == old(self).deps(),
            old(self).has_attribute(attribute@.name) ==> final(self).attrs() == old(
                self,
            ).attrs().update(old(self).attr_index_of(attribute@.name), attribute@),
            !old(self).has_attribute(attribute@.name) ==> final(self).attrs() == old(
                self,
            ).attrs().push(attribute@),
    {
        match find_attribute_index(&self.data, &attribute.name) {
            Some(i) => {
                proof {
                    assert(self.attrs()[i as int].name == attribute@.name);
                    assert(self.has_attribute(attribute@.name));
                    let w = self.attr_index_of(attribute@.name);
                    assert(self.attrs()[w].name == attribute@.name);
                    if w != i as int {
                        assert(false);
                    }
                }
                self.data[i] = attribute;
                proof {
                    assert(self.attrs() =~= old(self).attrs().update(
                        old(self).attr_index_of(attribute@.name),
                        attribute@,
                    ));
                    assert forall|k: int|
                        0 <= k < self.data@.len() implies (#[trigger] self.data@[k]).wf() by {
                        if k != i as int {
                            assert(old(self).data@[k].wf());
                        }
                    }
                    assert forall|p: int, q: int|
                        0 <= p < q < self.attrs().len() implies self.attrs()[p].name
                        != self.attrs()[q].name by {
                        assert(old(self).attrs()[p].name != old(self).attrs()[q].name);
                        assert(self.attrs()[i as int].name == old(self).attrs()[i as int].name);
                    }
                }
            },
            None => {
                proof {
                    assert forall|i: int|
                        0 <= i < self.attrs().len() implies self.attrs()[i].name
                        != attribute@.name by {
                        assert(self.data@[i].name@ != attribute.name@);
                    }
                }
                self.data.push(attribute);
                proof {
                    assert(self.attrs() =~= old(self).attrs().push(attribute@));
                    assert forall|k: int|
                        0 <= k < self.data@.len() implies (#[trigger] self.data@[k]).wf() by {
                        if k < old(self).data@.len() {
                            assert(old(self).data@[k].wf());
                        }
                    }
                    assert forall|p: int, q: int|
                        0 <= p < q < self.attrs().len() implies self.attrs()[p].name
                        != self.attrs()[q].name by {
                        if q < old(self).attrs().len() {
                            assert(old(self).attrs()[p].name != old(self).attrs()[q].name);
                        } else {
                            assert(old(self).attrs()[p].name != attribute@.name);
                        }
                    }
                }
            },
        }
        proof {
            assert(self.deps() =~= old(self).deps());
            assert forall|p: int, q: int|
                0 <= p < q < self.deps().len() implies !((#[trigger] self.deps()[p]).source == (
            #[trigger] self.deps()[q]).source && self.deps()[p].target
                == self.deps()[q].target) by {
                assert(old(self).deps()[p] == self.deps()[p]);
                assert(old(self).deps()[q] == self.deps()[q]);
            }
        }
    }

    /// Insert a dependency rule, replacing any present one with the same
    /// (source, target) pair.
    pub fn add_dependency_modifier(&mut self, dependency_modifier: AttributeDependencyModifier)
        requires
            old(self).wf(),
        ensures
            final(self).wf(),
            final(self).attrs() == old(self).attrs(),
            old(self).has_dependency(dependency_modifier@.source, dependency_modifier@.target)
                ==> final(self).deps() == old(self).deps().update(
                old(self).dep_index_of(dependency_modifier@.source, dependency_modifier@.target),
                dependency_modifier@,
            ),
            !old(self).has_dependency(dependency_modifier@.source, dependency_modifier@.target)
                ==> final(self).deps() == old(self).deps().push(dependency_modifier@),
    {
        let ghost dsource = dependency_modifier@.source;
        let ghost dtarget = dependency_modifier@.target;
        let n = self.dependency_modifiers.len();
        let mut i: usize = 0;
        while i < n
            invariant
                i <= n,
                n == self.dependency_modifiers@.len(),
                *self == *old(self),
                old(self).wf(),
                dsource == dependency_modifier@.source,
                dtarget == dependency_modifier@.target,
                forall|j: int|
                    0 <= j < i ==> !((#[trigger] self.deps()[j]).source == dsource
                        && self.deps()[j].target == dtarget),
            decreases n - i,
        {
            if self.dependency_modifiers[i].source == dependency_modifier.source
                && self.dependency_modifiers[i].target == dependency_modifier.target {
                proof {
                    assert(self.deps()[i as int].source == dsource);
                    assert(self.has_dependency(dsource, dtarget));
                    let w = self.dep_index_of(dsource, dtarget);
                    if w != i as int {
                        assert(false);
                    }
                }
                self.dependency_modifiers[i] = dependency_modifier;
                proof {
                    assert(self.deps() =~= old(self).deps().update(
                        old(self).dep_index_of(dsource, dtarget),
                        dependency_modifier@,
                    ));
                    assert(self.attrs() =~= old(self).attrs());
                }
                return ;
            }
            i = i + 1;
        }
        proof {
            assert(!self.has_dependency(dsource, dtarget));
        }
        self.dependency_modifiers.push(dependency_modifier);
        proof {
            assert(self.deps() =~= old(self).deps().push(dependency_modifier@));
            assert(self.attrs() =~= old(self).attrs());
        }
    }
}

impl SkillAttributeSet {
    /// Shift the base of the attribute named `attribute_name` by `value` and,
    /// if its read value moved, let every dependency rule sourced at it
    /// replace the derived modifier on its target. An unknown attribute name,
    /// or an unknown target, is a silent no-op (for that rule).
    pub fn update_attribute_base_value(&mut self, attribute_name: &str, value: Fixed)
        requires
            old(self).wf(),
        ensures
            final(self).wf(),
            final(self).deps() == old(self).deps(),
            !old(self).has_attribute(attribute_name@) ==> *final(self) == *old(self),
            old(self).has_attribute(attribute_name@) ==> final(self).attrs()
                == spec_update_attribute_result(
                old(self).attrs(),
                old(self).deps(),
                old(self).attr_index_of(attribute_name@),
                value.as_milli(),
            ),
    {
        let needle: String = attribute_name.to_owned();
        let idx = match find_attribute_index(&self.data, &needle) {
            Some(i) => i,
            None => {
                proof {
                    assert forall|i: int|
                        0 <= i < self.attrs().len() implies self.attrs()[i].name
                        != attribute_name@ by {
                        assert(self.data@[i].name@ != needle@);
                    }
                }
                return ;
            },
        };
        proof {
            assert(self.attrs()[idx as int].name == attribute_name@);
            assert(self.has_attribute(attribute_name@));
            let w = self.attr_index_of(attribute_name@);
            if w != idx as int {
                assert(false);
            }
        }
        let ghost a0 = self.attrs()[idx as int];
        let ghost a1 = spec_base_updated(a0, value.as_milli());
        let ghost mid = old(self).attrs().update(idx as int, a1);
        let old_cur = self.data[idx].get_current_value();
        {
            let attr = &mut self.data[idx];
            attr.update_base_value(value);
        }
        proof {
            assert(self.attrs() =~= mid);
            assert(self.deps() =~= old(self).deps());
            assert forall|k: int| 0 <= k < self.data@.len() implies (
            #[trigger] self.data@[k]).wf() by {
                if k != idx as int {
                    assert(old(self).data@[k].wf());
                }
            }
            assert forall|p: int, q: int|
                0 <= p < q < self.attrs().len() implies self.attrs()[p].name
                != self.attrs()[q].name by {
                assert(old(self).attrs()[p].name != old(self).attrs()[q].name);
                assert(self.attrs()[idx as int].name == old(self).attrs()[idx as int].name);
            }
        }
        proof {
            assert(self.deps() =~= old(self).deps());
            assert forall|pp: int, qq: int|
                0 <= pp < qq < self.deps().len() implies !((#[trigger] self.deps()[pp]).source == (
            #[trigger] self.deps()[qq]).source && self.deps()[pp].target
                == self.deps()[qq].target) by {
                assert(old(self).deps()[pp] == self.deps()[pp]);
                assert(old(self).deps()[qq] == self.deps()[qq]);
            }
        }
        let new_cur = self.data[idx].get_current_value();
        proof {
            assert(old_cur == spec_unit_current(a0));
            assert(new_cur == spec_unit_current(a1));
        }
        if new_cur == old_cur {
            return ;
        }
        proof {
            assert(a0 == old(self).data@[idx as int]@);
            assert(a1 == self.data@[idx as int]@);
            lemma_unit_in_bounds(a0.current, a0.min, a0.max);
            lemma_unit_in_bounds(a1.current, a1.min, a1.max);
        }
        let delta = new_cur - old_cur;
        let ghost source_name = a0.name;
        let ghost deps_all = self.deps();
        let nd = self.dependency_modifiers.len();
        let mut p: usize = 0;
        while p < nd
            invariant
                p <= nd,
                self.wf(),
                nd == self.dependency_modifiers@.len(),
                self.deps() == deps_all,
                deps_all == old(self).deps(),
                old(self).wf(),
                mid == old(self).attrs().update(idx as int, a1),
                (idx as int) < old(self).attrs().len(),
                mid.len() == self.attrs().len(),
                source_name == a0.name,
                needle@ == source_name,
                a0 == old(self).attrs()[idx as int],
                a1 == spec_base_updated(a0, value.as_milli()),
                delta as int == spec_unit_current(a1) - spec_unit_current(a0),
                delta as int != 0,
                forall|k: int|
                    0 <= k < mid.len() ==> (#[trigger] self.attrs()[k]).name == mid[k].name,
                forall|k: int|
                    0 <= k < mid.len() ==> #[trigger] self.attrs()[k] == match spec_find_dep(
                        deps_all.take(p as int),
                        source_name,
                        mid[k].name,
                    ) {
                        Some(d) => spec_derived_applied(
                            mid[k],
                            d,
                            spec_derived_modifier(d, delta as int),
                        ),
                        None => mid[k],
                    },
            decreases nd - p,
        {
            proof {
                assert forall|k: int|
                    0 <= k < mid.len() implies #[trigger] spec_find_dep(
                    deps_all.take(p + 1),
                    source_name,
                    mid[k].name,
                ) == (match spec_find_dep(deps_all.take(p as int), source_name, mid[k].name) {
                    Some(d) => Some(d),
                    None => {
                        if deps_all[p as int].source == source_name && deps_all[p as int].target
                            == mid[k].name {
                            Some(deps_all[p as int])
                        } else {
                            None
                        }
                    },
                }) by {
                    assert(deps_all.take(p + 1).drop_last() =~= deps_all.take(p as int));
                    assert(deps_all.take(p + 1).last() == deps_all[p as int]);
                }
            }
            let dep = &self.dependency_modifiers[p];
            proof {
                assert(deps_all[p as int] == dep@);
            }
            if dep.source == needle {
                proof {
                    assert(deps_all[p as int].source == source_name);
                }
                match find_attribute_index(&self.data, &dep.target) {
                    Some(t) => {
                        proof {
                            assert(self.attrs()[t as int].name == dep.target@);
                            assert(mid[t as int].name == dep.target@);
                            assert(deps_all[p as int].target == mid[t as int].name);
                            lemma_find_dep_members(
                                deps_all.take(p as int),
                                source_name,
                                mid[t as int].name,
                            );
                            match spec_find_dep(
                                deps_all.take(p as int),
                                source_name,
                                mid[t as int].name,
                            ) {
                                Some(d) => {
                                    let j = choose|j: int|
                                        0 <= j < deps_all.take(p as int).len() && deps_all.take(
                                            p as int,
                                        )[j] == d;
                                    assert(deps_all[j] == d);
                                    assert(d.source == source_name && d.target == mid[
                                        t as int].name);
                                    assert(deps_all[j].source == deps_all[p as int].source
                                        && deps_all[j].target == deps_all[p as int].target);
                                    assert(false);
                                },
                                None => {},
                            }
                            assert(self.attrs()[t as int] == mid[t as int]);
                        }
                        let ghost attrs_before = self.attrs();
                        let ghost data_before = self.data@;
                        let target_attr = &mut self.data[t];
                        dep.update(target_attr, delta);
                        proof {
                            assert(self.attrs() =~= attrs_before.update(
                                t as int,
                                spec_derived_applied(
                                    mid[t as int],
                                    deps_all[p as int],
                                    spec_derived_modifier(deps_all[p as int], delta as int),
                                ),
                            ));
                            assert forall|k: int|
                                0 <= k < self.data@.len() implies (
                            #[trigger] self.data@[k]).wf() by {
                                if k != t as int {
                                    assert(self.data@[k] == data_before[k]);
                                    assert(data_before[k].wf());
                                }
                            }
                            assert forall|pp: int, qq: int|
                                0 <= pp < qq < self.attrs().len() implies self.attrs()[pp].name
                                != self.attrs()[qq].name by {
                                assert(attrs_before[pp].name != attrs_before[qq].name);
                                assert(self.attrs()[t as int].name == attrs_before[t as int].name);
                            }
                        }
                    },
                    None => {
                        proof {
                            assert forall|k: int| 0 <= k < mid.len() implies mid[k].name
                                != deps_all[p as int].target by {
                                assert(self.data@[k].name@ != dep.target@);
                                assert(self.attrs()[k] == self.data@[k]@);
                                assert(self.attrs()[k].name == mid[k].name);
                            }
                        }
                    },
                }
            } else {
                proof {
                    assert(deps_all[p as int].source != source_name);
                }
            }
            p = p + 1;
        }
        proof {
            assert(deps_all.take(nd as int) =~= deps_all);
            assert(self.attrs() =~= spec_update_attribute_result(
                old(self).attrs(),
                old(self).deps(),
                idx as int,
                value.as_milli(),
            ));
        }
    }
}

/// The read value of an attribute, being a clamped `i64` divided by the
/// scale, stays far inside the `i64` range.
proof fn lemma_unit_in_bounds(current: int, min: int, max: int)
    requires
        i64::MIN <= min <= max <= i64::MAX,
        i64::MIN <= current <= i64::MAX,
    ensures
        -10_000_000_000_000_000 <= spec_div_trunc(spec_clamp(current, min, max), FIXED_SCALE as int)
            <= 10_000_000_000_000_000,
{
    let c = spec_clamp(current, min, max);
    assert(i64::MIN <= c <= i64::MAX);
    if c >= 0 {
        vstd::arithmetic::div_mod::lemma_div_pos_is_pos(c, 1000);
        vstd::arithmetic::div_mod::lemma_div_is_ordered(c, 0x7fff_ffff_ffff_ffff, 1000);
        assert(0x7fff_ffff_ffff_ffff as int / 1000 <= 10_000_000_000_000_000);
    } else {
        vstd::arithmetic::div_mod::lemma_div_pos_is_pos(-c, 1000);
        vstd::arithmetic::div_mod::lemma_div_is_ordered(-c, 0x8000_0000_0000_0000, 1000);
        assert(0x8000_0000_0000_0000 as int / 1000 <= 10_000_000_000_000_000);
    }
}

impl Default for SkillAttributeSet {
    /// An empty set: no attributes, no dependency rules.
    fn default() -> (r: Self)
        ensures
            r.wf(),
            r.attrs() == Seq::<AttributeModel>::empty(),
            r.deps() == Seq::<DependencyModel>::empty(),
    {
        let r = SkillAttributeSet { data: Vec::new(), dependency_modifiers: Vec::new() };
        proof {
            assert(r.attrs() =~= Seq::<AttributeModel>::empty());
            assert(r.deps() =~= Seq::<DependencyModel>::empty());
        }
        r
    }
}

/// The index of the first attribute in `data` whose name is `name`, if any.
fn find_attribute_index(data: &Vec<SkillAttribute>, name: &String) -> (r: Option<usize>)
    ensures
        match r {
            Some(i) => i < data@.len() && data@[i as int].name@ == name@ && forall|j: int|
                0 <= j < i ==> data@[j].name@ != name@,
            None => forall|j: int| 0 <= j < data@.len() ==> data@[j].name@ != name@,
        },
{
    let n = data.len();
    let mut i: usize = 0;
    while i < n
        invariant
            i <= n,
            n == data@.len(),
            forall|j: int| 0 <= j < i ==> data@[j].name@ != name@,
        decreases n - i,
    {
        if data[i].name == *name {
            return Some(i);
        }
        i = i + 1;
    }
    None
}

/// An attribute with no modifiers reads exactly its base value, clamped into
/// the physical range and truncated to whole units.
pub proof fn lemma_no_modifiers_reads_base(a: SkillAttribute)
    requires
        a.wf(),
        a.modifiers_model().len() == 0,
    ensures
        spec_unit_current(a@) == spec_div_trunc(
            spec_clamp(a.base_value.as_milli(), a.min_value.as_milli(), a.max_value.as_milli()),
            FIXED_SCALE as int,
        ),
{
    assert(a.modifiers_model() =~= Seq::<ModifierModel>::empty());
    assert(a.current_value.as_milli() == spec_combined(
        a.base_value.as_milli(),
        Seq::<ModifierModel>::empty(),
    ));
}

/// One absolute and one percentage modifier on a base `b` combine to
/// `b + a + p * b`, in either insertion order.
pub proof fn lemma_absolute_percentage_order_independent(
    base: int,
    ma: ModifierModel,
    mp: ModifierModel,
)
    requires
        ma.operation is Absolute,
        mp.operation is Percentage,
    ensures
        spec_combined(base, seq![ma, mp]) == spec_sat64(
            base + ma.value + spec_pct_term(mp.value, base),
        ),
        spec_combined(base, seq![ma, mp]) == spec_combined(base, seq![mp, ma]),
{
    let s1 = seq![ma, mp];
    let s2 = seq![mp, ma];
    let e = Seq::<ModifierModel>::empty();
    assert(s1.drop_last() =~= seq![ma]);
    assert(s2.drop_last() =~= seq![mp]);
    assert(seq![ma].drop_last() =~= e);
    assert(seq![mp].drop_last() =~= e);
    assert(spec_sum_absolute(e) == 0);
    assert(spec_sum_percentage(e, base) == 0);
    assert(spec_pick_overload(e) is None);
    assert(spec_sum_absolute(seq![ma]) == ma.value);
    assert(spec_sum_absolute(seq![mp]) == 0);
    assert(spec_sum_percentage(seq![ma], base) == 0);
    assert(spec_sum_percentage(seq![mp], base) == spec_pct_term(mp.value, base));
    assert(spec_pick_overload(seq![ma]) is None);
    assert(spec_pick_overload(seq![mp]) is None);
    assert(spec_sum_absolute(s1) == ma.value);
    assert(spec_sum_absolute(s2) == ma.value);
    assert(spec_sum_percentage(s1, base) == spec_pct_term(mp.value, base));
    assert(spec_sum_percentage(s2, base) == spec_pct_term(mp.value, base));
    assert(spec_pick_overload(s1) is None);
    assert(spec_pick_overload(s2) is None);
}

/// Two neighbouring modifiers, neither of which is an overload, can be
/// inserted in either order anywhere in a modifier list without changing the
/// combined value: the result is order-independent for absolute and
/// percentage modifiers.
pub proof fn lemma_non_overload_neighbours_commute(
    base: int,
    prefix: Seq<ModifierModel>,
    m1: ModifierModel,
    m2: ModifierModel,
    suffix: Seq<ModifierModel>,
)
    requires
        !(m1.operation is Overload),
        !(m2.operation is Overload),
    ensures
        spec_combined(base, prefix + seq![m1, m2] + suffix) == spec_combined(
            base,
            prefix + seq![m2, m1] + suffix,
        ),
{
    lemma_swap_non_overload_pieces(base, prefix, m1, m2, suffix);
}

/// The three ingredients of the combination rule agree on the two orders of
/// a non-overload pair.
proof fn lemma_swap_non_overload_pieces(
    base: int,
    prefix: Seq<ModifierModel>,
    m1: ModifierModel,
    m2: ModifierModel,
    suffix: Seq<ModifierModel>,
)
    requires
        !(m1.operation is Overload),
        !(m2.operation is Overload),
    ensures
        spec_sum_absolute(prefix + seq![m1, m2] + suffix) == spec_sum_absolute(
            prefix + seq![m2, m1] + suffix,
        ),
        spec_sum_percentage(prefix + seq![m1, m2] + suffix, base) == spec_sum_percentage(
            prefix + seq![m2, m1] + suffix,
            base,
        ),
        spec_pick_overload(prefix + seq![m1, m2] + suffix) == spec_pick_overload(
            prefix + seq![m2, m1] + suffix,
        ),
    decreases suffix.len(),
{
    reveal_with_fuel(spec_sum_absolute, 3);
    reveal_with_fuel(spec_sum_percentage, 3);
    reveal_with_fuel(spec_pick_overload, 3);
    let s1 = prefix + seq![m1, m2] + suffix;
    let s2 = prefix + seq![m2, m1] + suffix;
    if suffix.len() == 0 {
        assert(s1.drop_last() =~= prefix.push(m1));
        assert(prefix.push(m1).drop_last() =~= prefix);
        assert(s1.last() == m2);
        assert(prefix.push(m1).last() == m1);
        assert(s2.drop_last() =~= prefix.push(m2));
        assert(prefix.push(m2).drop_last() =~= prefix);
        assert(s2.last() == m1);
        assert(prefix.push(m2).last() == m2);
    } else {
        lemma_swap_non_overload_pieces(base, prefix, m1, m2, suffix.drop_last());
        assert(s1.drop_last() =~= prefix + seq![m1, m2] + suffix.drop_last());
        assert(s2.drop_last() =~= prefix + seq![m2, m1] + suffix.drop_last());
        assert(s1.last() == suffix.last());
        assert(s2.last() == suffix.last());
    }
}

/// Of two overload modifiers, the one with the strictly greater priority
/// wins in either insertion order; on equal priorities the first-inserted
/// wins.
pub proof fn lemma_overload_priority(base: int, m1: ModifierModel, m2: ModifierModel)
    requires
        m1.operation is Overload,
        m2.operation is Overload,
    ensures
        m1.priority < m2.priority ==> spec_combined(base, seq![m1, m2]) == m2.value
            && spec_combined(base, seq![m2, m1]) == m2.value,
        m1.priority == m2.priority ==> spec_combined(base, seq![m1, m2]) == m1.value
            && spec_combined(base, seq![m2, m1]) == m2.value,
{
    let s1 = seq![m1, m2];
    let s2 = seq![m2, m1];
    let e = Seq::<ModifierModel>::empty();
    assert(s1.drop_last() =~= seq![m1]);
    assert(s2.drop_last() =~= seq![m2]);
    assert(seq![m1].drop_last() =~= e);
    assert(seq![m2].drop_last() =~= e);
    assert(spec_pick_overload(e) is None);
    assert(spec_pick_overload(seq![m1]) == Some(m1));
    assert(spec_pick_overload(seq![m2]) == Some(m2));
    assert(spec_pick_overload(s1) == if m1.priority < m2.priority {
        Some(m2)
    } else {
        Some(m1)
    });
    assert(spec_pick_overload(s2) == if m2.priority < m1.priority {
        Some(m1)
    } else {
        Some(m2)
    });
}

/// The source filter removes all and only the modifiers carrying `source`:
/// nothing kept carries it, and every modifier not carrying it is kept.
pub proof fn lemma_filter_out_source_exact(mods: Seq<ModifierModel>, source: Seq<char>)
    ensures
        forall|i: int|
            0 <= i < spec_filter_out_source(mods, source).len() ==> (
            #[trigger] spec_filter_out_source(mods, source)[i]).source != source,
        forall|i: int|
            0 <= i < mods.len() && (#[trigger] mods[i]).source != source ==> spec_contains_model(
                spec_filter_out_source(mods, source),
                mods[i],
            ),
    decreases mods.len(),
{
    lemma_filter_out_source_removes(mods, source);
    if mods.len() > 0 {
        lemma_filter_out_source_exact(mods.drop_last(), source);
        let f = spec_filter_out_source(mods, source);
        let fr = spec_filter_out_source(mods.drop_last(), source);
        assert forall|i: int|
            0 <= i < mods.len() && (#[trigger] mods[i]).source != source implies spec_contains_model(
            f,
            mods[i],
        ) by {
            if i < mods.len() - 1 {
                assert(mods.drop_last()[i] == mods[i]);
                assert(spec_contains_model(fr, mods[i]));
                let w = choose|w: int| 0 <= w < fr.len() && fr[w] == mods[i];
                if mods.last().source == source {
                    assert(f[w] == mods[i]);
                } else {
                    assert(f[w] == mods[i]);
                }
            } else {
                assert(mods[i] == mods.last());
                assert(f.last() == mods.last());
            }
        }
    }
}

/// After a dependency rule replaces its derived modifier, exactly one
/// modifier carries the rule's synthesized key: the fresh one, in last
/// position. Repeated propagation therefore never stacks.
pub proof fn lemma_derived_modifier_never_stacks(
    a: AttributeModel,
    dep: DependencyModel,
    delta: int,
)
    ensures
        spec_derived_applied(a, dep, spec_derived_modifier(dep, delta)).modifiers.last()
            == spec_derived_modifier(dep, delta),
        forall|i: int|
            0 <= i < spec_derived_applied(a, dep, spec_derived_modifier(dep, delta)).modifiers.len()
                - 1 ==> (#[trigger] spec_derived_applied(
                a,
                dep,
                spec_derived_modifier(dep, delta),
            ).modifiers[i]).source != spec_dependency_key(dep.source, dep.target),
{
    let key = spec_dependency_key(dep.source, dep.target);
    lemma_filter_out_source_removes(a.modifiers, key);
    let kept = spec_filter_out_source(a.modifiers, key);
    assert forall|i: int|
        0 <= i < spec_derived_applied(a, dep, spec_derived_modifier(dep, delta)).modifiers.len()
            - 1 implies (#[trigger] spec_derived_applied(
        a,
        dep,
        spec_derived_modifier(dep, delta),
    ).modifiers[i]).source != key by {
        assert(spec_derived_applied(a, dep, spec_derived_modifier(dep, delta)).modifiers[i]
            == kept[i]);
    }
}

/// Removing one element of a duplicate-free sequence leaves it
/// duplicate-free.
proof fn lemma_remove_keeps_uniqueness(mods: Seq<ModifierModel>, k: int)
    requires
        0 <= k < mods.len(),
        forall|i: int, j: int| 0 <= i < j < mods.len() ==> mods[i] != mods[j],
    ensures
        forall|i: int, j: int|
            0 <= i < j < mods.remove(k).len() ==> mods.remove(k)[i] != mods.remove(k)[j],
{
    assert forall|i: int, j: int| 0 <= i < j < mods.remove(k).len() implies mods.remove(k)[i]
        != mods.remove(k)[j] by {
        let i0 = if i < k {
            i
        } else {
            i + 1
        };
        let j0 = if j < k {
            j
        } else {
            j + 1
        };
        assert(mods.remove(k)[i] == mods[i0]);
        assert(mods.remove(k)[j] == mods[j0]);
    }
}

/// Every element kept by the source filter is an element of the input, so the
/// filter keeps a duplicate-free sequence duplicate-free.
proof fn lemma_filter_out_source_keeps_uniqueness(mods: Seq<ModifierModel>, source: Seq<char>)
    requires
        forall|i: int, j: int| 0 <= i < j < mods.len() ==> mods[i] != mods[j],
    ensures
        forall|i: int, j: int|
            0 <= i < j < spec_filter_out_source(mods, source).len() ==> spec_filter_out_source(
                mods,
                source,
            )[i] != spec_filter_out_source(mods, source)[j],
    decreases mods.len(),
{
    if mods.len() > 0 {
        lemma_filter_out_source_keeps_uniqueness(mods.drop_last(), source);
        lemma_filter_out_source_is_subsequence(mods.drop_last(), source);
        let f = spec_filter_out_source(mods, source);
        let fr = spec_filter_out_source(mods.drop_last(), source);
        if !(mods.last().source == source) {
            assert forall|i: int, j: int| 0 <= i < j < f.len() implies f[i] != f[j] by {
                if j == f.len() - 1 {
                    assert(f[j] == mods.last());
                    assert(f[i] == fr[i]);
                    assert(spec_contains_model(mods.drop_last(), fr[i]));
                    let w = choose|w: int|
                        0 <= w < mods.drop_last().len() && mods.drop_last()[w] == fr[i];
                    assert(mods[w] == fr[i]);
                    assert(mods[mods.len() - 1] == mods.last());
                } else {
                    assert(f[i] == fr[i] && f[j] == fr[j]);
                }
            }
        }
    }
}

/// Each element of the filtered sequence appears in the input at a position
/// that respects the filtered order.
proof fn lemma_filter_out_source_is_subsequence(mods: Seq<ModifierModel>, source: Seq<char>)
    ensures
        forall|i: int|
            0 <= i < spec_filter_out_source(mods, source).len() ==> spec_contains_model(
                mods,
                #[trigger] spec_filter_out_source(mods, source)[i],
            ),
    decreases mods.len(),
{
    if mods.len() > 0 {
        lemma_filter_out_source_is_subsequence(mods.drop_last(), source);
        assert forall|i: int|
            0 <= i < spec_filter_out_source(mods, source).len() implies spec_contains_model(
            mods,
            #[trigger] spec_filter_out_source(mods, source)[i],
        ) by {
            let f = spec_filter_out_source(mods, source);
            let fr = spec_filter_out_source(mods.drop_last(), source);
            if i < fr.len() {
                assert(spec_contains_model(mods.drop_last(), fr[i]));
                let w = choose|w: int|
                    0 <= w < mods.drop_last().len() && mods.drop_last()[w] == fr[i];
                assert(mods[w] == fr[i]);
            } else {
                assert(f[i] == mods.last());
                assert(mods[mods.len() - 1] == mods.last());
            }
        }
    }
}

} // verus!
