//! The per-run context bag: a string-keyed store of game values shared by
//! independently written skill-effect fragments.
//!
//! The payload universe is closed, so the bag maps keys to a small sum type
//! [`SkillValue`]; a typed read returns nothing when the key is absent or the
//! stored kind does not match. Fragments namespace their fields as
//! `"{unique_name}_{field}"` so that several fragments can share one bag
//! without key collisions.

use vstd::prelude::*;
use vstd::string::StringExecFns;

use crate::common::{CollisionLayers, Vec2Fixed};

verus! {

/// One value a context bag can hold.
#[derive(Clone, Copy, Debug, PartialEq, Eq, Structural)]
pub enum SkillValue {
    /// A position, direction or other plane vector.
    Vector(Vec2Fixed),
    /// A pair of collision masks.
    Layers(CollisionLayers),
    /// A plain count or identifier.
    Integer(i64),
}

impl SkillValue {
    /// The vector held, if this is one.
    pub fn as_vector(&self) -> (r: Option<Vec2Fixed>)
        ensures
            r == (match *self {
                SkillValue::Vector(v) => Some(v),
                _ => None::<Vec2Fixed>,
            }),
    {
        match *self {
            SkillValue::Vector(v) => Some(v),
            _ => None,
        }
    }

    /// The layer masks held, if this is such a pair.
    pub fn as_layers(&self) -> (r: Option<CollisionLayers>)
        ensures
            r == (match *self {
                SkillValue::Layers(l) => Some(l),
                _ => None::<CollisionLayers>,
            }),
    {
        match *self {
            SkillValue::Layers(l) => Some(l),
            _ => None,
        }
    }

    /// The integer held, if this is one.
    pub fn as_integer(&self) -> (r: Option<i64>)
        ensures
            r == (match *self {
                SkillValue::Integer(n) => Some(n),
                _ => None::<i64>,
            }),
    {
        match *self {
            SkillValue::Integer(n) => Some(n),
            _ => None,
        }
    }
}

/// One key/value pair of a context bag.
#[derive(Debug)]
pub struct SkillDataEntry {
    pub key: String,
    pub value: SkillValue,
}

impl Clone for SkillDataEntry {
    fn clone(&self) -> (r: Self)
        ensures
            r.key@ == self.key@,
            r.value == self.value,
    {
        SkillDataEntry { key: self.key.clone(), value: self.value }
    }
}

/// The map a list of entries stands for; later entries win, though the bag's
/// invariant keeps keys unique.
pub open spec fn spec_entries_map(s: Seq<SkillDataEntry>) -> Map<Seq<char>, SkillValue>
    decreases s.len(),
{
    if s.len() == 0 {
        Map::empty()
    } else {
        spec_entries_map(s.drop_last()).insert(s.last().key@, s.last().value)
    }
}

/// Whether the keys of `s` are pairwise distinct.
pub open spec fn spec_unique_keys(s: Seq<SkillDataEntry>) -> bool {
    forall|i: int, j: int| 0 <= i < j < s.len() ==> s[i].key@ != s[j].key@
}

/// With unique keys, the map of a list of entries holds exactly the listed
/// keys, each at its listed value.
proof fn lemma_entries_map_characterize(s: Seq<SkillDataEntry>)
    requires
        spec_unique_keys(s),
    ensures
        forall|k: Seq<char>|
            #[trigger] spec_entries_map(s).contains_key(k) <==> exists|i: int|
                0 <= i < s.len() && s[i].key@ == k,
        forall|i: int|
            0 <= i < s.len() ==> spec_entries_map(s).contains_key(#[trigger] s[i].key@)
                && spec_entries_map(s)[s[i].key@] == s[i].value,
    decreases s.len(),
{
    if s.len() > 0 {
        lemma_entries_map_characterize(s.drop_last());
        assert forall|k: Seq<char>| #[trigger]
            spec_entries_map(s).contains_key(k) implies exists|i: int|
            0 <= i < s.len() && s[i].key@ == k by {
            if k == s.last().key@ {
                assert(s[s.len() - 1].key@ == k);
            } else {
                assert(spec_entries_map(s.drop_last()).contains_key(k));
                let i = choose|i: int| 0 <= i < s.drop_last().len() && s.drop_last()[i].key@ == k;
                assert(s[i].key@ == k);
            }
        }
        assert forall|k: Seq<char>|
            (exists|i: int| 0 <= i < s.len() && s[i].key@ == k) implies #[trigger] spec_entries_map(
            s,
        ).contains_key(k) by {
            let i = choose|i: int| 0 <= i < s.len() && s[i].key@ == k;
            if i < s.len() - 1 {
                assert(s.drop_last()[i].key@ == k);
            }
        }
        assert forall|i: int|
            0 <= i < s.len() implies spec_entries_map(s).contains_key(#[trigger] s[i].key@)
            && spec_entries_map(s)[s[i].key@] == s[i].value by {
            if i < s.len() - 1 {
                assert(s.drop_last()[i] == s[i]);
                assert(s[i].key@ != s.last().key@);
            }
        }
    }
}

/// A cloneable, string-keyed bag of context values; the view is the map from
/// key to stored value.
#[derive(Debug)]
pub struct SkillRunContextData {
    /// The stored entries, with pairwise distinct keys.
    pub entries: Vec<SkillDataEntry>,
}

impl View for SkillRunContextData {
    type V = Map<Seq<char>, SkillValue>;

    open spec fn view(&self) -> Map<Seq<char>, SkillValue> {
        spec_entries_map(self.entries@)
    }
}

impl Clone for SkillRunContextData {
    /// Cloning copies every stored entry.
    fn clone(&self) -> (r: Self)
        ensures
            r@ == self@,
            r.wf() == self.wf(),
    {
        let mut entries: Vec<SkillDataEntry> = Vec::new();
        let n = self.entries.len();
        let mut i: usize = 0;
        while i < n
            invariant
                i <= n,
                n == self.entries@.len(),
                entries@.len() == i,
                forall|j: int|
                    0 <= j < i ==> (#[trigger] entries@[j]).key@ == self.entries@[j].key@
                        && entries@[j].value == self.entries@[j].value,
            decreases n - i,
        {
            entries.push(self.entries[i].clone());
            i = i + 1;
        }
        let r = SkillRunContextData { entries };
        proof {
            lemma_entries_map_congruent(r.entries@, self.entries@);
        }
        r
    }
}

/// Two entry lists with pairwise equal keys and values stand for the same
/// map, and one has unique keys exactly when the other does.
proof fn lemma_entries_map_congruent(a: Seq<SkillDataEntry>, b: Seq<SkillDataEntry>)
    requires
        a.len() == b.len(),
        forall|j: int|
            0 <= j < a.len() ==> (#[trigger] a[j]).key@ == b[j].key@ && a[j].value == b[j].value,
    ensures
        spec_entries_map(a) == spec_entries_map(b),
        spec_unique_keys(a) == spec_unique_keys(b),
    decreases a.len(),
{
    if a.len() > 0 {
        lemma_entries_map_congruent(a.drop_last(), b.drop_last());
        assert(a.last().key@ == b.last().key@ && a.last().value == b.last().value);
        assert(spec_entries_map(a) =~= spec_entries_map(b));
        if spec_unique_keys(a) {
            assert forall|i: int, j: int| 0 <= i < j < b.len() implies b[i].key@ != b[j].key@ by {
                assert(a[i].key@ != a[j].key@);
            }
        }
        if spec_unique_keys(b) {
            assert forall|i: int, j: int| 0 <= i < j < a.len() implies a[i].key@ != a[j].key@ by {
                assert(b[i].key@ != b[j].key@);
            }
        }
    } else {
        assert(spec_entries_map(a) =~= spec_entries_map(b));
    }
}

impl SkillRunContextData {
    /// Well-formed: no two entries share a key.
    pub open spec fn wf(self) -> bool {
        spec_unique_keys(self.entries@)
    }

    /// An empty bag.
    pub fn empty() -> (r: Self)
        ensures
            r.wf(),
            r@ == Map::<Seq<char>, SkillValue>::empty(),
    {
        SkillRunContextData { entries: Vec::new() }
    }

    /// Store `value` under `key`, replacing any present value.
    pub fn set_value(&mut self, key: &str, value: SkillValue)
        requires
            old(self).wf(),
        ensures
            final(self).wf(),
            final(self)@ == old(self)@.insert(key@, value),
    {
        let owned: String = key.to_owned();
        let n = self.entries.len();
        let mut i: usize = 0;
        while i < n
            invariant
                i <= n,
                n == self.entries@.len(),
                *self == *old(self),
                old(self).wf(),
                owned@ == key@,
                forall|j: int| 0 <= j < i ==> (#[trigger] self.entries@[j]).key@ != key@,
            decreases n - i,
        {
            if self.entries[i].key == owned {
                self.entries[i] = SkillDataEntry { key: owned, value };
                proof {
                    lemma_entries_map_update(old(self).entries@, i as int, key@, value);
                }
                return ;
            }
            i = i + 1;
        }
        self.entries.push(SkillDataEntry { key: owned, value });
        proof {
            assert(self.entries@.drop_last() =~= old(self).entries@);
            assert forall|p: int, q: int|
                0 <= p < q < self.entries@.len() implies (#[trigger] self.entries@[p]).key@ != (
            #[trigger] self.entries@[q]).key@ by {
                if q < old(self).entries@.len() {
                    assert(old(self).entries@[p].key@ != old(self).entries@[q].key@);
                } else {
                    assert(old(self).entries@[p].key@ != key@);
                }
            }
        }
    }

    /// Read the value under `key`, if present.
    pub fn get_value(&self, key: &str) -> (r: Option<&SkillValue>)
        requires
            self.wf(),
        ensures
            match r {
                Some(v) => self@.contains_key(key@) && *v == self@[key@],
                None => !self@.contains_key(key@),
            },
    {
        proof {
            lemma_entries_map_characterize(self.entries@);
        }
        let owned: String = key.to_owned();
        let n = self.entries.len();
        let mut i: usize = 0;
        while i < n
            invariant
                i <= n,
                n == self.entries@.len(),
                self.wf(),
                owned@ == key@,
                forall|j: int| 0 <= j < i ==> (#[trigger] self.entries@[j]).key@ != key@,
            decreases n - i,
        {
            if self.entries[i].key == owned {
                proof {
                    lemma_entries_map_characterize(self.entries@);
                    assert(self.entries@[i as int].key@ == key@);
                }
                return Some(&self.entries[i].value);
            }
            i = i + 1;
        }
        proof {
            lemma_entries_map_characterize(self.entries@);
            if self@.contains_key(key@) {
                let w = choose|w: int|
                    0 <= w < self.entries@.len() && self.entries@[w].key@ == key@;
                assert(false);
            }
        }
        None
    }
}

/// Updating the entry at `i` to hold the same key maps to a plain insert.
proof fn lemma_entries_map_update(
    s: Seq<SkillDataEntry>,
    i: int,
    key: Seq<char>,
    value: SkillValue,
)
    requires
        spec_unique_keys(s),
        0 <= i < s.len(),
        s[i].key@ == key,
        forall|j: int| 0 <= j < s.len() && j != i ==> (#[trigger] s[j]).key@ != key,
    ensures
        forall|e: SkillDataEntry|
            e.key@ == key && e.value == value ==> spec_entries_map(#[trigger] s.update(i, e))
                == spec_entries_map(s).insert(key, value) && spec_unique_keys(s.update(i, e)),
{
    assert forall|e: SkillDataEntry|
        e.key@ == key && e.value == value implies spec_entries_map(#[trigger] s.update(i, e))
        == spec_entries_map(s).insert(key, value) && spec_unique_keys(s.update(i, e)) by {
        let t = s.update(i, e);
        assert forall|p: int, q: int| 0 <= p < q < t.len() implies t[p].key@ != t[q].key@ by {
            assert(s[p].key@ != s[q].key@);
        }
        lemma_entries_map_characterize(s);
        lemma_entries_map_characterize(t);
        assert forall|k: Seq<char>| true implies #[trigger] spec_entries_map(t).contains_key(k)
            == spec_entries_map(s).insert(key, value).contains_key(k) by {
            if spec_entries_map(t).contains_key(k) {
                let w = choose|w: int| 0 <= w < t.len() && t[w].key@ == k;
                if w == i {
                    assert(spec_entries_map(s).insert(key, value).contains_key(k));
                } else {
                    assert(s[w].key@ == k);
                }
            }
            if spec_entries_map(s).insert(key, value).contains_key(k) {
                if k == key {
                    assert(t[i].key@ == k);
                } else {
                    assert(spec_entries_map(s).contains_key(k));
                    let w = choose|w: int| 0 <= w < s.len() && s[w].key@ == k;
                    assert(t[w].key@ == k);
                }
            }
        }
        assert forall|k: Seq<char>| #[trigger]
            spec_entries_map(t).contains_key(k) implies spec_entries_map(t)[k]
            == spec_entries_map(s).insert(key, value)[k] by {
            let w = choose|w: int| 0 <= w < t.len() && t[w].key@ == k;
            assert(spec_entries_map(t)[t[w].key@] == t[w].value);
            if w == i {
                assert(spec_entries_map(t)[k] == value);
            } else {
                assert(s[w].key@ == k && s[w].value == t[w].value);
                assert(spec_entries_map(s)[k] == s[w].value);
                assert(k != key);
            }
        }
        assert(spec_entries_map(t) =~= spec_entries_map(s).insert(key, value));
    }
}

/// The namespaced key `"{unique_name}_{field}"` under which a fragment stores
/// one of its fields.
pub open spec fn spec_property_name(unique_name: Seq<char>, field: Seq<char>) -> Seq<char> {
    unique_name + "_"@ + field
}

/// A typed context fragment that can write its fields into a bag under
/// namespaced keys and read them back; reading fails (returns nothing) when
/// any required field is absent or of the wrong kind.
pub trait SkillRunContextDataBuilder: Sized {
    /// The namespace prefix of this fragment's keys.
    spec fn spec_unique_name() -> Seq<char>;

    /// The decode of a bag: the fragment, if every required field is present
    /// with the right kind.
    spec fn spec_decode(data: Map<Seq<char>, SkillValue>) -> Option<Self>;

    /// The encode of this fragment into a bag: every field written under its
    /// namespaced key.
    spec fn spec_encode(self, data: Map<Seq<char>, SkillValue>) -> Map<Seq<char>, SkillValue>;

    /// The namespace prefix of this fragment's keys.
    fn unique_name() -> (r: String)
        ensures
            r@ == Self::spec_unique_name(),
    ;

    /// The namespaced key of the field `name`.
    fn get_property_name(name: &str) -> (r: String)
        ensures
            r@ == spec_property_name(Self::spec_unique_name(), name@),
    {
        let mut key = Self::unique_name();
        key.append("_");
        key.append(name);
        proof {
            assert(key@ =~= spec_property_name(Self::spec_unique_name(), name@));
        }
        key
    }

    /// Read this fragment from a bag; nothing if any required field is
    /// missing or mistyped.
    fn from_skill_run_context_data(data: &SkillRunContextData) -> (r: Option<Self>)
        requires
            data.wf(),
        ensures
            r == Self::spec_decode(data@),
    ;

    /// Write every field of this fragment into the bag.
    fn update_skill_run_context_data(&self, data: &mut SkillRunContextData)
        requires
            old(data).wf(),
        ensures
            final(data).wf(),
            final(data)@ == self.spec_encode(old(data)@),
    ;
}

impl SkillRunContextDataBuilder for () {
    /// The empty fragment has an empty namespace.
    open spec fn spec_unique_name() -> Seq<char> {
        Seq::empty()
    }

    /// The empty fragment decodes from any bag.
    open spec fn spec_decode(data: Map<Seq<char>, SkillValue>) -> Option<()> {
        Some(())
    }

    /// The empty fragment writes nothing.
    open spec fn spec_encode(self, data: Map<Seq<char>, SkillValue>) -> Map<Seq<char>, SkillValue> {
        data
    }

    fn unique_name() -> (r: String)
        ensures
            r@ == Self::spec_unique_name(),
    {
        String::new()
    }

    fn from_skill_run_context_data(data: &SkillRunContextData) -> (r: Option<()>)
        ensures
            r == Self::spec_decode(data@),
    {
        Some(())
    }

    fn update_skill_run_context_data(&self, data: &mut SkillRunContextData)
        ensures
            final(data).wf(),
            final(data)@ == self.spec_encode(old(data)@),
    {
    }
}

} // verus!
