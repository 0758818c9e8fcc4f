//! Name-keyed registries.
//!
//! The game resolves factories, spawners and processors by string key at
//! spawn time. A [`StringRegistry`] is such a table: insertion replaces any
//! entry of the same name, lookup of an unknown name yields nothing, and the
//! view is the map from name to registered value.

use vstd::prelude::*;

verus! {

/// One registered value under its name.
#[derive(Debug)]
pub struct RegistryEntry<V> {
    pub name: String,
    pub value: V,
}

/// The map a list of registry entries stands for.
pub open spec fn spec_registry_map<V>(s: Seq<RegistryEntry<V>>) -> Map<Seq<char>, V>
    decreases s.len(),
{
    if s.len() == 0 {
        Map::empty()
    } else {
        spec_registry_map(s.drop_last()).insert(s.last().name@, s.last().value)
    }
}

/// Whether the names of `s` are pairwise distinct.
pub open spec fn spec_registry_unique<V>(s: Seq<RegistryEntry<V>>) -> bool {
    forall|i: int, j: int| 0 <= i < j < s.len() ==> s[i].name@ != s[j].name@
}

/// With unique names, the map of an entry list holds exactly the listed
/// names, each at its listed value.
proof fn lemma_registry_map_characterize<V>(s: Seq<RegistryEntry<V>>)
    requires
        spec_registry_unique(s),
    ensures
        forall|k: Seq<char>|
            #[trigger] spec_registry_map(s).contains_key(k) <==> exists|i: int|
                0 <= i < s.len() && s[i].name@ == k,
        forall|i: int|
            0 <= i < s.len() ==> spec_registry_map(s).contains_key(#[trigger] s[i].name@)
                && spec_registry_map(s)[s[i].name@] == s[i].value,
    decreases s.len(),
{
    if s.len() > 0 {
        lemma_registry_map_characterize(s.drop_last());
        assert forall|k: Seq<char>| #[trigger]
            spec_registry_map(s).contains_key(k) implies exists|i: int|
            0 <= i < s.len() && s[i].name@ == k by {
            if k == s.last().name@ {
                assert(s[s.len() - 1].name@ == k);
            } else {
                assert(spec_registry_map(s.drop_last()).contains_key(k));
                let i = choose|i: int| 0 <= i < s.drop_last().len() && s.drop_last()[i].name@ == k;
                assert(s[i].name@ == k);
            }
        }
        assert forall|k: Seq<char>|
            (exists|i: int| 0 <= i < s.len() && s[i].name@ == k) implies #[trigger] spec_registry_map(
            s,
        ).contains_key(k) by {
            let i = choose|i: int| 0 <= i < s.len() && s[i].name@ == k;
            if i < s.len() - 1 {
                assert(s.drop_last()[i].name@ == k);
            }
        }
        assert forall|i: int|
            0 <= i < s.len() implies spec_registry_map(s).contains_key(#[trigger] s[i].name@)
            && spec_registry_map(s)[s[i].name@] == s[i].value by {
            if i < s.len() - 1 {
                assert(s.drop_last()[i] == s[i]);
                assert(s[i].name@ != s.last().name@);
            }
        }
    }
}

/// A table of values keyed by unique names; the view is the map from name to
/// value.
#[derive(Debug)]
pub struct StringRegistry<V> {
    /// The registered entries, names pairwise distinct.
    pub entries: Vec<RegistryEntry<V>>,
}

impl<V> View for StringRegistry<V> {
    type V = Map<Seq<char>, V>;

    open spec fn view(&self) -> Map<Seq<char>, V> {
        spec_registry_map(self.entries@)
    }
}

impl<V> StringRegistry<V> {
    /// Well-formed: no two entries share a name.
    pub open spec fn wf(self) -> bool {
        spec_registry_unique(self.entries@)
    }

    /// An empty registry.
    pub fn new() -> (r: Self)
        ensures
            r.wf(),
            r@ == Map::<Seq<char>, V>::empty(),
    {
        StringRegistry { entries: Vec::new() }
    }

    /// Register `value` under `name`, replacing any present entry.
    pub fn insert(&mut self, name: &str, value: V)
        requires
            old(self).wf(),
        ensures
            final(self).wf(),
            final(self)@ == old(self)@.insert(name@, value),
    {
        let owned: String = name.to_owned();
        let n = self.entries.len();
        let mut i: usize = 0;
        while i < n
            invariant
                i <= n,
                n == self.entries@.len(),
                self.entries@ == old(self).entries@,
                old(self).wf(),
                owned@ == name@,
                forall|j: int| 0 <= j < i ==> (#[trigger] self.entries@[j]).name@ != name@,
            decreases n - i,
        {
            if self.entries[i].name == owned {
                proof {
                    lemma_registry_map_update(old(self).entries@, i as int, name@);
                }
                self.entries[i] = RegistryEntry { name: owned, value };
                return ;
            }
            i = i + 1;
        }
        self.entries.push(RegistryEntry { name: owned, value });
        proof {
            assert(self.entries@.drop_last() =~= old(self).entries@);
            assert forall|p: int, q: int|
                0 <= p < q < self.entries@.len() implies (#[trigger] self.entries@[p]).name@ != (
            #[trigger] self.entries@[q]).name@ by {
                if q < old(self).entries@.len() {
                    assert(old(self).entries@[p].name@ != old(self).entries@[q].name@);
                } else {
                    assert(old(self).entries@[p].name@ != name@);
                }
            }
        }
    }

    /// Look up the value registered under `name`, if any.
    pub fn get(&self, name: &str) -> (r: Option<&V>)
        requires
            self.wf(),
        ensures
            match r {
                Some(v) => self@.contains_key(name@) && *v == self@[name@],
                None => !self@.contains_key(name@),
            },
    {
        let owned: String = name.to_owned();
        let n = self.entries.len();
        let mut i: usize = 0;
        while i < n
            invariant
                i <= n,
                n == self.entries@.len(),
                self.wf(),
                owned@ == name@,
                forall|j: int| 0 <= j < i ==> (#[trigger] self.entries@[j]).name@ != name@,
            decreases n - i,
        {
            if self.entries[i].name == owned {
                proof {
                    lemma_registry_map_characterize(self.entries@);
                    assert(self.entries@[i as int].name@ == name@);
                }
                return Some(&self.entries[i].value);
            }
            i = i + 1;
        }
        proof {
            lemma_registry_map_characterize(self.entries@);
            if self@.contains_key(name@) {
                let w = choose|w: int|
                    0 <= w < self.entries@.len() && self.entries@[w].name@ == name@;
                assert(false);
            }
        }
        None
    }
}

/// Replacing the entry at `i`, keeping its name, maps to a plain insert.
proof fn lemma_registry_map_update<V>(s: Seq<RegistryEntry<V>>, i: int, key: Seq<char>)
    requires
        spec_registry_unique(s),
        0 <= i < s.len(),
        s[i].name@ == key,
    ensures
        forall|e: RegistryEntry<V>|
            e.name@ == key ==> spec_registry_map(#[trigger] s.update(i, e)) == spec_registry_map(
                s,
            ).insert(key, e.value) && spec_registry_unique(s.update(i, e)),
{
    assert forall|e: RegistryEntry<V>|
        e.name@ == key implies spec_registry_map(#[trigger] s.update(i, e)) == spec_registry_map(
        s,
    ).insert(key, e.value) && spec_registry_unique(s.update(i, e)) by {
        let t = s.update(i, e);
        assert forall|p: int, q: int| 0 <= p < q < t.len() implies t[p].name@ != t[q].name@ by {
            assert(s[p].name@ != s[q].name@);
        }
        lemma_registry_map_characterize(s);
        lemma_registry_map_characterize(t);
        assert forall|k: Seq<char>| true implies #[trigger] spec_registry_map(t).contains_key(k)
            == spec_registry_map(s).insert(key, e.value).contains_key(k) by {
            if spec_registry_map(t).contains_key(k) {
                let w = choose|w: int| 0 <= w < t.len() && t[w].name@ == k;
                if w != i {
                    assert(s[w].name@ == k);
                }
            }
            if spec_registry_map(s).insert(key, e.value).contains_key(k) {
                if k == key {
                    assert(t[i].name@ == k);
                } else {
                    let w = choose|w: int| 0 <= w < s.len() && s[w].name@ == k;
                    assert(t[w].name@ == k);
                }
            }
        }
        assert forall|k: Seq<char>| #[trigger]
            spec_registry_map(t).contains_key(k) implies spec_registry_map(t)[k]
            == spec_registry_map(s).insert(key, e.value)[k] by {
            let w = choose|w: int| 0 <= w < t.len() && t[w].name@ == k;
            assert(spec_registry_map(t)[t[w].name@] == t[w].value);
            if w == i {
                assert(spec_registry_map(t)[k] == e.value);
            } else {
                assert(s[w].name@ == k && s[w].value == t[w].value);
                assert(spec_registry_map(s)[k] == s[w].value);
                assert(k != key);
            }
        }
        assert(spec_registry_map(t) =~= spec_registry_map(s).insert(key, e.value));
    }
}

} // verus!
