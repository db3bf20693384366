//! The persisted store of named VM configurations: lookup, create/edit
//! and removal, with a uniqueness invariant on names. The store's
//! abstract value is the sequence of its entries in insertion order;
//! `upsert_model` and `remove_model` say exactly what each edit does.

use vstd::prelude::*;
use crate::config::VmConfig;

verus! {

/// One named configuration record.
#[derive(PartialEq, Eq, Debug)]
pub struct ConfigEntry {
    pub name: String,
    pub config: VmConfig,
}

impl Clone for ConfigEntry {
    fn clone(&self) -> (res: Self)
        ensures
            res == *self,
    {
        ConfigEntry { name: self.name.clone(), config: self.config.clone() }
    }
}

/// Whether some entry carries the given name.
pub open spec fn store_has(s: Seq<ConfigEntry>, name: Seq<char>) -> bool {
    exists|i: int| 0 <= i < s.len() && s[i].name@ == name
}

/// The index of the entry carrying the given name; meaningful only
/// when `store_has` holds and names are unique.
pub open spec fn idx_of(s: Seq<ConfigEntry>, name: Seq<char>) -> int {
    choose|i: int| 0 <= i < s.len() && s[i].name@ == name
}

/// No two entries share a name.
pub open spec fn unique_names(s: Seq<ConfigEntry>) -> bool {
    forall|i: int, j: int|
        0 <= i < s.len() && 0 <= j < s.len() && i != j ==> s[i].name@ != s[j].name@
}

/// The configuration stored under the given name, if any.
pub open spec fn store_lookup(s: Seq<ConfigEntry>, name: Seq<char>) -> Option<VmConfig> {
    if store_has(s, name) {
        Some(s[idx_of(s, name)].config)
    } else {
        None
    }
}

/// What creating or editing an entry does: replace the entry with the
/// same name in place, or append a new one.
pub open spec fn upsert_model(s: Seq<ConfigEntry>, entry: ConfigEntry) -> Seq<ConfigEntry> {
    if store_has(s, entry.name@) {
        s.update(idx_of(s, entry.name@), entry)
    } else {
        s.push(entry)
    }
}

/// What removal does: drop the entry with the given name, or leave the
/// store unchanged when no entry carries it.
pub open spec fn remove_model(s: Seq<ConfigEntry>, name: Seq<char>) -> Seq<ConfigEntry> {
    if store_has(s, name) {
        s.remove(idx_of(s, name))
    } else {
        s
    }
}

/// The store of named VM configurations, together with the optional
/// persisted target-environment override.
pub struct ConfigStore {
    pub vms: Vec<ConfigEntry>,
    pub mullvad_host: Option<String>,
}

impl ConfigStore {
    /// Entry names are pairwise distinct.
    pub open spec fn wf(self) -> bool {
        unique_names(self.vms@)
    }

    /// The empty store, used when nothing was persisted yet.
    pub fn empty() -> (r: ConfigStore)
        ensures
            r.wf(),
            r.vms@ =~= Seq::<ConfigEntry>::empty(),
            r.mullvad_host is None,
    {
        ConfigStore { vms: Vec::new(), mullvad_host: None }
    }

    /// The index of the entry named `name`, if one exists.
    fn find_index(&self, name: &String) -> (r: Option<usize>)
        requires
            self.wf(),
        ensures
            r matches Some(i) ==> 0 <= i < self.vms@.len() && self.vms@[i as int].name@ == name@
                && i as int == idx_of(self.vms@, name@),
            r is None ==> !store_has(self.vms@, name@),
    {
        let n = self.vms.len();
        let mut i: usize = 0;
        while i < n
            invariant
                n == self.vms@.len(),
                0 <= i <= n,
                self.wf(),
                forall|k: int| 0 <= k < i ==> self.vms@[k].name@ != name@,
            decreases n - i,
        {
            if self.vms[i].name == *name {
                proof {
                    let w = idx_of(self.vms@, name@);
                    assert(0 <= w < self.vms@.len() && self.vms@[w].name@ == name@);
                    assert(w == i as int);
                }
                return Some(i);
            }
            i += 1;
        }
        None
    }

    /// The configuration stored under `name`, or nothing.
    pub fn get_vm(&self, name: &String) -> (r: Option<VmConfig>)
        requires
            self.wf(),
        ensures
            r == store_lookup(self.vms@, name@),
    {
        match self.find_index(name) {
            Some(i) => Some(self.vms[i].config.clone()),
            None => None,
        }
    }

    /// Creates the entry named `name`, or replaces its configuration in
    /// place when it already exists. Afterwards exactly one entry
    /// carries `name`, and it holds the latest values.
    pub fn set_config(&mut self, name: &String, config: VmConfig)
        requires
            old(self).wf(),
        ensures
            final(self).wf(),
            final(self).vms@ == upsert_model(
                old(self).vms@,
                (ConfigEntry { name: *name, config }),
            ),
            store_lookup(final(self).vms@, name@) == Some(config),
            final(self).mullvad_host == old(self).mullvad_host,
    {
        let entry = ConfigEntry { name: name.clone(), config };
        let ghost s0 = self.vms@;
        match self.find_index(name) {
            Some(i) => {
                self.vms.set(i, entry);
                proof {
                    lemma_upsert_wf(s0, (ConfigEntry { name: *name, config }));
                    lemma_lookup_after_upsert(s0, (ConfigEntry { name: *name, config }));
                }
            }
            None => {
                self.vms.push(entry);
                proof {
                    lemma_upsert_wf(s0, (ConfigEntry { name: *name, config }));
                    lemma_lookup_after_upsert(s0, (ConfigEntry { name: *name, config }));
                }
            }
        }
    }

    /// Removes the entry named `name` if present; reports whether one
    /// was removed. Removal of an absent name leaves the store intact.
    pub fn remove_config(&mut self, name: &String) -> (removed: bool)
        requires
            old(self).wf(),
        ensures
            final(self).wf(),
            removed == store_has(old(self).vms@, name@),
            final(self).vms@ == remove_model(old(self).vms@, name@),
            final(self).mullvad_host == old(self).mullvad_host,
    {
        let ghost s0 = self.vms@;
        match self.find_index(name) {
            Some(i) => {
                self.vms.remove(i);
                proof {
                    lemma_remove_wf(s0, name@);
                }
                true
            }
            None => false,
        }
    }

    /// The stored entries in insertion order.
    pub fn entries(&self) -> (r: &Vec<ConfigEntry>)
        ensures
            r@ == self.vms@,
    {
        &self.vms
    }
}

/// An upsert keeps names unique.
proof fn lemma_upsert_wf(s: Seq<ConfigEntry>, entry: ConfigEntry)
    requires
        unique_names(s),
    ensures
        unique_names(upsert_model(s, entry)),
{
    if store_has(s, entry.name@) {
        let i = idx_of(s, entry.name@);
        assert(0 <= i < s.len() && s[i].name@ == entry.name@);
        let s1 = s.update(i, entry);
        assert forall|p: int, q: int|
            0 <= p < s1.len() && 0 <= q < s1.len() && p != q implies s1[p].name@ != s1[q].name@ by {
            assert(s1[p].name@ == if p == i { entry.name@ } else { s[p].name@ });
            assert(s1[q].name@ == if q == i { entry.name@ } else { s[q].name@ });
        }
    } else {
        let s1 = s.push(entry);
        assert forall|p: int, q: int|
            0 <= p < s1.len() && 0 <= q < s1.len() && p != q implies s1[p].name@ != s1[q].name@ by {
            if p < s.len() && q < s.len() {
                assert(s1[p] == s[p] && s1[q] == s[q]);
            } else if p == s.len() {
                assert(s1[p] == entry && s1[q] == s[q]);
                assert(!(s[q].name@ == entry.name@)) by {
                    assert(store_has(s, entry.name@) ==> true);
                }
            } else {
                assert(s1[q] == entry && s1[p] == s[p]);
            }
        }
    }
}

/// After an upsert the entry's name maps to the new configuration.
proof fn lemma_lookup_after_upsert(s: Seq<ConfigEntry>, entry: ConfigEntry)
    requires
        unique_names(s),
    ensures
        store_lookup(upsert_model(s, entry), entry.name@) == Some(entry.config),
{
    let s1 = upsert_model(s, entry);
    if store_has(s, entry.name@) {
        let i = idx_of(s, entry.name@);
        assert(0 <= i < s.len() && s[i].name@ == entry.name@);
        assert(s1[i] == entry);
        assert(store_has(s1, entry.name@));
        let w = idx_of(s1, entry.name@);
        assert(0 <= w < s1.len() && s1[w].name@ == entry.name@);
        lemma_upsert_wf(s, entry);
        assert(w == i);
    } else {
        let i = s.len() as int;
        assert(s1[i] == entry);
        assert(store_has(s1, entry.name@));
        let w = idx_of(s1, entry.name@);
        assert(0 <= w < s1.len() && s1[w].name@ == entry.name@);
        lemma_upsert_wf(s, entry);
        assert(w == i);
    }
}

/// Removal keeps names unique.
proof fn lemma_remove_wf(s: Seq<ConfigEntry>, name: Seq<char>)
    requires
        unique_names(s),
    ensures
        unique_names(remove_model(s, name)),
{
    if store_has(s, name) {
        let i = idx_of(s, name);
        assert(0 <= i < s.len());
        let s1 = s.remove(i);
        assert forall|p: int, q: int|
            0 <= p < s1.len() && 0 <= q < s1.len() && p != q implies s1[p].name@ != s1[q].name@ by {
            let p0 = if p < i { p } else { p + 1 };
            let q0 = if q < i { q } else { q + 1 };
            assert(s1[p] == s[p0] && s1[q] == s[q0]);
        }
    }
}

/// Applying the same create-or-edit twice is the same as applying it
/// once: the second application finds the entry it wrote and replaces
/// it with itself, so the store holds one entry for the name, carrying
/// the latest values, and never a duplicate.
pub proof fn lemma_set_config_idempotent(s: Seq<ConfigEntry>, entry: ConfigEntry)
    requires
        unique_names(s),
    ensures
        upsert_model(upsert_model(s, entry), entry) == upsert_model(s, entry),
        unique_names(upsert_model(s, entry)),
        store_lookup(upsert_model(s, entry), entry.name@) == Some(entry.config),
{
    lemma_upsert_wf(s, entry);
    lemma_lookup_after_upsert(s, entry);
    let s1 = upsert_model(s, entry);
    let w = idx_of(s1, entry.name@);
    assert(store_has(s1, entry.name@)) by {
        if store_has(s, entry.name@) {
            let i = idx_of(s, entry.name@);
            assert(s1[i] == entry);
        } else {
            assert(s1[s.len() as int] == entry);
        }
    }
    assert(0 <= w < s1.len() && s1[w].name@ == entry.name@);
    assert(s1[w] == entry) by {
        if store_has(s, entry.name@) {
            let i = idx_of(s, entry.name@);
            assert(s1[i] == entry);
            assert(w == i);
        } else {
            assert(s1[s.len() as int] == entry);
            assert(w == s.len() as int);
        }
    }
    assert(upsert_model(s1, entry) == s1.update(w, entry));
    assert(s1.update(w, entry) =~= s1);
}

} // verus!
