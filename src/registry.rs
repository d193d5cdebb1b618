use vstd::prelude::*;

use crate::entry::RegistryEntry;
use crate::error::InstallError;

verus! {

/// The keys of a registry, in order.
pub open spec fn keys_of(s: Seq<(Seq<char>, RegistryEntry)>) -> Seq<Seq<char>> {
    s.map_values(|p: (Seq<char>, RegistryEntry)| p.0)
}

/// The registry holds an entry under `key`.
pub open spec fn has_key(s: Seq<(Seq<char>, RegistryEntry)>, key: Seq<char>) -> bool {
    exists|i: int| 0 <= i < s.len() && #[trigger] s[i].0 == key
}

/// The largest local id of the registry's entries, and 1 where none is larger.
pub open spec fn local_id_floor(s: Seq<(Seq<char>, RegistryEntry)>) -> i64
    decreases s.len(),
{
    if s.len() == 0 {
        1
    } else {
        let rest = local_id_floor(s.drop_last());
        if s.last().1.local_id > rest {
            s.last().1.local_id
        } else {
            rest
        }
    }
}

/// The registry of installed applications: entries keyed by application
/// identity, in the order they were added, no key twice.
pub struct Registry {
    entries: Vec<(String, RegistryEntry)>,
}

impl View for Registry {
    type V = Seq<(Seq<char>, RegistryEntry)>;

    closed spec fn view(&self) -> Seq<(Seq<char>, RegistryEntry)> {
        self.entries@.map_values(|p: (String, RegistryEntry)| (p.0@, p.1))
    }
}

impl Registry {
    /// No key stands twice.
    pub open spec fn wf(&self) -> bool {
        keys_of(self@).no_duplicates()
    }

    /// An empty registry.
    pub fn new() -> (r: Registry)
        ensures
            r.wf(),
            r@.len() == 0,
    {
        Registry { entries: Vec::new() }
    }

    /// The number of entries.
    pub fn len(&self) -> (r: usize)
        ensures
            r == self@.len(),
    {
        self.entries.len()
    }

    /// The entries, in order.
    pub fn entries(&self) -> (r: &Vec<(String, RegistryEntry)>)
        ensures
            r@.map_values(|p: (String, RegistryEntry)| (p.0@, p.1)) == self@,
    {
        &self.entries
    }

    /// The keys, in order.
    pub fn keys(&self) -> (r: Vec<String>)
        ensures
            r@.map_values(|k: String| k@) == keys_of(self@),
    {
        let mut r: Vec<String> = Vec::new();
        let mut i: usize = 0;
        while i < self.entries.len()
            invariant
                i <= self.entries@.len(),
                r@.map_values(|k: String| k@) == keys_of(self@).take(i as int),
            decreases self.entries@.len() - i,
        {
            r.push(self.entries[i].0.clone());
            proof {
                assert(keys_of(self@).take(i + 1) =~= keys_of(self@).take(i as int).push(
                    self.entries@[i as int].0@,
                ));
                assert(r@.map_values(|k: String| k@) =~= r@.drop_last().map_values(
                    |k: String| k@,
                ).push(r@.last()@));
            }
            i += 1;
        }
        proof {
            assert(keys_of(self@).take(i as int) =~= keys_of(self@));
        }
        r
    }

    /// Whether an entry stands under `key`.
    pub fn contains_key(&self, key: &String) -> (r: bool)
        ensures
            r == has_key(self@, key@),
    {
        let mut i: usize = 0;
        while i < self.entries.len()
            invariant
                i <= self.entries@.len(),
                forall|j: int| 0 <= j < i ==> #[trigger] self@[j].0 != key@,
            decreases self.entries@.len() - i,
        {
            if self.entries[i].0 == *key {
                assert(self@[i as int].0 == key@);
                return true;
            }
            i += 1;
        }
        false
    }

    /// The largest local id among the entries, and 1 where none is larger.
    pub fn max_local_id(&self) -> (r: i64)
        ensures
            r == local_id_floor(self@),
    {
        let mut m: i64 = 1;
        let mut i: usize = 0;
        while i < self.entries.len()
            invariant
                i <= self.entries@.len(),
                m == local_id_floor(self@.take(i as int)),
            decreases self.entries@.len() - i,
        {
            let id = self.entries[i].1.local_id;
            proof {
                assert(self@.take(i + 1).drop_last() =~= self@.take(i as int));
            }
            if id > m {
                m = id;
            }
            i += 1;
        }
        proof {
            assert(self@.take(i as int) =~= self@);
        }
        m
    }

    /// The local id for the next application: one more than the largest
    /// local id, with a floor of 1. `None` where that would not fit an `i64`.
    pub fn next_local_id(&self) -> (r: Option<i64>)
        ensures
            match r {
                Some(n) => local_id_floor(self@) < i64::MAX && n == local_id_floor(self@) + 1,
                None => local_id_floor(self@) == i64::MAX,
            },
    {
        let m = self.max_local_id();
        if m == i64::MAX {
            None
        } else {
            Some(m + 1)
        }
    }

    /// Appends `entry` under `key`, after the existing entries. A key that is
    /// already there is refused and the registry left as it was.
    pub fn insert(&mut self, key: String, entry: RegistryEntry) -> (r: Result<(), InstallError>)
        requires
            old(self).wf(),
        ensures
            final(self).wf(),
            match r {
                Ok(()) => !has_key(old(self)@, key@) && final(self)@ == old(self)@.push((key@, entry)),
                Err(e) => has_key(old(self)@, key@) && e == InstallError::AlreadyInstalled
                    && final(self)@ == old(self)@,
            },
    {
        if self.contains_key(&key) {
            return Err(InstallError::AlreadyInstalled);
        }
        let ghost k = key@;
        self.entries.push((key, entry));
        proof {
            assert(self@ =~= old(self)@.push((k, entry)));
            assert(keys_of(self@) =~= keys_of(old(self)@).push(k));
            assert forall|i: int| 0 <= i < keys_of(old(self)@).len() implies keys_of(old(self)@)[i] != k by {
                assert(old(self)@[i].0 == keys_of(old(self)@)[i]);
            }
        }
        Ok(())
    }
}

} // verus!
