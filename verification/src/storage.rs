//! The store that carries trait declarations from registration to
//! generation: a keyed table with insert-if-absent semantics.  The key of a
//! declaration is its path with any generic-argument suffix stripped, so a
//! trait registered under `Trait` is found by a request for `Trait<str>`.

use vstd::prelude::*;

use crate::gen::SpecTraitData;
use crate::gen::TraitData;
use crate::model::Error;
use crate::model::SpecError;
use crate::model::SpecTraitPath;
use crate::model::TraitPath;
use crate::model::clone_string_vec;
use crate::model::view_string_seq;

verus! {

/// One stored declaration: its normalized key (the path segments, with
/// generic arguments stripped) and the trait declaration itself.
#[derive(Debug)]
pub struct StorageEntry {
    pub key: Vec<String>,
    pub data: TraitData,
}

pub struct SpecStorageEntry {
    pub key: Seq<Seq<char>>,
    pub data: SpecTraitData,
}

impl View for StorageEntry {
    type V = SpecStorageEntry;

    open spec fn view(&self) -> SpecStorageEntry {
        SpecStorageEntry { key: view_string_seq(self.key@), data: self.data@ }
    }
}

pub open spec fn view_entry_seq(s: Seq<StorageEntry>) -> Seq<SpecStorageEntry> {
    Seq::new(s.len(), |i: int| s[i]@)
}

/// The normalized key of a trait path: its segments; the generic arguments
/// attached to the last segment do not take part in the match.
pub open spec fn spec_key_of(p: SpecTraitPath) -> Seq<Seq<char>> {
    p.segments
}

/// The stored declaration under a key, if any: the earliest entry wins.
pub open spec fn spec_storage_lookup(s: Seq<SpecStorageEntry>, key: Seq<Seq<char>>) -> Option<
    SpecTraitData,
>
    decreases s.len(),
{
    if s.len() == 0 {
        Option::None
    } else if s[0].key == key {
        Option::Some(s[0].data)
    } else {
        spec_storage_lookup(s.drop_first(), key)
    }
}

proof fn lemma_storage_lookup_skip(s: Seq<SpecStorageEntry>, key: Seq<Seq<char>>, i: int)
    requires
        0 <= i <= s.len(),
        forall|j: int| 0 <= j < i ==> (#[trigger] s[j]).key != key,
    ensures
        spec_storage_lookup(s, key) == spec_storage_lookup(s.subrange(i, s.len() as int), key),
    decreases i,
{
    if i > 0 {
        lemma_storage_lookup_skip(s.drop_first(), key, i - 1);
        assert(s.drop_first().subrange(i - 1, s.drop_first().len() as int) =~= s.subrange(
            i,
            s.len() as int,
        ));
    } else {
        assert(s.subrange(0, s.len() as int) =~= s);
    }
}

fn string_vec_eq(a: &Vec<String>, b: &Vec<String>) -> (r: bool)
    ensures
        r == (view_string_seq(a@) == view_string_seq(b@)),
{
    if a.len() != b.len() {
        proof {
            assert(view_string_seq(a@).len() != view_string_seq(b@).len());
        }
        return false;
    }
    let mut i: usize = 0;
    while i < a.len()
        invariant
            a@.len() == b@.len(),
            i <= a.len(),
            forall|j: int| 0 <= j < i ==> a@[j]@ == b@[j]@,
        decreases a@.len() - i,
    {
        if !(a[i] == b[i]) {
            proof {
                assert(view_string_seq(a@)[i as int] != view_string_seq(b@)[i as int]);
            }
            return false;
        }
        i = i + 1;
    }
    proof {
        assert(view_string_seq(a@) =~= view_string_seq(b@));
    }
    true
}

/// The store itself: a sequence of keyed declarations, where registration
/// inserts only keys that are absent.
#[derive(Debug)]
pub struct Storage {
    pub entries: Vec<StorageEntry>,
}

impl View for Storage {
    type V = Seq<SpecStorageEntry>;

    open spec fn view(&self) -> Seq<SpecStorageEntry> {
        view_entry_seq(self.entries@)
    }
}

impl Storage {
    /// A fresh, empty store.  Each generation pipeline constructs one
    /// explicitly and threads it from registration to generation; a host
    /// that wants a process-wide store keeps one instance of its own.
    pub fn global() -> (r: Storage)
        ensures
            r@.len() == 0,
    {
        Storage { entries: Vec::new() }
    }

    fn find(&self, key: &Vec<String>) -> (r: Option<&TraitData>)
        ensures
            r is Some <==> spec_storage_lookup(self@, view_string_seq(key@)) is Some,
            r matches Some(d) ==> Option::Some(d@) == spec_storage_lookup(
                self@,
                view_string_seq(key@),
            ),
    {
        let ghost s = self@;
        let ghost k = view_string_seq(key@);
        let mut i: usize = 0;
        while i < self.entries.len()
            invariant
                i <= self.entries.len(),
                s == self@,
                k == view_string_seq(key@),
                s.len() == self.entries@.len(),
                forall|j: int| 0 <= j < s.len() ==> s[j] == self.entries@[j]@,
                forall|j: int| 0 <= j < i ==> (#[trigger] s[j]).key != k,
            decreases self.entries@.len() - i,
        {
            if string_vec_eq(&self.entries[i].key, key) {
                proof {
                    lemma_storage_lookup_skip(s, k, i as int);
                }
                return Option::Some(&self.entries[i].data);
            }
            i = i + 1;
        }
        proof {
            lemma_storage_lookup_skip(s, k, s.len() as int);
            assert(s.subrange(s.len() as int, s.len() as int) =~= Seq::<SpecStorageEntry>::empty());
        }
        Option::None
    }

    /// Registers a trait declaration under the normalized key of `path`.
    /// Fails with `NameConflict`, and stores nothing, when the key is
    /// already present.
    pub fn store(&mut self, path: &TraitPath, trait_data: &TraitData) -> (r: Result<(), Error>)
        requires
            old(self)@.len() < usize::MAX,
            path@.segments.len() > 0,
        ensures
            r is Ok <==> spec_storage_lookup(old(self)@, spec_key_of(path@)) is None,
            r is Ok ==> final(self)@ == old(self)@.push(
                SpecStorageEntry { key: spec_key_of(path@), data: trait_data@ },
            ),
            r matches Err(e) ==> final(self)@ == old(self)@ && e@ == (SpecError::NameConflict {
                name: path@.segments.last(),
            }),
    {
        let key = clone_string_vec(&path.segments);
        proof {
            assert(view_string_seq(key@) == spec_key_of(path@));
        }
        match self.find(&key) {
            Option::Some(d) => {
                let name = path.segments[path.segments.len() - 1].clone();
                Result::Err(Error::NameConflict { name })
            },
            Option::None => {
                let ghost before = self@;
                let entry = StorageEntry { key, data: trait_data.clone() };
                let ghost ev = entry@;
                self.entries.push(entry);
                proof {
                    assert(self@ =~= before.push(ev));
                }
                Result::Ok(())
            },
        }
    }

    /// Retrieves the declaration registered under the normalized key of
    /// `path`, if any; the store is unchanged.
    pub fn get(&mut self, path: &TraitPath) -> (r: Option<TraitData>)
        ensures
            final(self)@ == old(self)@,
            r is Some <==> spec_storage_lookup(old(self)@, spec_key_of(path@)) is Some,
            r matches Some(d) ==> Option::Some(d@) == spec_storage_lookup(
                old(self)@,
                spec_key_of(path@),
            ),
    {
        let key = clone_string_vec(&path.segments);
        proof {
            assert(view_string_seq(key@) == spec_key_of(path@));
        }
        match self.find(&key) {
            Option::Some(d) => Option::Some(d.clone()),
            Option::None => Option::None,
        }
    }
}

} // verus!
