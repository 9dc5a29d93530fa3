use vstd::prelude::*;

use crate::error::AppError;

verus! {

/// One live association from a session key to a process handle.
struct RegistryEntry<H> {
    key: String,
    handle: H,
}

/// The live registry of in-flight processes, keyed by session identifier.
///
/// The surrounding runtime guards a registry with a single mutex covering
/// the whole map; the map logic itself lives here. The handle type is a
/// parameter so the runtime can store its process handles while the logic
/// stays independent of them.
pub struct ProcessRegistry<H> {
    entries: Vec<RegistryEntry<H>>,
}

/// The map denoted by a run of entries: later entries win, though under
/// `distinct_keys` the order never matters.
spec fn entries_map<H>(es: Seq<RegistryEntry<H>>) -> Map<Seq<char>, H>
    decreases es.len(),
{
    if es.len() == 0 {
        Map::empty()
    } else {
        entries_map(es.drop_last()).insert(es.last().key@, es.last().handle)
    }
}

/// The predicate picking the entries that carry the key `k`.
spec fn has_key<H>(k: Seq<char>) -> spec_fn(RegistryEntry<H>) -> bool {
    |e: RegistryEntry<H>| e.key@ == k
}

/// No two entries share a key.
spec fn distinct_keys<H>(es: Seq<RegistryEntry<H>>) -> bool {
    forall|i: int, j: int| 0 <= i < j < es.len() ==> es[i].key@ != es[j].key@
}

proof fn lemma_entries_map_contains<H>(es: Seq<RegistryEntry<H>>, k: Seq<char>)
    ensures
        entries_map(es).contains_key(k) <==> (exists|i: int|
            0 <= i < es.len() && es[i].key@ == k),
    decreases es.len(),
{
    if es.len() > 0 {
        let prefix = es.drop_last();
        lemma_entries_map_contains(prefix, k);
        if es.last().key@ == k {
            assert(es[es.len() - 1].key@ == k);
        } else {
            if entries_map(es).contains_key(k) {
                let i = choose|i: int| 0 <= i < prefix.len() && prefix[i].key@ == k;
                assert(es[i].key@ == k);
            }
            if exists|i: int| 0 <= i < es.len() && es[i].key@ == k {
                let i = choose|i: int| 0 <= i < es.len() && es[i].key@ == k;
                assert(i < es.len() - 1);
                assert(prefix[i].key@ == k);
            }
        }
    }
}

proof fn lemma_entries_map_value<H>(es: Seq<RegistryEntry<H>>, i: int)
    requires
        distinct_keys(es),
        0 <= i < es.len(),
    ensures
        entries_map(es).contains_key(es[i].key@),
        entries_map(es)[es[i].key@] == es[i].handle,
    decreases es.len(),
{
    if i < es.len() - 1 {
        let prefix = es.drop_last();
        assert(distinct_keys(prefix));
        lemma_entries_map_value(prefix, i);
        assert(es.last().key@ != es[i].key@);
    }
}

proof fn lemma_distinct_remove<H>(es: Seq<RegistryEntry<H>>, i: int)
    requires
        distinct_keys(es),
        0 <= i < es.len(),
    ensures
        distinct_keys(es.remove(i)),
{
    let es2 = es.remove(i);
    assert forall|a: int, b: int| 0 <= a < b < es2.len() implies es2[a].key@ != es2[b].key@ by {
        let a0 = if a < i {
            a
        } else {
            a + 1
        };
        let b0 = if b < i {
            b
        } else {
            b + 1
        };
        assert(es2[a] == es[a0]);
        assert(es2[b] == es[b0]);
    }
}

proof fn lemma_entries_map_remove<H>(es: Seq<RegistryEntry<H>>, i: int)
    requires
        distinct_keys(es),
        0 <= i < es.len(),
    ensures
        entries_map(es.remove(i)) == entries_map(es).remove(es[i].key@),
    decreases es.len(),
{
    let k = es[i].key@;
    let prefix = es.drop_last();
    assert(distinct_keys(prefix));
    if i == es.len() - 1 {
        assert(es.remove(i) =~= prefix);
        lemma_entries_map_contains(prefix, k);
        assert(forall|j: int| 0 <= j < prefix.len() ==> prefix[j].key@ != k);
        assert(!entries_map(prefix).contains_key(k));
        assert(entries_map(prefix).insert(k, es.last().handle).remove(k) =~= entries_map(
            prefix,
        ));
    } else {
        lemma_entries_map_remove(prefix, i);
        let es2 = es.remove(i);
        assert(es2.drop_last() =~= prefix.remove(i));
        assert(es2.last() == es.last());
        assert(es.last().key@ != k);
        assert(entries_map(prefix).remove(k).insert(es.last().key@, es.last().handle)
            =~= entries_map(prefix).insert(es.last().key@, es.last().handle).remove(k));
        assert(entries_map(es2) == entries_map(prefix.remove(i)).insert(
            es2.last().key@,
            es2.last().handle,
        ));
    }
}

proof fn lemma_distinct_occurrences<H>(es: Seq<RegistryEntry<H>>, k: Seq<char>)
    requires
        distinct_keys(es),
    ensures
        es.filter(has_key::<H>(k)).len() <= 1,
    decreases es.len(),
{
    reveal_with_fuel(Seq::filter, 2);
    if es.len() > 0 {
        let prefix = es.drop_last();
        assert(distinct_keys(prefix));
        lemma_distinct_occurrences(prefix, k);
        if es.last().key@ == k {
            assert(forall|j: int| 0 <= j < prefix.len() ==> prefix[j].key@ != k);
            lemma_all_miss_filter_empty(prefix, k);
        }
    }
}

proof fn lemma_all_miss_filter_empty<H>(es: Seq<RegistryEntry<H>>, k: Seq<char>)
    requires
        forall|j: int| 0 <= j < es.len() ==> es[j].key@ != k,
    ensures
        es.filter(has_key::<H>(k)).len() == 0,
    decreases es.len(),
{
    reveal_with_fuel(Seq::filter, 2);
    if es.len() > 0 {
        let prefix = es.drop_last();
        lemma_all_miss_filter_empty(prefix, k);
    }
}

impl<H> View for ProcessRegistry<H> {
    type V = Map<Seq<char>, H>;

    /// A registry denotes the map from each live session key to its handle.
    closed spec fn view(&self) -> Map<Seq<char>, H> {
        entries_map(self.entries@)
    }
}

impl<H> ProcessRegistry<H> {
    /// Well-formedness: no two entries share a key. Constructors establish
    /// it and every operation preserves it.
    pub closed spec fn wf(&self) -> bool {
        distinct_keys(self.entries@)
    }

    /// How many internal entries carry the key `k`; the registry keeps this
    /// at most one for every key, whatever operations ran before.
    pub closed spec fn key_occurrences(&self, k: Seq<char>) -> nat {
        self.entries@.filter(has_key::<H>(k)).len()
    }

    /// At most one live entry per key.
    pub open spec fn one_per_key(&self) -> bool {
        forall|k: Seq<char>| #[trigger] self.key_occurrences(k) <= 1
    }

    /// A well-formed registry holds at most one entry per key.
    pub proof fn lemma_one_per_key(&self)
        requires
            self.wf(),
        ensures
            self.one_per_key(),
    {
        assert forall|k: Seq<char>| #[trigger] self.key_occurrences(k) <= 1 by {
            lemma_distinct_occurrences(self.entries@, k);
        }
    }

    /// An empty registry.
    pub fn new() -> (r: Self)
        ensures
            r@ == Map::<Seq<char>, H>::empty(),
            r.wf(),
            r.one_per_key(),
    {
        let r = ProcessRegistry { entries: Vec::new() };
        proof {
            r.lemma_one_per_key();
        }
        r
    }

    fn find_index(&self, key: &String) -> (r: Option<usize>)
        ensures
            match r {
                Some(i) => i < self.entries@.len() && self.entries@[i as int].key@ == key@,
                None => forall|j: int| 0 <= j < self.entries@.len() ==> self.entries@[j].key@
                    != key@,
            },
    {
        let mut i: usize = 0;
        while i < self.entries.len()
            invariant
                i <= self.entries@.len(),
                forall|j: int| 0 <= j < i ==> self.entries@[j].key@ != key@,
            decreases self.entries@.len() - i,
        {
            if self.entries[i].key == *key {
                return Some(i);
            }
            i += 1;
        }
        None
    }

    /// Whether a live handle is registered under `key`.
    pub fn contains_key(&self, key: &String) -> (r: bool)
        ensures
            r == self@.contains_key(key@),
    {
        proof {
            lemma_entries_map_contains(self.entries@, key@);
        }
        let found = self.find_index(key);
        match found {
            Some(_) => true,
            None => false,
        }
    }

    /// Removes and returns the handle registered under `key`, if any. When
    /// no entry carries the key, the registry is unchanged.
    pub fn remove(&mut self, key: &String) -> (r: Option<H>)
        requires
            old(self).wf(),
        ensures
            final(self).wf(),
            final(self).one_per_key(),
            match r {
                Some(h) => old(self)@.contains_key(key@) && h == old(self)@[key@]
                    && final(self)@ == old(self)@.remove(key@),
                None => !old(self)@.contains_key(key@) && final(self)@ == old(self)@,
            },
    {
        proof {
            lemma_entries_map_contains(self.entries@, key@);
        }
        let found = self.find_index(key);
        match found {
            Some(i) => {
                proof {
                    lemma_entries_map_value(self.entries@, i as int);
                    lemma_entries_map_remove(self.entries@, i as int);
                    lemma_distinct_remove(self.entries@, i as int);
                }
                let e = self.entries.remove(i);
                proof {
                    self.lemma_one_per_key();
                }
                Some(e.handle)
            },
            None => {
                proof {
                    self.lemma_one_per_key();
                }
                None
            },
        }
    }

    /// Registers `handle` under `key`, returning any handle that was
    /// displaced. The orchestrator never issues overlapping resumes against
    /// one session, so a displacement is unexpected; handing the old handle
    /// back keeps the policy explicit instead of silently dropping a live
    /// process.
    pub fn insert(&mut self, key: String, handle: H) -> (displaced: Option<H>)
        requires
            old(self).wf(),
        ensures
            final(self).wf(),
            final(self)@ == old(self)@.insert(key@, handle),
            final(self).one_per_key(),
            match displaced {
                Some(h) => old(self)@.contains_key(key@) && h == old(self)@[key@],
                None => !old(self)@.contains_key(key@),
            },
    {
        let displaced = self.remove(&key);
        proof {
            lemma_entries_map_contains(self.entries@, key@);
        }
        let ghost mid = self.entries@;
        self.entries.push(RegistryEntry { key, handle });
        proof {
            assert(self.entries@.drop_last() =~= mid);
            assert(forall|j: int| 0 <= j < mid.len() ==> mid[j].key@ != self.entries@.last().key@);
            assert(distinct_keys(self.entries@));
            if old(self)@.contains_key(self.entries@.last().key@) {
                assert(entries_map(self.entries@) =~= old(self)@.insert(
                    self.entries@.last().key@,
                    self.entries@.last().handle,
                ));
            } else {
                assert(entries_map(self.entries@) =~= old(self)@.insert(
                    self.entries@.last().key@,
                    self.entries@.last().handle,
                ));
            }
            self.lemma_one_per_key();
        }
        displaced
    }

    /// Atomically removes the entry under `key` so its process can be
    /// terminated by the caller, who performs the kill itself; an absent key
    /// reports `SessionNotFound` and changes nothing, so a race between an
    /// explicit termination and the natural completion cleanup can never
    /// target one handle twice.
    pub fn terminate_by_key(&mut self, key: &String) -> (r: Result<H, AppError>)
        requires
            old(self).wf(),
        ensures
            final(self).wf(),
            final(self).one_per_key(),
            match r {
                Ok(h) => old(self)@.contains_key(key@) && h == old(self)@[key@]
                    && final(self)@ == old(self)@.remove(key@),
                Err(e) => !old(self)@.contains_key(key@) && final(self)@ == old(self)@ && (
                e matches AppError::SessionNotFound(s) && s@ == key@),
            },
    {
        let removed = self.remove(key);
        match removed {
            Some(h) => Ok(h),
            None => Err(AppError::SessionNotFound(key.clone())),
        }
    }
}

} // verus!
