//! The children of one mode: a finite map from single-character keys to
//! keymap entries, stored in ascending key order.

use crate::types::KeymapEntry;
use crate::types::KeymapError;
use vstd::prelude::*;

verus! {

/// The keys of a sequence of bindings, in the same order.
pub open spec fn keys_of(bindings: Seq<(char, KeymapEntry)>) -> Seq<char> {
    bindings.map_values(|b: (char, KeymapEntry)| b.0)
}

/// `keys` is strictly ascending: sorted, with no key twice.
pub open spec fn ascending(keys: Seq<char>) -> bool {
    forall|i: int, j: int| 0 <= i < j < keys.len() ==> keys[i] < keys[j]
}

/// `key` is bound somewhere in `bindings`.
pub open spec fn binds(bindings: Seq<(char, KeymapEntry)>, key: char) -> bool {
    exists|i: int| 0 <= i < bindings.len() && #[trigger] bindings[i].0 == key
}

/// A place at which `bindings` binds `key`, where there is one.
pub open spec fn index_of(bindings: Seq<(char, KeymapEntry)>, key: char) -> int {
    choose|i: int| 0 <= i < bindings.len() && #[trigger] bindings[i].0 == key
}

/// The map that a sequence of bindings denotes. Where a key occurs once, it
/// maps to the entry bound to it.
pub open spec fn bindings_map(bindings: Seq<(char, KeymapEntry)>) -> Map<char, KeymapEntry> {
    Map::new(|key: char| binds(bindings, key), |key: char| bindings[index_of(bindings, key)].1)
}

/// In a sequence of bindings whose keys are all different, each binding is
/// what the denoted map holds under its key, and the map holds nothing else.
pub proof fn lemma_bindings_map(bindings: Seq<(char, KeymapEntry)>)
    requires
        keys_of(bindings).no_duplicates(),
    ensures
        forall|i: int|
            0 <= i < bindings.len() ==> bindings_map(bindings).dom().contains(
                #[trigger] bindings[i].0,
            ) && bindings_map(bindings)[bindings[i].0] == bindings[i].1,
        forall|key: char|
            bindings_map(bindings).dom().contains(key) ==> binds(bindings, key),
{
    assert forall|i: int| 0 <= i < bindings.len() implies bindings_map(bindings).dom().contains(
        #[trigger] bindings[i].0,
    ) && bindings_map(bindings)[bindings[i].0] == bindings[i].1 by {
        let key = bindings[i].0;
        assert(binds(bindings, key));
        let j = index_of(bindings, key);
        assert(keys_of(bindings)[i] == key && keys_of(bindings)[j] == key);
    }
}

/// The keys that a sequence of bindings binds are the domain of the map that
/// it denotes.
pub proof fn lemma_keys_are_domain(bindings: Seq<(char, KeymapEntry)>)
    ensures
        keys_of(bindings).to_set() == bindings_map(bindings).dom(),
{
    assert forall|key: char| keys_of(bindings).to_set().contains(key) implies bindings_map(
        bindings,
    ).dom().contains(key) by {
        let i = choose|i: int| 0 <= i < keys_of(bindings).len() && keys_of(bindings)[i] == key;
        assert(bindings[i].0 == key);
    }
    assert forall|key: char| bindings_map(bindings).dom().contains(key) implies keys_of(
        bindings,
    ).to_set().contains(key) by {
        let i = index_of(bindings, key);
        assert(keys_of(bindings)[i] == key);
    }
    assert(keys_of(bindings).to_set() =~= bindings_map(bindings).dom());
}

/// Adding a binding under a fresh key keeps the keys different and adds just
/// that binding to the denoted map.
pub proof fn lemma_bindings_map_push(
    bindings: Seq<(char, KeymapEntry)>,
    key: char,
    entry: KeymapEntry,
)
    requires
        keys_of(bindings).no_duplicates(),
        !binds(bindings, key),
    ensures
        keys_of(bindings.push((key, entry))).no_duplicates(),
        bindings_map(bindings.push((key, entry))) == bindings_map(bindings).insert(key, entry),
{
    let more = bindings.push((key, entry));
    assert forall|i: int, j: int|
        0 <= i < more.len() && 0 <= j < more.len() && i != j implies keys_of(more)[i] != keys_of(
        more,
    )[j] by {
        if i < bindings.len() {
            assert(bindings[i].0 == keys_of(bindings)[i]);
        }
        if j < bindings.len() {
            assert(bindings[j].0 == keys_of(bindings)[j]);
        }
    }
    lemma_bindings_map(bindings);
    lemma_bindings_map(more);
    assert(bindings_map(more) =~= bindings_map(bindings).insert(key, entry)) by {
        assert(more[bindings.len() as int].0 == key);
        assert forall|k: char| bindings_map(bindings).insert(key, entry).dom().contains(
            k,
        ) implies #[trigger] bindings_map(more).dom().contains(k) && bindings_map(more)[k]
            == bindings_map(bindings).insert(key, entry)[k] by {
            if k != key {
                let j = index_of(bindings, k);
                assert(more[j] == bindings[j]);
                assert(more[j].0 == k);
            }
        }
        assert forall|k: char| bindings_map(more).dom().contains(k) implies #[trigger] bindings_map(
            bindings,
        ).insert(key, entry).dom().contains(k) by {
            let j = index_of(more, k);
            if j < bindings.len() {
                assert(bindings[j].0 == k);
            }
        }
    }
}

/// A strictly ascending sequence has no key twice.
pub proof fn lemma_ascending_no_duplicates(keys: Seq<char>)
    requires
        ascending(keys),
    ensures
        keys.no_duplicates(),
{
    assert forall|i: int, j: int| 0 <= i < keys.len() && 0 <= j < keys.len() && i != j implies keys[i]
        != keys[j] by {
        if i < j {
            assert(keys[i] < keys[j]);
        } else {
            assert(keys[j] < keys[i]);
        }
    }
}

/// The children of one mode.
#[derive(Debug, PartialEq, Eq)]
pub struct ChildMap {
    entries: Vec<(char, KeymapEntry)>,
}

impl View for ChildMap {
    type V = Map<char, KeymapEntry>;

    /// The mapping from keys to children.
    open spec fn view(&self) -> Map<char, KeymapEntry> {
        bindings_map(self.bindings())
    }
}

impl ChildMap {
    /// The bindings in the order in which they are listed for display.
    pub closed spec fn bindings(self) -> Seq<(char, KeymapEntry)> {
        self.entries@
    }

    /// The keys in display order.
    pub open spec fn keys(self) -> Seq<char> {
        keys_of(self.bindings())
    }

    /// What the map holds under `key`, if anything.
    pub open spec fn lookup(self, key: char) -> Option<KeymapEntry> {
        if self@.dom().contains(key) {
            Some(self@[key])
        } else {
            None
        }
    }

    #[verifier::type_invariant]
    spec fn ordered(self) -> bool {
        ascending(keys_of(self.entries@))
    }

    /// A map with no children.
    pub fn new() -> (m: ChildMap)
        ensures
            m.bindings().len() == 0,
            m@ == Map::<char, KeymapEntry>::empty(),
    {
        let m = ChildMap { entries: Vec::new() };
        assert(m@ =~= Map::<char, KeymapEntry>::empty());
        m
    }

    /// The number of children. The bindings are listed once each, by
    /// strictly ascending key.
    pub fn len(&self) -> (n: usize)
        ensures
            n == self.bindings().len(),
            ascending(self.keys()),
            self@.dom().finite(),
            n == self@.dom().len(),
    {
        proof {
            use_type_invariant(self);
            lemma_ascending_no_duplicates(self.keys());
            lemma_keys_are_domain(self.bindings());
            self.keys().unique_seq_to_set();
            vstd::seq_lib::seq_to_set_is_finite(self.keys());
        }
        self.entries.len()
    }

    /// The `i`-th key in ascending order.
    pub fn key_at(&self, i: usize) -> (key: char)
        requires
            i < self.bindings().len(),
        ensures
            key == self.bindings()[i as int].0,
            self@.dom().contains(key),
    {
        proof {
            use_type_invariant(self);
            lemma_ascending_no_duplicates(self.keys());
            lemma_bindings_map(self.bindings());
        }
        self.entries[i].0
    }

    /// The child bound to the `i`-th key in ascending order.
    pub fn child_at(&self, i: usize) -> (child: &KeymapEntry)
        requires
            i < self.bindings().len(),
        ensures
            *child == self.bindings()[i as int].1,
            self.lookup(self.bindings()[i as int].0) == Some(*child),
    {
        proof {
            use_type_invariant(self);
            lemma_ascending_no_duplicates(self.keys());
            lemma_bindings_map(self.bindings());
        }
        &self.entries[i].1
    }

    /// Where `key` stands among the bindings, or where it would be put.
    fn position(&self, key: char) -> (r: (bool, usize))
        ensures
            r.1 <= self.bindings().len(),
            forall|j: int| 0 <= j < r.1 ==> self.keys()[j] < key,
            forall|j: int| r.1 < j < self.bindings().len() ==> key < self.keys()[j],
            r.0 ==> r.1 < self.bindings().len() && self.keys()[r.1 as int] == key,
            !r.0 ==> (r.1 < self.bindings().len() ==> key < self.keys()[r.1 as int]),
    {
        proof {
            use_type_invariant(self);
        }
        let mut lo: usize = 0;
        let mut hi: usize = self.entries.len();
        while lo < hi
            invariant
                lo <= hi <= self.entries.len(),
                ascending(self.keys()),
                forall|j: int| 0 <= j < lo ==> self.keys()[j] < key,
                forall|j: int| hi <= j < self.entries.len() ==> key < self.keys()[j],
            decreases hi - lo,
        {
            let mid: usize = lo + (hi - lo) / 2;
            let k: char = self.entries[mid].0;
            assert(self.keys()[mid as int] == k);
            if k == key {
                return (true, mid);
            } else if k < key {
                lo = mid + 1;
            } else {
                hi = mid;
            }
        }
        (false, lo)
    }

    /// The child bound to `key`.
    pub fn get(&self, key: char) -> (r: Option<&KeymapEntry>)
        ensures
            match r {
                Some(child) => self.lookup(key) == Some(*child),
                None => self.lookup(key) is None,
            },
    {
        proof {
            use_type_invariant(self);
            lemma_ascending_no_duplicates(self.keys());
            lemma_bindings_map(self.bindings());
        }
        let (found, i) = self.position(key);
        if found {
            assert(self.bindings()[i as int].0 == key);
            Some(&self.entries[i].1)
        } else {
            assert(!binds(self.bindings(), key)) by {
                if binds(self.bindings(), key) {
                    let j = index_of(self.bindings(), key);
                    assert(self.keys()[j] == key);
                }
            }
            None
        }
    }

    /// Binds `key` to `entry`. A key that is already bound is refused, and
    /// nothing else is.
    pub fn insert(self, key: char, entry: KeymapEntry) -> (r: Result<ChildMap, KeymapError>)
        ensures
            match r {
                Ok(m) => !self@.dom().contains(key) && m@ == self@.insert(key, entry),
                Err(e) => self@.dom().contains(key) && e == KeymapError::DuplicateKey(key),
            },
    {
        proof {
            use_type_invariant(&self);
            lemma_ascending_no_duplicates(self.keys());
            lemma_bindings_map(self.bindings());
        }
        let (found, i) = self.position(key);
        if found {
            assert(self.bindings()[i as int].0 == key);
            return Err(KeymapError::DuplicateKey(key));
        }
        let ghost before = self.entries@;
        let mut entries = self.entries;
        entries.insert(i, (key, entry));
        let ghost after = entries@;
        proof {
            assert(!binds(before, key)) by {
                if binds(before, key) {
                    let j = index_of(before, key);
                    assert(keys_of(before)[j] == key);
                }
            }
            assert(ascending(keys_of(after))) by {
                assert forall|a: int, b: int| 0 <= a < b < after.len() implies keys_of(after)[a]
                    < keys_of(after)[b] by {
                    let a0 = if a < i { a } else { a - 1 };
                    let b0 = if b < i { b } else { b - 1 };
                    if a != i {
                        assert(keys_of(after)[a] == keys_of(before)[a0]);
                    }
                    if b != i {
                        assert(keys_of(after)[b] == keys_of(before)[b0]);
                    }
                }
            }
            lemma_ascending_no_duplicates(keys_of(after));
            lemma_bindings_map(after);
            assert(bindings_map(after) =~= bindings_map(before).insert(key, entry)) by {
                assert(after[i as int].0 == key);
                assert forall|k: char| bindings_map(before).insert(key, entry).dom().contains(
                    k,
                ) implies #[trigger] bindings_map(after).dom().contains(k) && bindings_map(after)[k]
                    == bindings_map(before).insert(key, entry)[k] by {
                    if k != key {
                        let j = index_of(before, k);
                        let j1 = if j < i { j } else { j + 1 };
                        assert(after[j1] == before[j]);
                        assert(after[j1].0 == k);
                    }
                }
                assert forall|k: char| bindings_map(after).dom().contains(
                    k,
                ) implies #[trigger] bindings_map(before).insert(key, entry).dom().contains(k) by {
                    let j = index_of(after, k);
                    if j != i {
                        let j0 = if j < i { j } else { j - 1 };
                        assert(before[j0] == after[j]);
                        assert(before[j0].0 == k);
                    }
                }
            }
        }
        Ok(ChildMap { entries })
    }
}

} // verus!
