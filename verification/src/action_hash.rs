//! Action hashes and maps that are keyed by them.

use vstd::prelude::*;

verus! {

/// The number of bytes in a hash.
pub const HASH_LEN: usize = 36;

/// The hash of an action: 32 bytes of digest and 4 bytes of location.
#[derive(Clone, Copy, Debug)]
pub struct ActionHash {
    raw: [u8; 36],
}

impl View for ActionHash {
    type V = Seq<u8>;

    closed spec fn view(&self) -> Seq<u8> {
        self.raw@
    }
}

/// `a` and `b` agree before position `i` and differ there.
pub open spec fn first_difference(a: Seq<u8>, b: Seq<u8>, i: int) -> bool {
    &&& 0 <= i < a.len()
    &&& i < b.len()
    &&& a[i] != b[i]
    &&& forall|j: int| 0 <= j < i ==> a[j] == b[j]
}

/// `a` comes before `b` in the lexicographic order of byte strings of one length.
pub open spec fn precedes(a: Seq<u8>, b: Seq<u8>) -> bool {
    exists|i: int| #[trigger] first_difference(a, b, i) && a[i] < b[i]
}

proof fn lemma_precedes_transitive(a: Seq<u8>, b: Seq<u8>, c: Seq<u8>)
    requires
        a.len() == b.len() == c.len(),
        precedes(a, b),
        precedes(b, c),
    ensures
        precedes(a, c),
{
    let i = choose|i: int| #[trigger] first_difference(a, b, i) && a[i] < b[i];
    let j = choose|j: int| #[trigger] first_difference(b, c, j) && b[j] < c[j];
    let k = if i < j {
        i
    } else {
        j
    };
    assert(first_difference(a, c, k));
}

proof fn lemma_precedes_irreflexive(a: Seq<u8>, b: Seq<u8>)
    requires
        precedes(a, b),
    ensures
        a != b,
        !precedes(b, a),
{
    let i = choose|i: int| #[trigger] first_difference(a, b, i) && a[i] < b[i];
    if precedes(b, a) {
        let j = choose|j: int| #[trigger] first_difference(b, a, j) && b[j] < a[j];
        assert(i == j);
    }
}

impl ActionHash {
    /// The hash that consists of the given bytes.
    pub fn from_raw_36(raw: [u8; 36]) -> (hash: ActionHash)
        ensures
            hash@ == raw@,
    {
        ActionHash { raw }
    }

    /// The bytes of the hash.
    pub fn get_raw_36(&self) -> (raw: [u8; 36])
        ensures
            raw@ == self@,
    {
        self.raw
    }

    /// Every hash has the same number of bytes.
    pub proof fn lemma_len(&self)
        ensures
            self@.len() == HASH_LEN,
    {
    }

    /// How this hash stands to another.
    fn relation_to(&self, other: &ActionHash) -> (relation: Relation)
        ensures
            match relation {
                Relation::Before => precedes(self@, other@),
                Relation::Same => self@ == other@,
                Relation::After => precedes(other@, self@),
            },
    {
        let mut i: usize = 0;
        while i < HASH_LEN
            invariant
                i <= HASH_LEN,
                forall|j: int| 0 <= j < i ==> self.raw[j] == other.raw[j],
            decreases HASH_LEN - i,
        {
            let mine: u8 = self.raw[i];
            let theirs: u8 = other.raw[i];
            if mine < theirs {
                assert(first_difference(self@, other@, i as int));
                return Relation::Before;
            }
            if mine > theirs {
                assert(first_difference(other@, self@, i as int));
                return Relation::After;
            }
            i = i + 1;
        }
        assert(self@ =~= other@);
        Relation::Same
    }

    /// Whether two hashes are the same.
    pub fn same_as(&self, other: &ActionHash) -> (same: bool)
        ensures
            same == (self@ == other@),
    {
        match self.relation_to(other) {
            Relation::Same => true,
            Relation::Before => {
                proof {
                    lemma_precedes_irreflexive(self@, other@);
                }
                false
            },
            Relation::After => {
                proof {
                    lemma_precedes_irreflexive(other@, self@);
                }
                false
            },
        }
    }
}

/// How one hash stands to another in the order of hashes.
enum Relation {
    Before,
    Same,
    After,
}

/// A map from action hashes to values, kept in the order of its keys.
#[derive(Clone, Debug)]
pub struct ActionMap<V> {
    entries: Vec<(ActionHash, V)>,
}

impl<V> View for ActionMap<V> {
    type V = Map<Seq<u8>, V>;

    closed spec fn view(&self) -> Map<Seq<u8>, V> {
        entries_map(self.entries@)
    }
}

/// The keys of a list of entries are strictly ascending.
spec fn ascending<V>(entries: Seq<(ActionHash, V)>) -> bool {
    forall|i: int, j: int|
        0 <= i < j < entries.len() ==> precedes(#[trigger] entries[i].0@, #[trigger] entries[j].0@)
}

/// Some entry of a list has the given key.
spec fn has_key<V>(entries: Seq<(ActionHash, V)>, key: Seq<u8>) -> bool {
    exists|i: int| 0 <= i < entries.len() && #[trigger] entries[i].0@ == key
}

/// The position of an entry with the given key.
spec fn position<V>(entries: Seq<(ActionHash, V)>, key: Seq<u8>) -> int {
    choose|i: int| 0 <= i < entries.len() && #[trigger] entries[i].0@ == key
}

/// The map that a list of entries stands for.
spec fn entries_map<V>(entries: Seq<(ActionHash, V)>) -> Map<Seq<u8>, V> {
    Map::new(|key: Seq<u8>| has_key(entries, key), |key: Seq<u8>| entries[position(entries, key)].1)
}

proof fn lemma_entry<V>(entries: Seq<(ActionHash, V)>, i: int)
    requires
        ascending(entries),
        0 <= i < entries.len(),
    ensures
        entries_map(entries).contains_key(entries[i].0@),
        entries_map(entries)[entries[i].0@] == entries[i].1,
        position(entries, entries[i].0@) == i,
{
    let key = entries[i].0@;
    assert(has_key(entries, key));
    let p = position(entries, key);
    assert(0 <= p < entries.len() && entries[p].0@ == key);
    if p < i {
        lemma_precedes_irreflexive(entries[p].0@, entries[i].0@);
    }
    if i < p {
        lemma_precedes_irreflexive(entries[i].0@, entries[p].0@);
    }
}

proof fn lemma_map_is<V>(entries: Seq<(ActionHash, V)>, m: Map<Seq<u8>, V>)
    requires
        ascending(entries),
        forall|i: int|
            0 <= i < entries.len() ==> m.contains_key(#[trigger] entries[i].0@)
                && m[entries[i].0@] == entries[i].1,
        forall|key: Seq<u8>| #[trigger] m.contains_key(key) ==> has_key(entries, key),
    ensures
        entries_map(entries) == m,
{
    assert forall|key: Seq<u8>| entries_map(entries).contains_key(key) == m.contains_key(key) by {
        if has_key(entries, key) {
            assert(m.contains_key(entries[position(entries, key)].0@));
        }
    }
    assert forall|key: Seq<u8>| entries_map(entries).contains_key(key) implies entries_map(
        entries,
    )[key] == m[key] by {
        lemma_entry(entries, position(entries, key));
    }
    assert(entries_map(entries) =~= m);
}

proof fn lemma_set_value<V>(entries: Seq<(ActionHash, V)>, i: int, value: V)
    requires
        ascending(entries),
        0 <= i < entries.len(),
    ensures
        ascending(entries.update(i, (entries[i].0, value))),
        entries_map(entries.update(i, (entries[i].0, value))) == entries_map(entries).insert(
            entries[i].0@,
            value,
        ),
{
    let after = entries.update(i, (entries[i].0, value));
    let m = entries_map(entries).insert(entries[i].0@, value);
    assert forall|j: int| 0 <= j < after.len() implies m.contains_key(#[trigger] after[j].0@)
        && m[after[j].0@] == after[j].1 by {
        lemma_entry(entries, j);
        lemma_entry(entries, i);
    }
    assert forall|k: Seq<u8>| #[trigger] m.contains_key(k) implies has_key(after, k) by {
        if k == entries[i].0@ {
            assert(after[i].0@ == k);
        } else {
            assert(has_key(entries, k));
            assert(after[position(entries, k)].0@ == k);
        }
    }
    lemma_map_is(after, m);
}

proof fn lemma_push<V>(entries: Seq<(ActionHash, V)>, entry: (ActionHash, V))
    requires
        ascending(entries),
        forall|j: int| 0 <= j < entries.len() ==> precedes(#[trigger] entries[j].0@, entry.0@),
    ensures
        ascending(entries.push(entry)),
        entries_map(entries.push(entry)) == entries_map(entries).insert(entry.0@, entry.1),
        !entries_map(entries).contains_key(entry.0@),
{
    let after = entries.push(entry);
    let m = entries_map(entries).insert(entry.0@, entry.1);
    if has_key(entries, entry.0@) {
        lemma_precedes_irreflexive(entries[position(entries, entry.0@)].0@, entry.0@);
    }
    assert forall|j: int| 0 <= j < after.len() implies m.contains_key(#[trigger] after[j].0@)
        && m[after[j].0@] == after[j].1 by {
        if j < entries.len() {
            lemma_entry(entries, j);
        }
    }
    assert forall|k: Seq<u8>| #[trigger] m.contains_key(k) implies has_key(after, k) by {
        if k == entry.0@ {
            assert(after[entries.len() as int].0@ == k);
        } else {
            assert(has_key(entries, k));
            assert(after[position(entries, k)].0@ == k);
        }
    }
    lemma_map_is(after, m);
}

impl<V> ActionMap<V> {
    /// The keys are strictly ascending.
    pub closed spec fn wf(&self) -> bool {
        ascending(self.entries@)
    }

    /// The empty map.
    pub fn new() -> (m: Self)
        ensures
            m.wf(),
            m@ == Map::<Seq<u8>, V>::empty(),
    {
        let m = ActionMap { entries: Vec::new() };
        assert(m@ =~= Map::<Seq<u8>, V>::empty());
        m
    }

    /// Where the entry with the given key is, or where it would have to go.
    fn search(&self, key: &ActionHash) -> (at: (bool, usize))
        requires
            self.wf(),
        ensures
            at.1 <= self.entries.len(),
            at.0 ==> at.1 < self.entries.len() && self.entries[at.1 as int].0@ == key@,
            forall|j: int| 0 <= j < at.1 ==> precedes(#[trigger] self.entries[j].0@, key@),
            !at.0 ==> forall|j: int|
                at.1 <= j < self.entries.len() ==> precedes(key@, #[trigger] self.entries[j].0@),
    {
        let mut lo: usize = 0;
        let mut hi: usize = self.entries.len();
        while lo < hi
            invariant
                lo <= hi <= self.entries.len(),
                ascending(self.entries@),
                forall|j: int| 0 <= j < lo ==> precedes(#[trigger] self.entries[j].0@, key@),
                forall|j: int|
                    hi <= j < self.entries.len() ==> precedes(key@, #[trigger] self.entries[j].0@),
            decreases hi - lo,
        {
            let mid: usize = lo + (hi - lo) / 2;
            let ghost probe = self.entries[mid as int].0@;
            proof {
                self.entries[mid as int].0.lemma_len();
                key.lemma_len();
            }
            match self.entries[mid].0.relation_to(key) {
                Relation::Same => {
                    return (true, mid);
                },
                Relation::Before => {
                    assert forall|j: int| 0 <= j < mid + 1 implies precedes(
                        #[trigger] self.entries[j].0@,
                        key@,
                    ) by {
                        if j < mid {
                            self.entries[j].0.lemma_len();
                            lemma_precedes_transitive(self.entries[j].0@, probe, key@);
                        }
                    }
                    lo = mid + 1;
                },
                Relation::After => {
                    assert forall|j: int| mid <= j < self.entries.len() implies precedes(
                        key@,
                        #[trigger] self.entries[j].0@,
                    ) by {
                        if mid < j {
                            self.entries[j].0.lemma_len();
                            lemma_precedes_transitive(key@, probe, self.entries[j].0@);
                        }
                    }
                    hi = mid;
                },
            }
        }
        (false, lo)
    }

    proof fn lemma_absent(&self, key: Seq<u8>, at: int)
        requires
            self.wf(),
            0 <= at <= self.entries.len(),
            forall|j: int| 0 <= j < at ==> precedes(#[trigger] self.entries[j].0@, key),
            forall|j: int|
                at <= j < self.entries.len() ==> precedes(key, #[trigger] self.entries[j].0@),
        ensures
            !self@.contains_key(key),
    {
        if has_key(self.entries@, key) {
            let p = position(self.entries@, key);
            if p < at {
                lemma_precedes_irreflexive(self.entries[p].0@, key);
            } else {
                lemma_precedes_irreflexive(key, self.entries[p].0@);
            }
        }
    }

    /// Whether there is an entry with the given key.
    pub fn contains(&self, key: &ActionHash) -> (found: bool)
        requires
            self.wf(),
        ensures
            found == self@.contains_key(key@),
    {
        let at: (bool, usize) = self.search(key);
        proof {
            if at.0 {
                lemma_entry(self.entries@, at.1 as int);
            } else {
                self.lemma_absent(key@, at.1 as int);
            }
        }
        at.0
    }

    /// The value of the given key.
    pub fn get(&self, key: &ActionHash) -> (value: Option<&V>)
        requires
            self.wf(),
        ensures
            match value {
                Some(v) => self@.contains_key(key@) && *v == self@[key@],
                None => !self@.contains_key(key@),
            },
    {
        let at: (bool, usize) = self.search(key);
        if at.0 {
            proof {
                lemma_entry(self.entries@, at.1 as int);
            }
            Some(&self.entries[at.1].1)
        } else {
            proof {
                self.lemma_absent(key@, at.1 as int);
            }
            None
        }
    }

    /// The value of the given key, for modification.
    pub fn get_mut(&mut self, key: &ActionHash) -> (value: Option<&mut V>)
        requires
            old(self).wf(),
        ensures
            final(self).wf(),
            match value {
                Some(v) => {
                    &&& old(self)@.contains_key(key@)
                    &&& *v == old(self)@[key@]
                    &&& final(self)@ == old(self)@.insert(key@, *final(v))
                },
                None => !old(self)@.contains_key(key@) && final(self)@ == old(self)@,
            },
    {
        let at: (bool, usize) = self.search(key);
        if at.0 {
            let ghost before = self.entries@;
            proof {
                lemma_entry(before, at.1 as int);
            }
            let value = &mut self.entries[at.1].1;
            proof {
                lemma_set_value(before, at.1 as int, *final(value));
            }
            Some(value)
        } else {
            proof {
                self.lemma_absent(key@, at.1 as int);
            }
            None
        }
    }

    /// Make the given value the value of the given key.
    pub fn insert(&mut self, key: ActionHash, value: V)
        requires
            old(self).wf(),
        ensures
            final(self).wf(),
            final(self)@ == old(self)@.insert(key@, value),
    {
        let at: (bool, usize) = self.search(&key);
        let ghost before = self.entries@;
        if at.0 {
            self.entries.set(at.1, (key, value));
        } else {
            self.entries.insert(at.1, (key, value));
        }
        proof {
            let after = self.entries@;
            let m = entries_map(before).insert(key@, value);
            let i = at.1 as int;
            if !at.0 {
                assert(ascending(after)) by {
                    assert forall|j: int, k: int| 0 <= j < k < after.len() implies precedes(
                        #[trigger] after[j].0@,
                        #[trigger] after[k].0@,
                    ) by {
                        if j < i && k > i {
                            assert(after[k] == before[k - 1]);
                        } else if j >= i && k > i + 1 && j > i {
                            assert(after[j] == before[j - 1]);
                            assert(after[k] == before[k - 1]);
                        } else if j == i {
                            assert(after[k] == before[k - 1]);
                        }
                    }
                }
            }
            assert forall|j: int| 0 <= j < after.len() implies m.contains_key(
                #[trigger] after[j].0@,
            ) && m[after[j].0@] == after[j].1 by {
                if j < i {
                    lemma_precedes_irreflexive(after[j].0@, key@);
                    lemma_entry(before, j);
                } else if j > i {
                    lemma_precedes_irreflexive(after[i].0@, after[j].0@);
                    if at.0 {
                        lemma_entry(before, j);
                    } else {
                        assert(after[j] == before[j - 1]);
                        lemma_entry(before, j - 1);
                    }
                }
            }
            assert forall|k: Seq<u8>| #[trigger] m.contains_key(k) implies has_key(after, k) by {
                if k == key@ {
                    assert(after[i].0@ == k);
                } else {
                    let p = position(before, k);
                    assert(has_key(before, k));
                    if at.0 || p < i {
                        assert(after[p].0@ == k);
                    } else {
                        assert(after[p + 1].0@ == k);
                    }
                }
            }
            lemma_map_is(after, m);
        }
    }

    /// The keys, in the order in which the map holds them.
    pub closed spec fn keys(&self) -> Seq<Seq<u8>> {
        Seq::new(self.entries@.len(), |i: int| self.entries[i].0@)
    }

    /// The list of the keys names each key of the map once, and nothing else.
    pub proof fn lemma_keys(&self)
        requires
            self.wf(),
        ensures
            self.keys().no_duplicates(),
            self.keys().to_set() == self@.dom(),
            self@.dom().finite(),
            self@.dom().len() == self.keys().len(),
    {
        let keys = self.keys();
        assert(keys.no_duplicates()) by {
            assert forall|i: int, j: int|
                0 <= i < keys.len() && 0 <= j < keys.len() && i != j implies keys[i] != keys[j] by {
                lemma_entry(self.entries@, i);
                lemma_entry(self.entries@, j);
            }
        }
        assert(keys.to_set() =~= self@.dom()) by {
            assert forall|k: Seq<u8>| keys.to_set().contains(k) == self@.dom().contains(k) by {
                if has_key(self.entries@, k) {
                    assert(keys[position(self.entries@, k)] == k);
                }
                if keys.contains(k) {
                    let i = choose|i: int| 0 <= i < keys.len() && keys[i] == k;
                    assert(self.entries[i].0@ == k);
                }
            }
        }
        keys.unique_seq_to_set();
    }

    /// The number of entries.
    pub fn len(&self) -> (n: usize)
        ensures
            n == self.keys().len(),
    {
        self.entries.len()
    }

    /// The `i`-th entry in the order of the keys.
    pub fn entry(&self, i: usize) -> (entry: (&ActionHash, &V))
        requires
            self.wf(),
            i < self.keys().len(),
        ensures
            entry.0@ == self.keys()[i as int],
            self@.contains_key(entry.0@),
            *entry.1 == self@[entry.0@],
    {
        proof {
            lemma_entry(self.entries@, i as int);
        }
        let e = &self.entries[i];
        (&e.0, &e.1)
    }

    /// Take the entry with the last key out of the map.
    pub fn pop_last(&mut self) -> (entry: Option<(ActionHash, V)>)
        requires
            old(self).wf(),
        ensures
            final(self).wf(),
            match entry {
                Some((key, value)) => {
                    &&& old(self)@.contains_key(key@)
                    &&& value == old(self)@[key@]
                    &&& final(self)@ == old(self)@.remove(key@)
                    &&& final(self).keys().len() < old(self).keys().len()
                },
                None => old(self)@ == Map::<Seq<u8>, V>::empty() && final(self)@ == old(self)@,
            },
    {
        let ghost before = self.entries@;
        let entry = self.entries.pop();
        proof {
            if entry is Some {
                let e = entry->0;
                assert(before == self.entries@.push(e));
                assert forall|j: int| 0 <= j < self.entries@.len() implies precedes(
                    #[trigger] self.entries[j].0@,
                    e.0@,
                ) by {
                    assert(before[j] == self.entries[j]);
                    assert(before[before.len() - 1] == e);
                }
                lemma_push(self.entries@, e);
                assert(self@ =~= entries_map(before).remove(e.0@));
            } else {
                assert(entries_map(before) =~= Map::<Seq<u8>, V>::empty());
            }
        }
        entry
    }

    /// Remove every entry whose key is not a key of `kept`.
    pub fn retain_keys_of<W>(&mut self, kept: &ActionMap<W>)
        requires
            old(self).wf(),
            kept.wf(),
        ensures
            final(self).wf(),
            final(self)@ == old(self)@.restrict(kept@.dom()),
    {
        let mut all: Vec<(ActionHash, V)> = Vec::new();
        std::mem::swap(&mut all, &mut self.entries);
        let ghost before = all@;
        let mut left: Vec<(ActionHash, V)> = Vec::new();
        assert(entries_map(left@) =~= entries_map(before.take(0)).restrict(kept@.dom()));
        for entry in it: all
            invariant
                it.seq() == before,
                ascending(before),
                kept.wf(),
                ascending(left@),
                forall|j: int, k: int|
                    0 <= j < left.len() && it.index() <= k < before.len() ==> precedes(
                        #[trigger] left[j].0@,
                        #[trigger] before[k].0@,
                    ),
                entries_map(left@) == entries_map(before.take(it.index())).restrict(kept@.dom()),
        {
            let ghost i = it.index();
            proof {
                assert(entry == before[i]);
                assert(before.take(i + 1) == before.take(i).push(entry));
                lemma_push(before.take(i), entry);
            }
            if kept.contains(&entry.0) {
                proof {
                    lemma_push(left@, entry);
                    assert(entries_map(left@.push(entry)) =~= entries_map(before.take(i + 1)).restrict(
                        kept@.dom(),
                    ));
                }
                left.push(entry);
            } else {
                assert(entries_map(left@) =~= entries_map(before.take(i + 1)).restrict(
                    kept@.dom(),
                ));
            }
        }
        assert(before.take(before.len() as int) == before);
        self.entries = left;
    }
}

} // verus!
