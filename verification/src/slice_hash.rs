//! The hashes of arc slices.
//!
//! Gossip hashes contiguous slices of an arc and stores the hash of each slice, by the arc and the
//! index of the slice. A slice that is stored again gets the new hash. Storing the hash that is
//! stored already is not a write at all.

use vstd::prelude::*;

verus! {

/// The key of a row: an arc, and the index of a slice in it. The columns are signed.
#[derive(Clone, Copy, Debug, PartialEq, Eq, Structural)]
pub struct SliceKey {
    /// Where the arc starts.
    pub arc_start: i64,
    /// Where the arc ends.
    pub arc_end: i64,
    /// The index of the slice.
    pub slice_index: i64,
}

/// The hash of one slice of an arc.
#[derive(Debug)]
pub struct SliceHashIndexedRow {
    /// The index of the slice.
    pub slice_index: i64,
    /// The hash.
    pub hash: Vec<u8>,
}

/// A slice index in a signed column: the upper half of the range wraps around to negative numbers.
pub open spec fn column(slice_index: u64) -> i64 {
    if slice_index <= i64::MAX {
        slice_index as i64
    } else {
        (slice_index - 0x1_0000_0000_0000_0000) as i64
    }
}

/// The key of a slice.
pub open spec fn key_of(arc_start: u32, arc_end: u32, slice_index: u64) -> SliceKey {
    SliceKey {
        arc_start: arc_start as i64,
        arc_end: arc_end as i64,
        slice_index: column(slice_index),
    }
}

/// The key of the row in which the hash of a slice is stored.
pub fn slice_key(arc_start: u32, arc_end: u32, slice_index: u64) -> (key: SliceKey)
    ensures
        key == key_of(arc_start, arc_end, slice_index),
{
    let index: i64 = if slice_index <= i64::MAX as u64 {
        slice_index as i64
    } else {
        (slice_index - 0x8000_0000_0000_0000) as i64 + i64::MIN
    };
    SliceKey { arc_start: arc_start as i64, arc_end: arc_end as i64, slice_index: index }
}

/// The slice index that a value of the signed column stands for.
pub open spec fn index_of(column: i64) -> u64 {
    if column >= 0 {
        column as u64
    } else {
        (column + 0x1_0000_0000_0000_0000) as u64
    }
}

/// The slice index that a value of the signed column stands for.
pub fn slice_index_of(column: i64) -> (slice_index: u64)
    ensures
        slice_index == index_of(column),
{
    if column >= 0 {
        column as u64
    } else {
        (column - i64::MIN) as u64 + 0x8000_0000_0000_0000
    }
}

/// The highest slice index of an arc, given the largest value of the signed index column in the rows
/// of the arc and the largest among the negative ones, as far as there are any.
///
/// A negative value stands for an index in the upper half of the range, so it ranks above every
/// value that is not negative.
pub fn highest_slice_index(max: Option<i64>, max_negative: Option<i64>) -> (highest: Option<u64>)
    ensures
        highest == highest_from_maxima(max, max_negative),
{
    match max_negative {
        Some(m) => Some(slice_index_of(m)),
        None => match max {
            Some(m) => Some(slice_index_of(m)),
            None => None,
        },
    }
}

/// The slice index of the largest negative value of the signed index column, or if no value is
/// negative, of the largest value.
pub open spec fn highest_from_maxima(max: Option<i64>, max_negative: Option<i64>) -> Option<u64> {
    match (max_negative, max) {
        (Some(m), _) => Some(index_of(m)),
        (None, Some(m)) => Some(index_of(m)),
        (None, None) => None,
    }
}

/// The number of slices of an arc, given the highest index that is stored for it, if any.
pub open spec fn count(highest: Option<u64>) -> nat {
    match highest {
        Some(index) => (index + 1) as nat,
        None => 0,
    }
}

/// The number of slices of an arc, given the highest index that is stored for it, if any.
///
/// Slice indices are assigned consecutively from zero, so the number is the highest index plus one.
/// An arc without slices is told apart from one with a slice at index zero.
pub fn count_from_highest_index(highest: Option<u64>) -> (n: u64)
    requires
        highest != Some(u64::MAX),
    ensures
        n == count(highest),
{
    match highest {
        Some(index) => index + 1,
        None => 0,
    }
}

/// Whether two byte strings are the same.
fn same_bytes(a: &[u8], b: &[u8]) -> (same: bool)
    ensures
        same == (a@ == b@),
{
    if a.len() != b.len() {
        return false;
    }
    let mut i: usize = 0;
    while i < a.len()
        invariant
            i <= a.len(),
            a.len() == b.len(),
            forall|j: int| 0 <= j < i ==> a@[j] == b@[j],
        decreases a.len() - i,
    {
        if a[i] != b[i] {
            return false;
        }
        i = i + 1;
    }
    assert(a@ =~= b@);
    true
}

/// A copy of a byte string.
fn copy_bytes(bytes: &[u8]) -> (copy: Vec<u8>)
    ensures
        copy@ == bytes@,
{
    let mut copy: Vec<u8> = Vec::new();
    let mut i: usize = 0;
    while i < bytes.len()
        invariant
            i <= bytes.len(),
            copy@ == bytes@.take(i as int),
        decreases bytes.len() - i,
    {
        copy.push(bytes[i]);
        i = i + 1;
        assert(bytes@.take(i as int) =~= bytes@.take(i - 1).push(bytes@[i - 1]));
    }
    assert(bytes@.take(bytes@.len() as int) =~= bytes@);
    copy
}

/// Whether a hash has to be written, given the hash that is stored for the slice, if any: it has to
/// unless the two are the same, byte for byte.
pub fn needs_write(stored: Option<&Vec<u8>>, hash: &[u8]) -> (needed: bool)
    ensures
        needed == !(stored matches Some(s) && s@ == hash@),
{
    match stored {
        Some(s) => !same_bytes(s.as_slice(), hash),
        None => true,
    }
}

/// The rows of a table, by their keys.
pub type SliceHashes = Map<SliceKey, Seq<u8>>;

/// `highest` is the highest slice index that is stored for an arc, if any is.
pub open spec fn highest_index(
    rows: SliceHashes,
    arc_start: u32,
    arc_end: u32,
    highest: Option<u64>,
) -> bool {
    match highest {
        Some(index) => {
            &&& rows.contains_key(key_of(arc_start, arc_end, index))
            &&& forall|i: u64| #[trigger]
                rows.contains_key(key_of(arc_start, arc_end, i)) ==> i <= index
        },
        None => is_bare(rows, arc_start, arc_end),
    }
}

/// No slice is stored for an arc.
pub open spec fn is_bare(rows: SliceHashes, arc_start: u32, arc_end: u32) -> bool {
    forall|i: u64| !#[trigger] rows.contains_key(key_of(arc_start, arc_end, i))
}

/// The signed index column holds `value` in a row of an arc.
pub open spec fn has_column(rows: SliceHashes, arc_start: u32, arc_end: u32, value: i64) -> bool {
    rows.contains_key(
        SliceKey { arc_start: arc_start as i64, arc_end: arc_end as i64, slice_index: value },
    )
}

/// `max` is the largest value of the signed index column in the rows of an arc, or among the negative
/// ones only, if there is any.
pub open spec fn max_column(
    rows: SliceHashes,
    arc_start: u32,
    arc_end: u32,
    only_negative: bool,
    max: Option<i64>,
) -> bool {
    &&& max matches Some(m) ==> has_column(rows, arc_start, arc_end, m) && (only_negative ==> m < 0)
    &&& forall|value: i64| #[trigger]
        has_column(rows, arc_start, arc_end, value) && (only_negative ==> value < 0) ==> (
        max matches Some(m) && value <= m)
}

/// The highest slice index of an arc is found from the largest value of the signed index column and
/// the largest negative one.
pub proof fn lemma_highest_from_maxima(
    rows: SliceHashes,
    arc_start: u32,
    arc_end: u32,
    max: Option<i64>,
    max_negative: Option<i64>,
)
    requires
        max_column(rows, arc_start, arc_end, false, max),
        max_column(rows, arc_start, arc_end, true, max_negative),
    ensures
        highest_index(rows, arc_start, arc_end, highest_from_maxima(max, max_negative)),
{
    assert forall|value: i64| #[trigger] has_column(rows, arc_start, arc_end, value) implies
        rows.contains_key(key_of(arc_start, arc_end, index_of(value))) by {
        assert(column(index_of(value)) == value);
    }
    assert forall|i: u64| #[trigger] rows.contains_key(key_of(arc_start, arc_end, i)) implies (
    highest_from_maxima(max, max_negative) matches Some(index) && i <= index) by {
        assert(has_column(rows, arc_start, arc_end, column(i)));
    }
}

/// Every slice that is stored for an arc is listed, by its column.
pub open spec fn lists_every_slice(
    found: Seq<SliceHashIndexedRow>,
    rows: SliceHashes,
    arc_start: u32,
    arc_end: u32,
) -> bool {
    forall|i: u64| #[trigger]
        rows.contains_key(key_of(arc_start, arc_end, i)) ==> exists|k: int|
            0 <= k < found.len() && (#[trigger] found[k]).slice_index == column(i)
}

/// A row of the table.
#[derive(Debug)]
struct SliceHashRow {
    key: SliceKey,
    hash: Vec<u8>,
}

/// The table of slice hashes, in memory.
///
/// Keys, writes and counts are decided by [`slice_key`], [`needs_write`], [`highest_slice_index`] and
/// [`count_from_highest_index`], as they are for a table that is kept in a database.
#[derive(Debug)]
pub struct SliceHashTable {
    rows: Vec<SliceHashRow>,
}

/// No two rows have the same key.
spec fn distinct(rows: Seq<SliceHashRow>) -> bool {
    forall|i: int, j: int|
        0 <= i < j < rows.len() ==> (#[trigger] rows[i]).key != (#[trigger] rows[j]).key
}

/// Some row has this key.
spec fn has_row(rows: Seq<SliceHashRow>, key: SliceKey) -> bool {
    exists|i: int| 0 <= i < rows.len() && (#[trigger] rows[i]).key == key
}

/// The position of a row with this key.
spec fn row_of(rows: Seq<SliceHashRow>, key: SliceKey) -> int {
    choose|i: int| 0 <= i < rows.len() && (#[trigger] rows[i]).key == key
}

impl View for SliceHashTable {
    type V = SliceHashes;

    closed spec fn view(&self) -> SliceHashes {
        Map::new(
            |key: SliceKey| has_row(self.rows@, key),
            |key: SliceKey| self.rows[row_of(self.rows@, key)].hash@,
        )
    }
}

impl SliceHashTable {
    /// No two rows have the same key.
    pub closed spec fn wf(&self) -> bool {
        distinct(self.rows@)
    }

    proof fn lemma_row(&self, i: int)
        requires
            self.wf(),
            0 <= i < self.rows.len(),
        ensures
            self@.contains_key(self.rows[i].key),
            self@[self.rows[i].key] == self.rows[i].hash@,
            row_of(self.rows@, self.rows[i].key) == i,
    {
        assert(has_row(self.rows@, self.rows[i].key));
        let p = row_of(self.rows@, self.rows[i].key);
        assert(0 <= p < self.rows.len() && self.rows[p].key == self.rows[i].key);
    }

    /// A table has finitely many rows.
    pub proof fn lemma_wf(&self)
        requires
            self.wf(),
        ensures
            self@.dom().finite(),
    {
        let keys = Seq::new(self.rows@.len(), |i: int| self.rows[i].key);
        assert(self@.dom() =~= keys.to_set()) by {
            assert forall|key: SliceKey| has_row(self.rows@, key) implies keys.contains(key) by {
                assert(keys[row_of(self.rows@, key)] == key);
            }
            assert forall|key: SliceKey| keys.contains(key) implies has_row(self.rows@, key) by {
                let i = choose|i: int| 0 <= i < keys.len() && keys[i] == key;
                assert(self.rows[i].key == key);
            }
        }
        vstd::seq_lib::seq_to_set_is_finite(keys);
    }

    /// The empty table.
    pub fn new() -> (table: Self)
        ensures
            table.wf(),
            table@ == SliceHashes::empty(),
    {
        let table = SliceHashTable { rows: Vec::new() };
        assert(table@ =~= SliceHashes::empty());
        table
    }

    /// The position of the row with this key.
    fn find(&self, key: SliceKey) -> (at: Option<usize>)
        requires
            self.wf(),
        ensures
            match at {
                Some(i) => i < self.rows.len() && self.rows[i as int].key == key
                    && self@.contains_key(key) && self@[key] == self.rows[i as int].hash@,
                None => !self@.contains_key(key),
            },
    {
        let mut i: usize = 0;
        while i < self.rows.len()
            invariant
                i <= self.rows.len(),
                self.wf(),
                forall|j: int| 0 <= j < i ==> (#[trigger] self.rows[j]).key != key,
            decreases self.rows.len() - i,
        {
            if self.rows[i].key == key {
                proof {
                    self.lemma_row(i as int);
                }
                return Some(i);
            }
            i = i + 1;
        }
        None
    }

    /// Store the hash of a slice, in place of the one that is stored for it, if any.
    ///
    /// Returns whether anything was written: nothing is if the same hash is stored already.
    pub fn insert_slice_hash(
        &mut self,
        arc_start: u32,
        arc_end: u32,
        slice_index: u64,
        hash: &[u8],
    ) -> (written: bool)
        requires
            old(self).wf(),
        ensures
            final(self).wf(),
            final(self)@ == old(self)@.insert(key_of(arc_start, arc_end, slice_index), hash@),
            written == !(old(self)@.contains_key(key_of(arc_start, arc_end, slice_index))
                && old(self)@[key_of(arc_start, arc_end, slice_index)] == hash@),
            !written ==> *final(self) == *old(self),
    {
        let key: SliceKey = slice_key(arc_start, arc_end, slice_index);
        let ghost before = *self;
        match self.find(key) {
            Some(i) => {
                if !needs_write(Some(&self.rows[i].hash), hash) {
                    assert(self@.insert(key, hash@) =~= self@);
                    return false;
                }
                let row = SliceHashRow { key, hash: copy_bytes(hash) };
                self.rows.set(i, row);
                proof {
                    let p = i as int;
                    assert forall|k: SliceKey| self@.contains_key(k) == before@.contains_key(k) by {
                        if has_row(before.rows@, k) {
                            assert(self.rows[row_of(before.rows@, k)].key == k);
                        }
                        if has_row(self.rows@, k) {
                            assert(before.rows[row_of(self.rows@, k)].key == k);
                        }
                    }
                    assert forall|k: SliceKey| self@.contains_key(k) implies self@[k] == before@.insert(
                        key,
                        hash@,
                    )[k] by {
                        let q = row_of(self.rows@, k);
                        self.lemma_row(q);
                        before.lemma_row(q);
                    }
                    assert(self@ =~= before@.insert(key, hash@));
                }
            },
            None => {
                let row = SliceHashRow { key, hash: copy_bytes(hash) };
                self.rows.push(row);
                proof {
                    let last = self.rows.len() - 1;
                    assert forall|j: int| 0 <= j < last implies (#[trigger] self.rows[j]).key
                        != key by {
                        before.lemma_row(j);
                        assert(before.rows[j] == self.rows[j]);
                    }
                    assert forall|k: SliceKey|
                        self@.contains_key(k) == before@.insert(key, hash@).contains_key(k) by {
                        if has_row(before.rows@, k) {
                            assert(self.rows[row_of(before.rows@, k)].key == k);
                        }
                        if k == key {
                            assert(self.rows[last].key == k);
                        }
                        if has_row(self.rows@, k) && k != key {
                            assert(before.rows[row_of(self.rows@, k)].key == k);
                        }
                    }
                    assert forall|k: SliceKey| self@.contains_key(k) implies self@[k] == before@.insert(
                        key,
                        hash@,
                    )[k] by {
                        let q = row_of(self.rows@, k);
                        self.lemma_row(q);
                        if q < last {
                            assert(before.rows[q] == self.rows[q]);
                            before.lemma_row(q);
                        }
                    }
                    assert(self@ =~= before@.insert(key, hash@));
                }
            },
        }
        true
    }

    /// The hash that is stored for a slice, if any.
    pub fn get_slice_hash(&self, arc_start: u32, arc_end: u32, slice_index: u64) -> (hash: Option<
        Vec<u8>,
    >)
        requires
            self.wf(),
        ensures
            match hash {
                Some(h) => self@.contains_key(key_of(arc_start, arc_end, slice_index)) && h@
                    == self@[key_of(arc_start, arc_end, slice_index)],
                None => !self@.contains_key(key_of(arc_start, arc_end, slice_index)),
            },
    {
        match self.find(slice_key(arc_start, arc_end, slice_index)) {
            Some(i) => Some(copy_bytes(self.rows[i].hash.as_slice())),
            None => None,
        }
    }

    /// The largest value of the signed index column in the rows of an arc, or among the negative ones
    /// only, if there is any.
    fn max_of_column(&self, arc_start: u32, arc_end: u32, only_negative: bool) -> (max: Option<i64>)
        requires
            self.wf(),
        ensures
            max_column(self@, arc_start, arc_end, only_negative, max),
    {
        let start: i64 = arc_start as i64;
        let end: i64 = arc_end as i64;
        let mut max: Option<i64> = None;
        let mut i: usize = 0;
        while i < self.rows.len()
            invariant
                i <= self.rows.len(),
                self.wf(),
                start == arc_start,
                end == arc_end,
                forall|j: int|
                    0 <= j < i && (#[trigger] self.rows[j]).key.arc_start == start
                        && self.rows[j].key.arc_end == end && (only_negative
                        ==> self.rows[j].key.slice_index < 0) ==> (max matches Some(m)
                        && self.rows[j].key.slice_index <= m),
                max matches Some(m) ==> has_column(self@, arc_start, arc_end, m) && (only_negative
                    ==> m < 0),
            decreases self.rows.len() - i,
        {
            let key: SliceKey = self.rows[i].key;
            proof {
                self.lemma_row(i as int);
            }
            if key.arc_start == start && key.arc_end == end && (!only_negative || key.slice_index
                < 0) {
                match max {
                    Some(m) => {
                        if key.slice_index > m {
                            max = Some(key.slice_index);
                        }
                    },
                    None => {
                        max = Some(key.slice_index);
                    },
                }
            }
            i = i + 1;
        }
        assert forall|value: i64| #[trigger]
            has_column(self@, arc_start, arc_end, value) && (only_negative ==> value < 0) implies (
        max matches Some(m) && value <= m) by {
            let key = SliceKey {
                arc_start: arc_start as i64,
                arc_end: arc_end as i64,
                slice_index: value,
            };
            let p = row_of(self.rows@, key);
            assert(has_row(self.rows@, key));
            assert(self.rows[p].key == key);
        }
        max
    }

    /// The number of slices of an arc, or zero if none is stored. The last index of all is left out:
    /// with it, the number would be too large to be represented.
    pub fn slice_hash_count(&self, arc_start: u32, arc_end: u32) -> (n: u64)
        requires
            self.wf(),
            !self@.contains_key(key_of(arc_start, arc_end, u64::MAX)),
        ensures
            exists|highest: Option<u64>|
                #[trigger] highest_index(self@, arc_start, arc_end, highest) && n == count(highest),
    {
        let max: Option<i64> = self.max_of_column(arc_start, arc_end, false);
        let max_negative: Option<i64> = self.max_of_column(arc_start, arc_end, true);
        proof {
            lemma_highest_from_maxima(self@, arc_start, arc_end, max, max_negative);
        }
        count_from_highest_index(highest_slice_index(max, max_negative))
    }

    /// Every slice that is stored for an arc, each once, with its hash, in no particular order.
    pub fn get_slice_hashes(&self, arc_start: u32, arc_end: u32) -> (found: Vec<SliceHashIndexedRow>)
        requires
            self.wf(),
        ensures
            forall|i: int|
                0 <= i < found.len() ==> self@.contains_key(
                    SliceKey {
                        arc_start: arc_start as i64,
                        arc_end: arc_end as i64,
                        slice_index: (#[trigger] found[i]).slice_index,
                    },
                ) && found[i].hash@ == self@[SliceKey {
                    arc_start: arc_start as i64,
                    arc_end: arc_end as i64,
                    slice_index: found[i].slice_index,
                }],
            forall|k: i64| #[trigger]
                self@.contains_key(
                    SliceKey { arc_start: arc_start as i64, arc_end: arc_end as i64, slice_index: k },
                ) ==> exists|i: int| 0 <= i < found.len() && (#[trigger] found[i]).slice_index == k,
            forall|i: int, j: int|
                0 <= i < j < found.len() ==> (#[trigger] found[i]).slice_index != (
                #[trigger] found[j]).slice_index,
            lists_every_slice(found@, self@, arc_start, arc_end),
    {
        let start: i64 = arc_start as i64;
        let end: i64 = arc_end as i64;
        let mut found: Vec<SliceHashIndexedRow> = Vec::new();
        let mut i: usize = 0;
        while i < self.rows.len()
            invariant
                i <= self.rows.len(),
                self.wf(),
                start == arc_start,
                end == arc_end,
                forall|j: int|
                    0 <= j < found.len() ==> self@.contains_key(
                        SliceKey {
                            arc_start: start,
                            arc_end: end,
                            slice_index: (#[trigger] found[j]).slice_index,
                        },
                    ) && found[j].hash@ == self@[SliceKey {
                        arc_start: start,
                        arc_end: end,
                        slice_index: found[j].slice_index,
                    }] && row_of(
                        self.rows@,
                        SliceKey {
                            arc_start: start,
                            arc_end: end,
                            slice_index: found[j].slice_index,
                        },
                    ) < i,
                forall|j: int|
                    0 <= j < i && (#[trigger] self.rows[j]).key.arc_start == start
                        && self.rows[j].key.arc_end == end ==> exists|k: int|
                        0 <= k < found.len() && (#[trigger] found[k]).slice_index
                            == self.rows[j].key.slice_index,
                forall|j: int, k: int|
                    0 <= j < k < found.len() ==> (#[trigger] found[j]).slice_index != (
                    #[trigger] found[k]).slice_index,
            decreases self.rows.len() - i,
        {
            let ghost before = found@;
            let key: SliceKey = self.rows[i].key;
            proof {
                self.lemma_row(i as int);
            }
            if key.arc_start == start && key.arc_end == end {
                found.push(
                    SliceHashIndexedRow {
                        slice_index: key.slice_index,
                        hash: copy_bytes(self.rows[i].hash.as_slice()),
                    },
                );
                assert(key == SliceKey {
                    arc_start: start,
                    arc_end: end,
                    slice_index: key.slice_index,
                });
            }
            proof {
                assert forall|j: int|
                    0 <= j < i + 1 && (#[trigger] self.rows[j]).key.arc_start == start
                        && self.rows[j].key.arc_end == end implies exists|k: int|
                    0 <= k < found.len() && (#[trigger] found[k]).slice_index
                        == self.rows[j].key.slice_index by {
                    if j < i {
                        let k = choose|k: int|
                            0 <= k < before.len() && (#[trigger] before[k]).slice_index
                                == self.rows[j].key.slice_index;
                        assert(found[k] == before[k]);
                    } else {
                        assert(found[found.len() - 1].slice_index == key.slice_index);
                    }
                }
            }
            i = i + 1;
        }
        assert forall|k: i64| #[trigger]
            self@.contains_key(
                SliceKey { arc_start: arc_start as i64, arc_end: arc_end as i64, slice_index: k },
            ) implies exists|j: int|
            0 <= j < found.len() && (#[trigger] found[j]).slice_index == k by {
            let key = SliceKey {
                arc_start: arc_start as i64,
                arc_end: arc_end as i64,
                slice_index: k,
            };
            assert(has_row(self.rows@, key));
            let p = row_of(self.rows@, key);
            assert(self.rows[p].key == key);
        }
        found
    }
}

} // verus!
