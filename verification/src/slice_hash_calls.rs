//! What the calls on slice hashes do, and how such calls relate.
//!
//! Each law speaks of calls by what was handed to them and what came back.

use crate::slice_hash::{
    count_from_highest_index, highest_slice_index, key_of, needs_write, slice_index_of, slice_key,
    SliceHashIndexedRow, SliceHashTable, SliceHashes, SliceKey,
};
use vstd::prelude::*;

verus! {

/// The arc is stored as it is. A slice index is stored as it is if it fits the signed column, and
/// less two to the 64th otherwise; either way it is read back.
pub proof fn law_slice_indices_are_read_back(
    arc_start: u32,
    arc_end: u32,
    slice_index: u64,
    key: SliceKey,
    read: u64,
)
    requires
        call_ensures(slice_key, (arc_start, arc_end, slice_index), key),
        call_ensures(slice_index_of, (key.slice_index,), read),
    ensures
        key.arc_start == arc_start,
        key.arc_end == arc_end,
        read == slice_index,
        slice_index < 0x8000_0000_0000_0000 ==> key.slice_index == slice_index,
        slice_index >= 0x8000_0000_0000_0000 ==> key.slice_index == slice_index
            - 0x1_0000_0000_0000_0000,
{
}

/// A hash has to be written unless the stored one has the same bytes.
pub proof fn law_only_the_same_bytes_are_not_written(
    stored: Vec<u8>,
    hash: &[u8],
    first: bool,
    again: bool,
)
    requires
        call_ensures(needs_write, (None::<&Vec<u8>>, hash), first),
        call_ensures(needs_write, (Some(&stored), hash), again),
    ensures
        first,
        !again <==> stored.len() == hash@.len() && forall|i: int|
            0 <= i < hash@.len() ==> stored[i] == #[trigger] hash@[i],
{
    if stored.len() == hash@.len() && forall|i: int|
        0 <= i < hash@.len() ==> stored[i] == #[trigger] hash@[i] {
        assert(stored@ =~= hash@);
    }
}

/// Of the largest value of the signed column and the largest negative one, the negative one decides
/// the highest index, if there is one; the count is that index plus one, and zero without any.
pub proof fn law_negative_columns_rank_highest(
    max: Option<i64>,
    max_negative: Option<i64>,
    highest: Option<u64>,
    n: u64,
)
    requires
        max_negative matches Some(m) ==> m < 0,
        max_negative is Some ==> max is Some,
        max_negative is None ==> (max matches Some(m) ==> m >= 0),
        call_ensures(highest_slice_index, (max, max_negative), highest),
        call_ensures(count_from_highest_index, (highest,), n),
    ensures
        max is None ==> n == 0,
        max_negative matches Some(m) ==> n == m + 0x1_0000_0000_0000_0000 + 1,
        max_negative is None ==> (max matches Some(m) ==> n == m + 1),
{
}

/// A hash that is stored is read back, whatever was stored before; what is stored for every other
/// slice stays as it was. Whether something was written tells whether the stored hash is another now.
pub proof fn law_a_read_gives_back_the_last_write(
    table: &mut SliceHashTable,
    arc_start: u32,
    arc_end: u32,
    slice_index: u64,
    hash: &[u8],
    written: bool,
    other_start: u32,
    other_end: u32,
    other_index: u64,
    before: Option<Vec<u8>>,
    after: Option<Vec<u8>>,
    other_before: Option<Vec<u8>>,
    other_after: Option<Vec<u8>>,
)
    requires
        (arc_start, arc_end, slice_index) != (other_start, other_end, other_index),
        call_ensures(
            SliceHashTable::insert_slice_hash,
            (table, arc_start, arc_end, slice_index, hash),
            written,
        ),
        call_ensures(
            SliceHashTable::get_slice_hash,
            (&*old(table), arc_start, arc_end, slice_index),
            before,
        ),
        call_ensures(
            SliceHashTable::get_slice_hash,
            (&*final(table), arc_start, arc_end, slice_index),
            after,
        ),
        call_ensures(
            SliceHashTable::get_slice_hash,
            (&*old(table), other_start, other_end, other_index),
            other_before,
        ),
        call_ensures(
            SliceHashTable::get_slice_hash,
            (&*final(table), other_start, other_end, other_index),
            other_after,
        ),
    ensures
        after matches Some(read) && read@ == hash@,
        !written <==> (before matches Some(read) && read@ == hash@),
        !written ==> *final(table) == *old(table),
        other_before is None <==> other_after is None,
        other_before matches Some(was) ==> was@ == other_after->0@,
{
    crate::slice_hash_laws::law_slices_have_keys_of_their_own(
        arc_start,
        arc_end,
        slice_index,
        other_start,
        other_end,
        other_index,
    );
}

/// Nothing is read from a new table, no slices are counted in it, and none are listed.
pub proof fn law_new_tables_are_empty(
    table: SliceHashTable,
    arc_start: u32,
    arc_end: u32,
    slice_index: u64,
    read: Option<Vec<u8>>,
    n: u64,
    listed: Vec<SliceHashIndexedRow>,
)
    requires
        call_ensures(SliceHashTable::new, (), table),
        call_ensures(
            SliceHashTable::get_slice_hash,
            (&table, arc_start, arc_end, slice_index),
            read,
        ),
        call_ensures(SliceHashTable::slice_hash_count, (&table, arc_start, arc_end), n),
        call_ensures(SliceHashTable::get_slice_hashes, (&table, arc_start, arc_end), listed),
    ensures
        read is None,
        n == 0,
        listed.len() == 0,
{
    if listed.len() > 0 {
        assert(table@.contains_key(
            SliceKey {
                arc_start: arc_start as i64,
                arc_end: arc_end as i64,
                slice_index: listed[0].slice_index,
            },
        ));
    }
}

/// Storing a slice makes the number of slices of its arc the index plus one, if it was less, and
/// leaves it as it was otherwise; no other arc is counted anew.
pub proof fn law_the_count_follows_the_highest_index(
    table: &mut SliceHashTable,
    arc_start: u32,
    arc_end: u32,
    slice_index: u64,
    hash: &[u8],
    written: bool,
    before: u64,
    after: u64,
    other_start: u32,
    other_end: u32,
    other_before: u64,
    other_after: u64,
)
    requires
        (arc_start, arc_end) != (other_start, other_end),
        call_ensures(
            SliceHashTable::insert_slice_hash,
            (table, arc_start, arc_end, slice_index, hash),
            written,
        ),
        call_ensures(SliceHashTable::slice_hash_count, (&*old(table), arc_start, arc_end), before),
        call_ensures(SliceHashTable::slice_hash_count, (&*final(table), arc_start, arc_end), after),
        call_ensures(
            SliceHashTable::slice_hash_count,
            (&*old(table), other_start, other_end),
            other_before,
        ),
        call_ensures(
            SliceHashTable::slice_hash_count,
            (&*final(table), other_start, other_end),
            other_after,
        ),
    ensures
        after == if slice_index + 1 > before {
            slice_index + 1
        } else {
            before as int
        },
        other_after == other_before,
{
    let key = key_of(arc_start, arc_end, slice_index);
    let rows = old(table)@;
    let rows_after = final(table)@;
    assert(rows_after == rows.insert(key, hash@));
    assert forall|i: u64| #[trigger]
        rows_after.contains_key(key_of(arc_start, arc_end, i)) == (rows.contains_key(
            key_of(arc_start, arc_end, i),
        ) || i == slice_index) by {
        crate::slice_hash_laws::law_slices_have_keys_of_their_own(
            arc_start,
            arc_end,
            i,
            arc_start,
            arc_end,
            slice_index,
        );
    }
    assert forall|i: u64| #[trigger]
        rows_after.contains_key(key_of(other_start, other_end, i)) == rows.contains_key(
            key_of(other_start, other_end, i),
        ) by {
        crate::slice_hash_laws::law_slices_have_keys_of_their_own(
            other_start,
            other_end,
            i,
            arc_start,
            arc_end,
            slice_index,
        );
    }
    lemma_counted_by_indices(rows, arc_start, arc_end, before);
    lemma_counted_by_indices(rows_after, arc_start, arc_end, after);
    lemma_counted_by_indices(rows, other_start, other_end, other_before);
    lemma_counted_by_indices(rows_after, other_start, other_end, other_after);
    assert(rows_after.contains_key(key_of(arc_start, arc_end, slice_index)));
    if before > 0 {
        assert(rows.contains_key(key_of(arc_start, arc_end, (before - 1) as u64)));
        assert(rows_after.contains_key(key_of(arc_start, arc_end, (before - 1) as u64)));
    }
    assert(after > 0);
    assert(rows_after.contains_key(key_of(arc_start, arc_end, (after - 1) as u64)));
    if other_before > 0 {
        assert(rows_after.contains_key(key_of(other_start, other_end, (other_before - 1) as u64)));
    }
    if other_after > 0 {
        assert(rows.contains_key(key_of(other_start, other_end, (other_after - 1) as u64)));
    }
}

proof fn lemma_counted_by_indices(rows: SliceHashes, arc_start: u32, arc_end: u32, n: u64)
    requires
        exists|highest: Option<u64>|
            #[trigger] crate::slice_hash::highest_index(rows, arc_start, arc_end, highest) && n
                == crate::slice_hash::count(highest),
    ensures
        forall|i: u64| #[trigger] rows.contains_key(key_of(arc_start, arc_end, i)) ==> i < n,
        n > 0 ==> rows.contains_key(key_of(arc_start, arc_end, (n - 1) as u64)),
{
}

/// The slices that are listed for an arc are those that can be read: a slice is listed, by its
/// column, exactly if there is a hash for it, with that hash, and once.
pub proof fn law_what_is_listed_can_be_read(
    table: SliceHashTable,
    arc_start: u32,
    arc_end: u32,
    slice_index: u64,
    key: SliceKey,
    read: Option<Vec<u8>>,
    listed: Vec<SliceHashIndexedRow>,
    i: int,
    j: int,
)
    requires
        call_ensures(slice_key, (arc_start, arc_end, slice_index), key),
        call_ensures(
            SliceHashTable::get_slice_hash,
            (&table, arc_start, arc_end, slice_index),
            read,
        ),
        call_ensures(SliceHashTable::get_slice_hashes, (&table, arc_start, arc_end), listed),
    ensures
        read is Some <==> exists|k: int|
            0 <= k < listed.len() && (#[trigger] listed[k]).slice_index == key.slice_index,
        0 <= i < listed.len() && listed[i].slice_index == key.slice_index ==> (read matches Some(
            hash,
        ) && listed[i].hash@ == hash@),
        0 <= i < j < listed.len() ==> listed[i].slice_index != listed[j].slice_index,
{
    assert(key == SliceKey {
        arc_start: arc_start as i64,
        arc_end: arc_end as i64,
        slice_index: key.slice_index,
    });
    if read is Some {
        assert(crate::slice_hash::lists_every_slice(listed@, table@, arc_start, arc_end));
        assert(table@.contains_key(key_of(arc_start, arc_end, slice_index)));
        let k = choose|k: int|
            0 <= k < listed@.len() && (#[trigger] listed@[k]).slice_index == key.slice_index;
        assert(listed[k].slice_index == key.slice_index);
    }
    if exists|k: int|
        0 <= k < listed.len() && (#[trigger] listed[k]).slice_index == key.slice_index {
        let k = choose|k: int|
            0 <= k < listed.len() && (#[trigger] listed[k]).slice_index == key.slice_index;
        assert(table@.contains_key(
            SliceKey {
                arc_start: arc_start as i64,
                arc_end: arc_end as i64,
                slice_index: listed[k].slice_index,
            },
        ));
        assert(table@.contains_key(key));
    }
    if 0 <= i < listed.len() && listed[i].slice_index == key.slice_index {
        assert(listed[i].hash@ == table@[key]);
    }
}

} // verus!
