//! What holds of stored slice hashes as a whole.

use crate::slice_hash::{
    column, count, highest_index, index_of, is_bare, key_of, SliceHashes, SliceKey,
};
use vstd::prelude::*;

verus! {

/// Different slices have different keys: no slice index is confused with another.
pub proof fn law_slices_have_keys_of_their_own(
    arc_start: u32,
    arc_end: u32,
    slice_index: u64,
    other_start: u32,
    other_end: u32,
    other_index: u64,
)
    ensures
        key_of(arc_start, arc_end, slice_index) == key_of(other_start, other_end, other_index) ==> (
        arc_start, arc_end, slice_index) == (other_start, other_end, other_index),
{
}

/// A read gives back the hash that was stored last for the slice, and storing it leaves every other
/// slice as it was.
pub proof fn law_a_stored_hash_is_read_back(
    rows: SliceHashes,
    arc_start: u32,
    arc_end: u32,
    slice_index: u64,
    hash: Seq<u8>,
    other_start: u32,
    other_end: u32,
    other_index: u64,
)
    requires
        (arc_start, arc_end, slice_index) != (other_start, other_end, other_index),
    ensures
        ({
            let key = key_of(arc_start, arc_end, slice_index);
            let other = key_of(other_start, other_end, other_index);
            let after = rows.insert(key, hash);
            &&& after.contains_key(key)
            &&& after[key] == hash
            &&& after.contains_key(other) == rows.contains_key(other)
            &&& rows.contains_key(other) ==> after[other] == rows[other]
        }),
{
    law_slices_have_keys_of_their_own(
        arc_start,
        arc_end,
        slice_index,
        other_start,
        other_end,
        other_index,
    );
}

/// Storing the hash that is stored already changes nothing; storing another one replaces it. Neither
/// adds a row.
pub proof fn law_storing_again_adds_no_row(rows: SliceHashes, key: SliceKey, hash: Seq<u8>)
    requires
        rows.contains_key(key),
    ensures
        rows[key] == hash ==> rows.insert(key, hash) == rows,
        rows.insert(key, hash).dom() == rows.dom(),
        rows.insert(key, hash).insert(key, hash) == rows.insert(key, hash),
{
    assert(rows.insert(key, hash).dom() =~= rows.dom());
    assert(rows[key] == hash ==> rows.insert(key, hash) =~= rows);
    assert(rows.insert(key, hash).insert(key, hash) =~= rows.insert(key, hash));
}

/// There is one highest slice index of an arc, or none: the number of slices is determined by what
/// is stored.
pub proof fn law_the_number_of_slices_is_determined(
    rows: SliceHashes,
    arc_start: u32,
    arc_end: u32,
    one: Option<u64>,
    other: Option<u64>,
)
    requires
        highest_index(rows, arc_start, arc_end, one),
        highest_index(rows, arc_start, arc_end, other),
    ensures
        one == other,
{
}

/// The number of slices is zero exactly if none is stored.
pub proof fn law_no_slices_are_told_apart_from_one(
    rows: SliceHashes,
    arc_start: u32,
    arc_end: u32,
    highest: Option<u64>,
)
    requires
        highest_index(rows, arc_start, arc_end, highest),
    ensures
        count(highest) == 0 <==> is_bare(rows, arc_start, arc_end),
{
}

/// The number of slices is the highest slice index that is stored, plus one.
pub proof fn law_the_number_of_slices_is_the_highest_index_plus_one(
    rows: SliceHashes,
    arc_start: u32,
    arc_end: u32,
    index: u64,
    highest: Option<u64>,
)
    requires
        rows.contains_key(key_of(arc_start, arc_end, index)),
        forall|i: u64| #[trigger]
            rows.contains_key(key_of(arc_start, arc_end, i)) ==> i <= index,
        highest_index(rows, arc_start, arc_end, highest),
    ensures
        count(highest) == index + 1,
{
}

/// A slice index is read back from its column, and in the order of the slice indices every negative
/// value of the column comes after those that are not negative.
pub proof fn law_columns_stand_for_indices(one: i64, other: i64, index: u64)
    ensures
        index_of(column(index)) == index,
        column(index_of(one)) == one,
        index_of(one) < index_of(other) <==> if (one < 0) == (other < 0) {
            one < other
        } else {
            other < 0
        },
{
}

/// Where the slices `0 .. n` of an arc are stored and no other, there are `n` of them; storing the
/// next one makes them one more.
pub proof fn law_consecutive_slices_are_counted(
    rows: SliceHashes,
    arc_start: u32,
    arc_end: u32,
    n: u64,
    hash: Seq<u8>,
    highest: Option<u64>,
    next_highest: Option<u64>,
)
    requires
        forall|i: u64| #[trigger] rows.contains_key(key_of(arc_start, arc_end, i)) <==> i < n,
        highest_index(rows, arc_start, arc_end, highest),
        highest_index(
            rows.insert(key_of(arc_start, arc_end, n), hash),
            arc_start,
            arc_end,
            next_highest,
        ),
    ensures
        count(highest) == n,
        count(next_highest) == n + 1,
{
    if n > 0 {
        law_the_number_of_slices_is_the_highest_index_plus_one(
            rows,
            arc_start,
            arc_end,
            (n - 1) as u64,
            highest,
        );
    }
    let after = rows.insert(key_of(arc_start, arc_end, n), hash);
    assert forall|i: u64| #[trigger]
        after.contains_key(key_of(arc_start, arc_end, i)) implies i <= n by {
        law_slices_have_keys_of_their_own(arc_start, arc_end, i, arc_start, arc_end, n);
        if i != n {
            assert(rows.contains_key(key_of(arc_start, arc_end, i)));
        }
    }
    law_the_number_of_slices_is_the_highest_index_plus_one(
        after,
        arc_start,
        arc_end,
        n,
        next_highest,
    );
}

} // verus!
