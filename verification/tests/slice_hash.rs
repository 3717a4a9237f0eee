use holochain::slice_hash::{
    count_from_highest_index, highest_slice_index, needs_write, slice_index_of, slice_key,
    SliceHashTable, SliceKey,
};

/// The change-check must be invisible to callers: a redundant re-store is a safe no-op, a real
/// change still replaces, and neither path accumulates duplicate rows for the same slice.
#[test]
fn slice_hash_change_check_updates_and_is_idempotent() {
    let mut db = SliceHashTable::new();
    let (arc_start, arc_end, slice_index) = (0u32, 100u32, 7u64);
    let h1 = vec![1u8; 32];
    let h2 = vec![2u8; 32];

    // First store.
    assert!(db.insert_slice_hash(arc_start, arc_end, slice_index, &h1));
    assert_eq!(
        db.get_slice_hash(arc_start, arc_end, slice_index),
        Some(h1.clone())
    );
    assert_eq!(db.get_slice_hashes(arc_start, arc_end).len(), 1);

    // Redundant re-store of the identical hash: no-op, still exactly one row.
    assert!(!db.insert_slice_hash(arc_start, arc_end, slice_index, &h1));
    assert_eq!(
        db.get_slice_hash(arc_start, arc_end, slice_index),
        Some(h1.clone()),
        "a redundant re-store must not alter the stored hash"
    );
    assert_eq!(
        db.get_slice_hashes(arc_start, arc_end).len(),
        1,
        "a redundant re-store must not accumulate rows"
    );

    // A real change is never swallowed by the change-check.
    assert!(db.insert_slice_hash(arc_start, arc_end, slice_index, &h2));
    assert_eq!(
        db.get_slice_hash(arc_start, arc_end, slice_index),
        Some(h2),
        "a changed hash must replace the stored one"
    );
    assert_eq!(
        db.get_slice_hashes(arc_start, arc_end).len(),
        1,
        "a real change must replace, not duplicate"
    );
}

#[test]
fn slices_are_kept_apart() {
    let mut db = SliceHashTable::new();
    db.insert_slice_hash(0, 100, 0, &[1]);
    db.insert_slice_hash(0, 100, 1, &[2]);
    db.insert_slice_hash(0, 101, 1, &[3]);
    db.insert_slice_hash(1, 100, 1, &[4]);
    assert_eq!(db.get_slice_hash(0, 100, 0), Some(vec![1]));
    assert_eq!(db.get_slice_hash(0, 100, 1), Some(vec![2]));
    assert_eq!(db.get_slice_hash(0, 101, 1), Some(vec![3]));
    assert_eq!(db.get_slice_hash(1, 100, 1), Some(vec![4]));
    assert_eq!(db.get_slice_hash(1, 101, 1), None);

    let mut found: Vec<(i64, Vec<u8>)> = Vec::new();
    for row in db.get_slice_hashes(0, 100) {
        found.push((row.slice_index, row.hash));
    }
    found.sort();
    assert_eq!(found, vec![(0, vec![1]), (1, vec![2])]);
    assert!(db.get_slice_hashes(7, 8).is_empty());
}

#[test]
fn the_count_is_the_highest_index_plus_one() {
    let mut db = SliceHashTable::new();
    assert_eq!(db.slice_hash_count(0, 100), 0);
    db.insert_slice_hash(0, 100, 0, &[1]);
    assert_eq!(db.slice_hash_count(0, 100), 1);
    db.insert_slice_hash(0, 100, 1, &[1]);
    assert_eq!(db.slice_hash_count(0, 100), 2);
    db.insert_slice_hash(0, 100, 9, &[1]);
    assert_eq!(db.slice_hash_count(0, 100), 10);
    db.insert_slice_hash(0, 100, 4, &[1]);
    assert_eq!(db.slice_hash_count(0, 100), 10);
    assert_eq!(db.slice_hash_count(0, 99), 0);
}

#[test]
fn indices_in_the_upper_half_are_counted_too() {
    assert_eq!(
        slice_key(u32::MAX, 5, i64::MAX as u64),
        SliceKey {
            arc_start: 4_294_967_295,
            arc_end: 5,
            slice_index: i64::MAX
        }
    );
    assert_eq!(slice_key(0, 0, 1 << 63).slice_index, i64::MIN);
    assert_eq!(slice_key(0, 0, u64::MAX).slice_index, -1);

    for index in [0, 1, i64::MAX as u64, 1 << 63, u64::MAX - 1, u64::MAX] {
        assert_eq!(slice_index_of(slice_key(0, 0, index).slice_index), index);
    }

    let mut db = SliceHashTable::new();
    db.insert_slice_hash(0, 100, 1 << 63, &[1; 32]);
    assert_eq!(db.slice_hash_count(0, 100), (1 << 63) + 1);
    // A lower index changes nothing, in whichever half it is.
    db.insert_slice_hash(0, 100, 5, &[2; 32]);
    db.insert_slice_hash(0, 100, i64::MAX as u64, &[3; 32]);
    assert_eq!(db.slice_hash_count(0, 100), (1 << 63) + 1);
    db.insert_slice_hash(0, 100, (1 << 63) + 7, &[4; 32]);
    assert_eq!(db.slice_hash_count(0, 100), (1 << 63) + 8);
    db.insert_slice_hash(0, 100, u64::MAX - 1, &[5; 32]);
    assert_eq!(db.slice_hash_count(0, 100), u64::MAX);
    // The last index of all can be stored and read.
    db.insert_slice_hash(0, 100, u64::MAX, &[9]);
    assert_eq!(db.get_slice_hash(0, 100, u64::MAX), Some(vec![9]));
    assert_eq!(db.get_slice_hashes(0, 100).len(), 6);
}

#[test]
fn counts_and_writes_from_what_is_stored() {
    assert_eq!(count_from_highest_index(None), 0);
    assert_eq!(count_from_highest_index(Some(0)), 1);
    assert_eq!(count_from_highest_index(Some(41)), 42);
    assert_eq!(count_from_highest_index(Some(u64::MAX - 1)), u64::MAX);

    assert_eq!(highest_slice_index(None, None), None);
    assert_eq!(highest_slice_index(Some(41), None), Some(41));
    assert_eq!(highest_slice_index(Some(41), Some(-3)), Some(u64::MAX - 2));
    assert_eq!(highest_slice_index(Some(-3), Some(-3)), Some(u64::MAX - 2));
    assert_eq!(highest_slice_index(Some(0), Some(i64::MIN)), Some(1 << 63));

    assert!(needs_write(None, &[]));
    assert!(!needs_write(Some(&vec![]), &[]));
    assert!(!needs_write(Some(&vec![1, 2]), &[1, 2]));
    assert!(needs_write(Some(&vec![1, 2]), &[1, 3]));
    assert!(needs_write(Some(&vec![1, 2]), &[1, 2, 3]));
}
