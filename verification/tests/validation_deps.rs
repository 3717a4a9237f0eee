use holochain::action_hash::{ActionHash, ActionMap};
use holochain::missing_dep_backoff::{JITTER_ONE, UNFETCHABLE_ATTEMPT_BUDGET};
use holochain::time::{Duration, Instant};
use holochain::validation_deps::{
    ActionHashed, CascadeSource, ChainOpType, MissingDependencyCounts, SignedActionHashed,
    ValidationDependencies, ValidationDependencyState, ValidationDependencyType,
    ValidationDependencyValue, ValidationStatus, WarrantedDep,
};

type Deps = ValidationDependencies<&'static str>;
type State = ValidationDependencyState<&'static str>;

const NOW: Instant = Instant { nanos: 5_000_000_000 };
const BASE: Duration = Duration { nanos: 10_000_000_000 };
const EVEN: i64 = JITTER_ONE / 2;

fn hash(n: u8) -> ActionHash {
    let mut raw = [7u8; 36];
    raw[35] = n;
    ActionHash::from_raw_36(raw)
}

fn action(n: u8, content: &'static str) -> SignedActionHashed<&'static str> {
    SignedActionHashed {
        hashed: ActionHashed {
            content,
            hash: hash(n),
        },
        signature: vec![n; 64],
    }
}

fn pending_action() -> State {
    ValidationDependencyState::new_pending(ValidationDependencyType::Action, NOW)
}

fn pending_warranted() -> State {
    ValidationDependencyState::new_pending(
        ValidationDependencyType::Warranted(ChainOpType::StoreRecord),
        NOW,
    )
}

fn present_action(n: u8, content: &'static str) -> State {
    ValidationDependencyState::new_present(
        ValidationDependencyValue::Action(action(n, content)),
        CascadeSource::Local,
    )
}

fn present_warranted(n: u8, content: &'static str) -> State {
    ValidationDependencyState::new_present(
        ValidationDependencyValue::Warranted(WarrantedDep::Pending(
            action(n, content),
            ChainOpType::StoreEntry,
        )),
        CascadeSource::Network,
    )
}

fn content(deps: &Deps, n: u8) -> Option<&'static str> {
    deps.get(&hash(n)).and_then(|s| s.as_action()).copied()
}

#[test]
fn hashes_are_told_apart() {
    let raw = [3u8; 36];
    let h = ActionHash::from_raw_36(raw);
    assert_eq!(h.get_raw_36(), raw);
    assert!(h.same_as(&ActionHash::from_raw_36(raw)));
    for i in 0..36 {
        let mut other = raw;
        other[i] = 4;
        assert!(!h.same_as(&ActionHash::from_raw_36(other)));
        other[i] = 2;
        assert!(!h.same_as(&ActionHash::from_raw_36(other)));
    }
}

#[test]
fn maps_find_what_was_put_in() {
    let mut map: ActionMap<u32> = ActionMap::new();
    for n in [40u8, 3, 99, 0, 255, 41, 7] {
        map.insert(hash(n), n as u32);
    }
    map.insert(hash(99), 1000);
    assert_eq!(map.len(), 7);
    assert_eq!(map.get(&hash(99)), Some(&1000));
    assert_eq!(map.get(&hash(41)), Some(&41));
    assert_eq!(map.get(&hash(42)), None);
    assert!(map.contains(&hash(0)));
    assert!(!map.contains(&hash(1)));
    if let Some(v) = map.get_mut(&hash(3)) {
        *v += 1;
    }
    assert_eq!(map.get(&hash(3)), Some(&4));
    assert!(map.get_mut(&hash(4)).is_none());
    assert_eq!(*map.entry(0).1, 0);
    assert!(map.entry(6).0.same_as(&hash(255)));

    let mut kept: ActionMap<()> = ActionMap::new();
    kept.insert(hash(3), ());
    kept.insert(hash(5), ());
    kept.insert(hash(255), ());
    map.retain_keys_of(&kept);
    assert_eq!(map.len(), 2);
    assert_eq!(map.pop_last().map(|e| e.1), Some(255));
    assert_eq!(map.pop_last().map(|e| e.1), Some(4));
    assert!(map.pop_last().is_none());
}

#[test]
fn a_missing_dependency_is_known_but_not_held() {
    let mut deps = Deps::new_from_iter(vec![(hash(1), pending_action())]);
    assert!(!deps.has(&hash(1)));
    assert!(!deps.has(&hash(2)));
    assert!(deps.get(&hash(1)).is_some());
    assert!(deps.get(&hash(2)).is_none());
    assert!(deps.get(&hash(1)).unwrap().as_action().is_none());
    assert!(deps.get(&hash(1)).unwrap().as_signed_action().is_none());
    assert!(deps.get(&hash(1)).unwrap().source().is_none());
}

#[test]
fn later_entries_replace_earlier_ones() {
    let mut deps = Deps::new_from_iter(vec![
        (hash(1), present_action(1, "first")),
        (hash(2), present_action(2, "other")),
        (hash(1), present_action(1, "second")),
    ]);
    assert_eq!(content(&deps, 1), Some("second"));
    assert_eq!(content(&deps, 2), Some("other"));
    assert!(deps.has(&hash(1)));
    let mut none = Deps::default();
    assert!(!none.has(&hash(1)));
}

#[test]
fn an_inserted_action_is_read_back() {
    let mut deps = Deps::new_from_iter(vec![(hash(1), pending_action())]);
    assert!(deps.insert_action(action(1, "found"), CascadeSource::Local));
    assert!(deps.has(&hash(1)));
    let state = deps.get(&hash(1)).unwrap();
    assert_eq!(state.as_action(), Some(&"found"));
    assert_eq!(state.as_signed_action().unwrap().signature, vec![1; 64]);
    assert!(state.as_signed_action().unwrap().as_hash().same_as(&hash(1)));
    assert_eq!(state.source(), Some(CascadeSource::Local));
    assert!(state.as_signed_action_and_validation_status().is_none());

    // It is held now, so a second one is not taken.
    assert!(!deps.insert_action(action(1, "again"), CascadeSource::Network));
    assert_eq!(content(&deps, 1), Some("found"));
    assert_eq!(deps.get(&hash(1)).unwrap().source(), Some(CascadeSource::Local));

    // What is not known is not taken either.
    assert!(!deps.insert_action(action(2, "stranger"), CascadeSource::Network));
    assert!(deps.get(&hash(2)).is_none());
}

#[test]
fn a_warranted_action_is_read_back_with_its_status() {
    let mut deps = Deps::new_from_iter(vec![(hash(1), pending_warranted())]);
    assert!(deps.insert_pending_validation_warranted(
        action(1, "accused"),
        ChainOpType::RegisterAddLink,
        CascadeSource::Network
    ));
    let pending = deps.get_pending_warrant_dependencies();
    assert_eq!(pending.len(), 1);
    assert!(pending[0].0.same_as(&hash(1)));
    assert_eq!(pending[0].1, ChainOpType::RegisterAddLink);
    assert!(deps
        .get(&hash(1))
        .unwrap()
        .as_signed_action_and_validation_status()
        .is_none());

    deps.update_warrant_dep_validated(&hash(1), ValidationStatus::Rejected);
    assert!(deps.get_pending_warrant_dependencies().is_empty());
    let (signed, status) = deps
        .get(&hash(1))
        .unwrap()
        .as_signed_action_and_validation_status()
        .unwrap();
    assert_eq!(signed.hashed.content, "accused");
    assert_eq!(status, ValidationStatus::Rejected);
    assert_eq!(content(&deps, 1), Some("accused"));

    // A status is given once.
    deps.update_warrant_dep_validated(&hash(1), ValidationStatus::Valid);
    let state = deps.get(&hash(1)).unwrap();
    assert_eq!(
        state.as_signed_action_and_validation_status().unwrap().1,
        ValidationStatus::Rejected
    );
    assert!(!deps.insert_pending_validation_warranted(
        action(1, "again"),
        ChainOpType::StoreEntry,
        CascadeSource::Local
    ));
}

#[test]
fn the_wrong_kind_of_dependency_is_not_taken() {
    let mut deps = Deps::new_from_iter(vec![
        (hash(1), pending_warranted()),
        (hash(2), pending_action()),
        (hash(3), present_action(3, "held")),
    ]);
    // The dependency was known and missing, but stays missing.
    assert!(deps.insert_action(action(1, "a"), CascadeSource::Local));
    assert!(deps.insert_pending_validation_warranted(
        action(2, "b"),
        ChainOpType::StoreRecord,
        CascadeSource::Local
    ));
    assert!(!deps.has(&hash(1)));
    assert!(!deps.has(&hash(2)));
    assert_eq!(
        deps.missing_dependency_counts(),
        MissingDependencyCounts {
            missing: 2,
            unfetchable: 0
        }
    );
    deps.update_warrant_dep_validated(&hash(3), ValidationStatus::Valid);
    deps.update_warrant_dep_validated(&hash(9), ValidationStatus::Valid);
    assert!(deps
        .get(&hash(3))
        .unwrap()
        .as_signed_action_and_validation_status()
        .is_none());
    assert!(deps.get(&hash(9)).is_none());
}

#[test]
fn missing_dependencies_are_fetched_when_they_are_due() {
    let mut deps = Deps::new_from_iter(vec![
        (hash(3), pending_action()),
        (hash(1), present_action(1, "held")),
        (hash(2), pending_warranted()),
    ]);
    let due = deps.get_missing_dependencies_due_for_fetch(NOW);
    assert_eq!(due.len(), 2);
    for (h, kind) in &due {
        if h.same_as(&hash(2)) {
            assert_eq!(
                *kind,
                ValidationDependencyType::Warranted(ChainOpType::StoreRecord)
            );
        } else {
            assert!(h.same_as(&hash(3)));
            assert_eq!(*kind, ValidationDependencyType::Action);
        }
    }

    assert!(!deps.note_network_miss_with_jitter(&hash(3), NOW, BASE, EVEN));
    let due = deps.get_missing_dependencies_due_for_fetch(NOW);
    assert_eq!(due.len(), 1);
    assert!(due[0].0.same_as(&hash(2)));
    assert_eq!(
        deps.get_missing_dependencies_due_for_fetch(NOW.after(BASE)).len(),
        2
    );

    // The local schedule of the same dependency has not moved.
    assert!(deps.needs_local_recheck(&hash(3), NOW));
    deps.note_local_miss_with_jitter(&hash(3), NOW, BASE, EVEN);
    assert!(!deps.needs_local_recheck(&hash(3), NOW));
    assert!(deps.needs_local_recheck(&hash(3), NOW.after(BASE)));

    // What is held is not looked for, and what was never looked for is.
    assert!(!deps.needs_local_recheck(&hash(1), NOW));
    assert!(deps.needs_local_recheck(&hash(8), NOW));

    // Misses of what is held or unknown are not recorded.
    assert!(!deps.note_network_miss(&hash(1), NOW, BASE));
    assert!(!deps.note_network_miss(&hash(8), NOW, BASE));
    deps.note_local_miss(&hash(1), NOW, BASE);
    assert_eq!(content(&deps, 1), Some("held"));
    assert!(deps.get(&hash(8)).is_none());

    // Neither are they at the end of time.
    let latest = Instant { nanos: u128::MAX };
    deps.note_local_miss(&hash(8), latest, BASE);
    assert!(!deps.note_network_miss(&hash(1), latest, BASE));
    assert!(deps.get(&hash(8)).is_none());
}

#[test]
fn unfetchable_dependencies_are_reported_once_and_counted() {
    let mut deps = Deps::new_from_iter(vec![
        (hash(1), pending_action()),
        (hash(2), pending_action()),
        (hash(3), present_action(3, "held")),
    ]);
    let mut reports = 0;
    for _ in 0..(UNFETCHABLE_ATTEMPT_BUDGET + 4) {
        deps.note_local_miss(&hash(2), NOW, BASE);
        if deps.note_network_miss(&hash(1), NOW, BASE) {
            reports += 1;
        }
    }
    assert_eq!(reports, 1);
    assert_eq!(
        deps.missing_dependency_counts(),
        MissingDependencyCounts {
            missing: 2,
            unfetchable: 1
        }
    );
    assert_eq!(
        MissingDependencyCounts::default(),
        MissingDependencyCounts {
            missing: 0,
            unfetchable: 0
        }
    );
    // It can still be found.
    assert!(deps.insert_action(action(1, "late"), CascadeSource::Network));
    assert_eq!(
        deps.missing_dependency_counts(),
        MissingDependencyCounts {
            missing: 1,
            unfetchable: 0
        }
    );
}

#[test]
fn purging_drops_what_was_not_accessed() {
    let mut deps = Deps::new_from_iter(vec![
        (hash(1), present_action(1, "one")),
        (hash(2), present_action(2, "two")),
        (hash(3), pending_action()),
        (hash(4), present_action(4, "four")),
    ]);
    deps.note_local_miss_with_jitter(&hash(3), NOW, BASE, EVEN);
    deps.has(&hash(1));
    // Skipping a search is an access too, so the backoff is kept.
    assert!(!deps.needs_local_recheck(&hash(3), NOW));
    deps.has(&hash(9));
    deps.purge_held_deps();
    assert_eq!(content(&deps, 1), Some("one"));
    assert!(deps.get(&hash(2)).is_none());
    assert!(deps.get(&hash(4)).is_none());
    assert!(deps.get(&hash(9)).is_none());
    assert!(!deps.needs_local_recheck(&hash(3), NOW));

    deps.clear_retained_deps();
    deps.purge_held_deps();
    assert!(deps.get(&hash(1)).is_none());
    assert!(deps.get(&hash(3)).is_none());
}

#[test]
fn merging_keeps_the_better_of_two_states() {
    let mut ours = Deps::new_from_iter(vec![
        (hash(1), pending_action()),
        (hash(2), present_action(2, "ours")),
        (hash(3), present_action(3, "ours")),
        (hash(4), present_warranted(4, "ours")),
        (hash(5), pending_action()),
        (hash(6), present_action(6, "ours")),
        (hash(9), present_action(9, "ours")),
    ]);
    ours.note_network_miss_with_jitter(&hash(5), NOW, BASE, EVEN);
    let theirs = Deps::new_from_iter(vec![
        (hash(1), present_action(1, "theirs")),
        (hash(2), pending_action()),
        (hash(3), present_warranted(3, "theirs")),
        (hash(4), present_action(4, "theirs")),
        (hash(5), pending_action()),
        (hash(6), present_action(6, "theirs")),
        (hash(7), present_action(7, "theirs")),
    ]);
    ours.merge(theirs);
    assert_eq!(content(&ours, 1), Some("theirs"));
    assert_eq!(content(&ours, 2), Some("ours"));
    assert_eq!(content(&ours, 3), Some("theirs"));
    assert_eq!(content(&ours, 4), Some("ours"));
    assert_eq!(content(&ours, 6), Some("ours"));
    assert_eq!(content(&ours, 7), Some("theirs"));
    assert_eq!(ours.get_pending_warrant_dependencies().len(), 2);
    // Our backoff is not reset.
    assert!(ours.get_missing_dependencies_due_for_fetch(NOW).is_empty());

    // What the other set brought counts as accessed, and nothing else does.
    ours.purge_held_deps();
    assert_eq!(content(&ours, 7), Some("theirs"));
    assert_eq!(content(&ours, 2), Some("ours"));
    assert_eq!(content(&ours, 9), None);
}

#[test]
fn merging_nothing_new_changes_nothing() {
    let some = || {
        Deps::new_from_iter(vec![
            (hash(1), present_action(1, "one")),
            (hash(2), pending_action()),
            (hash(3), present_warranted(3, "three")),
        ])
    };
    let mut deps = some();
    deps.note_network_miss_with_jitter(&hash(2), NOW, BASE, EVEN);
    for other in [Deps::new(), some(), some()] {
        deps.merge(other);
        assert_eq!(content(&deps, 1), Some("one"));
        assert_eq!(content(&deps, 2), None);
        assert_eq!(content(&deps, 3), Some("three"));
        assert_eq!(deps.missing_dependency_counts().missing, 1);
        assert!(deps.get_missing_dependencies_due_for_fetch(NOW).is_empty());
    }
    let mut copy = Deps::new();
    copy.merge(some());
    assert_eq!(content(&copy, 1), Some("one"));
    assert_eq!(content(&copy, 3), Some("three"));
    assert_eq!(copy.get_missing_dependencies_due_for_fetch(NOW).len(), 1);
}

#[test]
fn operations_touch_one_dependency() {
    let mut deps = Deps::new_from_iter(vec![
        (hash(1), pending_action()),
        (hash(2), pending_action()),
        (hash(3), pending_warranted()),
    ]);
    deps.note_local_miss_with_jitter(&hash(1), NOW, BASE, EVEN);
    deps.insert_action(action(2, "two"), CascadeSource::Local);
    assert!(!deps.needs_local_recheck(&hash(1), NOW));
    assert!(!deps.needs_local_recheck(&hash(2), NOW));
    assert!(deps.needs_local_recheck(&hash(3), NOW));
    assert!(!deps.has(&hash(1)));
    assert!(deps.has(&hash(2)));
    assert!(!deps.has(&hash(3)));
    assert_eq!(deps.missing_dependency_counts().missing, 2);
}

#[test]
fn states_take_only_what_they_need() {
    let mut state = pending_action();
    state.set_pending_validation_warranted(action(1, "w"), ChainOpType::StoreEntry);
    assert!(state.as_action().is_none());
    state.set_validation_status_for_warranted(ValidationStatus::Valid);
    assert!(state.as_action().is_none());
    state.set_action_dep(action(1, "a"));
    assert_eq!(state.as_action(), Some(&"a"));
    assert_eq!(state.source(), Some(CascadeSource::Network));
    state.set_action_dep(action(1, "b"));
    assert_eq!(state.as_action(), Some(&"a"));

    let mut state = pending_warranted();
    state.set_action_dep(action(1, "a"));
    assert!(state.as_action().is_none());
    state.set_pending_validation_warranted(action(1, "w"), ChainOpType::StoreEntry);
    assert_eq!(state.as_action(), Some(&"w"));
    state.set_validation_status_for_warranted(ValidationStatus::Abandoned);
    let (signed, status) = state.as_signed_action_and_validation_status().unwrap();
    assert_eq!(signed.hashed.content, "w");
    assert_eq!(status, ValidationStatus::Abandoned);
}
