//! What the calls on validation dependencies do, and how such calls relate.
//!
//! Each law speaks of calls by what was handed to them and what came back.

use crate::action_hash::ActionHash;
use crate::missing_dep_backoff::MissingDepRetry;
use crate::time::{Duration, Instant};
use crate::validation_deps::{
    CascadeSource, ChainOpType, MissingDependencyCounts, SignedActionHashed,
    ValidationDependencies, ValidationDependency, ValidationDependencyState,
    ValidationDependencyType, ValidationDependencyValue, ValidationStatus, WarrantedDep,
};
use vstd::prelude::*;

verus! {

/// A hash is read back byte by byte, and two hashes are the same exactly if all their bytes are. An
/// action is known by the hash that it carries.
pub proof fn law_hashes_are_their_bytes<A>(
    raw: [u8; 36],
    other_raw: [u8; 36],
    hash: ActionHash,
    other: ActionHash,
    read: [u8; 36],
    same: bool,
    action: SignedActionHashed<A>,
    carried: &ActionHash,
)
    requires
        call_ensures(ActionHash::from_raw_36, (raw,), hash),
        call_ensures(ActionHash::from_raw_36, (other_raw,), other),
        call_ensures(ActionHash::get_raw_36, (&hash,), read),
        call_ensures(ActionHash::same_as, (&hash, &other), same),
        call_ensures(SignedActionHashed::<A>::as_hash, (&action,), carried),
    ensures
        read@ == raw@,
        same <==> forall|i: int| 0 <= i < 36 ==> #[trigger] raw@[i] == other_raw@[i],
        *carried == action.hashed.hash,
{
    if forall|i: int| 0 <= i < 36 ==> #[trigger] raw@[i] == other_raw@[i] {
        assert(raw@ =~= other_raw@);
    }
}

/// A dependency that is at hand from the start is of the kind of its value, is held with its source,
/// and is on no retry schedule.
pub proof fn law_present_dependencies_are_held<A>(
    action: SignedActionHashed<A>,
    op_type: ChainOpType,
    source: CascadeSource,
    plain: ValidationDependencyState<A>,
    warranted: ValidationDependencyState<A>,
)
    requires
        call_ensures(
            ValidationDependencyState::<A>::new_present,
            (ValidationDependencyValue::Action(action), source),
            plain,
        ),
        call_ensures(
            ValidationDependencyState::<A>::new_present,
            (
                ValidationDependencyValue::Warranted(WarrantedDep::Pending(action, op_type)),
                source,
            ),
            warranted,
        ),
    ensures
        plain@.dependency_type == ValidationDependencyType::Action,
        plain@.dependency == Some(
            ValidationDependency {
                value: ValidationDependencyValue::Action(action),
                fetched_from: source,
            },
        ),
        plain@.retry is None,
        warranted@.dependency_type == ValidationDependencyType::Warranted(op_type),
        warranted@.dependency == Some(
            ValidationDependency {
                value: ValidationDependencyValue::Warranted(WarrantedDep::Pending(action, op_type)),
                fetched_from: source,
            },
        ),
        warranted@.retry is None,
{
}

/// A dependency that is found to be missing is of the kind that is needed, and on the schedule of a
/// dependency that is first missed at that moment.
pub proof fn law_pending_dependencies_are_missing<A>(
    dependency_type: ValidationDependencyType,
    now: Instant,
    state: ValidationDependencyState<A>,
    retry: MissingDepRetry,
)
    requires
        call_ensures(ValidationDependencyState::<A>::new_pending, (dependency_type, now), state),
        call_ensures(MissingDepRetry::new, (now,), retry),
    ensures
        state@.dependency_type == dependency_type,
        state@.dependency is None,
        state@.retry == Some(retry@),
        state@.retry->0.next_local_recheck == now.nanos,
        state@.retry->0.next_network_attempt == now.nanos,
        state@.retry->0.local_misses == 0,
        state@.retry->0.network_misses == 0,
{
}

/// A state is read as it stands: the signed action, its content and the source are there exactly if
/// the dependency is held, and the status exactly if it is a validated one.
pub proof fn law_states_are_read_as_they_stand<A>(
    state: ValidationDependencyState<A>,
    content: Option<&A>,
    signed: Option<&SignedActionHashed<A>>,
    validated: Option<(&SignedActionHashed<A>, ValidationStatus)>,
    source: Option<CascadeSource>,
)
    requires
        call_ensures(ValidationDependencyState::<A>::as_action, (&state,), content),
        call_ensures(ValidationDependencyState::<A>::as_signed_action, (&state,), signed),
        call_ensures(
            ValidationDependencyState::<A>::as_signed_action_and_validation_status,
            (&state,),
            validated,
        ),
        call_ensures(ValidationDependencyState::<A>::source, (&state,), source),
    ensures
        state@.dependency is None ==> content is None && signed is None && validated is None
            && source is None,
        state@.dependency matches Some(d) ==> {
            &&& source == Some(d.fetched_from)
            &&& signed matches Some(s) && content == Some(&s.hashed.content)
            &&& match d.value {
                ValidationDependencyValue::Action(a) => *signed->0 == a && validated is None,
                ValidationDependencyValue::Warranted(WarrantedDep::Pending(a, _)) => *signed->0 == a
                    && validated is None,
                ValidationDependencyValue::Warranted(WarrantedDep::Validated(a, status)) => {
                    &&& *signed->0 == a
                    &&& validated == Some((&a, status))
                },
            }
        },
{
}

/// An action is taken by a missing action dependency alone, which is then held and off its schedule.
/// Everything else stays as it was.
pub proof fn law_only_missing_action_dependencies_take_an_action<A>(
    state: &mut ValidationDependencyState<A>,
    action: SignedActionHashed<A>,
)
    requires
        call_ensures(ValidationDependencyState::<A>::set_action_dep, (state, action), ()),
    ensures
        final(state)@.dependency_type == old(state)@.dependency_type,
        old(state)@.dependency_type is Warranted || old(state)@.dependency is Some ==> final(state)@
            == old(state)@,
        old(state)@.dependency_type is Action && old(state)@.dependency is None ==> {
            &&& final(state)@.dependency == Some(
                ValidationDependency {
                    value: ValidationDependencyValue::Action(action),
                    fetched_from: CascadeSource::Network,
                },
            )
            &&& final(state)@.retry is None
        },
{
}

/// A warranted action is taken by a missing warranted dependency alone, which is then held, pending
/// validation and off its schedule. Everything else stays as it was.
pub proof fn law_only_missing_warranted_dependencies_take_a_warranted_action<A>(
    state: &mut ValidationDependencyState<A>,
    action: SignedActionHashed<A>,
    op_type: ChainOpType,
)
    requires
        call_ensures(
            ValidationDependencyState::<A>::set_pending_validation_warranted,
            (state, action, op_type),
            (),
        ),
    ensures
        final(state)@.dependency_type == old(state)@.dependency_type,
        old(state)@.dependency_type is Action || old(state)@.dependency is Some ==> final(state)@
            == old(state)@,
        old(state)@.dependency_type is Warranted && old(state)@.dependency is None ==> {
            &&& final(state)@.dependency == Some(
                ValidationDependency {
                    value: ValidationDependencyValue::Warranted(
                        WarrantedDep::Pending(action, op_type),
                    ),
                    fetched_from: CascadeSource::Network,
                },
            )
            &&& final(state)@.retry is None
        },
{
}

/// A status is taken by a warranted dependency that is pending validation alone, which keeps its
/// action, its source and its kind. Everything else stays as it was.
pub proof fn law_only_pending_warranted_dependencies_take_a_status<A>(
    state: &mut ValidationDependencyState<A>,
    status: ValidationStatus,
)
    requires
        call_ensures(
            ValidationDependencyState::<A>::set_validation_status_for_warranted,
            (state, status),
            (),
        ),
    ensures
        final(state)@.dependency_type == old(state)@.dependency_type,
        final(state)@.retry == old(state)@.retry,
        final(state)@.dependency == match (old(state)@.dependency_type, old(state)@.dependency) {
            (
                ValidationDependencyType::Warranted(_),
                Some(
                    ValidationDependency {
                        value: ValidationDependencyValue::Warranted(WarrantedDep::Pending(a, _)),
                        fetched_from,
                    },
                ),
            ) => Some(
                ValidationDependency {
                    value: ValidationDependencyValue::Warranted(WarrantedDep::Validated(a, status)),
                    fetched_from,
                },
            ),
            (_, unchanged) => unchanged,
        },
{
}

/// A new set knows nothing, and nothing counts as accessed.
pub proof fn law_new_sets_are_empty<A>(
    deps: ValidationDependencies<A>,
    default: ValidationDependencies<A>,
    counts: MissingDependencyCounts,
    h: Seq<u8>,
)
    requires
        call_ensures(ValidationDependencies::<A>::new, (), deps),
        call_ensures(<ValidationDependencies<A> as Default>::default, (), default),
        call_ensures(<MissingDependencyCounts as Default>::default, (), counts),
    ensures
        !deps@.states.contains_key(h),
        !deps@.retained.contains(h),
        !default@.states.contains_key(h),
        !default@.retained.contains(h),
        counts.missing == 0,
        counts.unfetchable == 0,
{
}

/// A set that is made from a list knows exactly the listed dependencies, each with the state that is
/// listed last for it, and nothing counts as accessed.
pub proof fn law_of_two_entries_the_later_one_counts<A>(
    entries: Vec<(ActionHash, ValidationDependencyState<A>)>,
    deps: ValidationDependencies<A>,
    h: Seq<u8>,
    last: int,
)
    requires
        call_ensures(ValidationDependencies::<A>::new_from_iter, (entries,), deps),
        forall|j: int| last < j < entries.len() ==> (#[trigger] entries[j]).0@ != h,
        0 <= last < entries.len() ==> entries[last].0@ == h,
        -1 <= last < entries.len(),
    ensures
        last >= 0 ==> deps@.states.contains_key(h) && deps@.states[h] == entries[last].1@,
        last == -1 ==> !deps@.states.contains_key(h),
        !deps@.retained.contains(h),
{
    lemma_last_entry_counts(entries@, h, last);
}

proof fn lemma_last_entry_counts<A>(
    entries: Seq<(ActionHash, ValidationDependencyState<A>)>,
    h: Seq<u8>,
    last: int,
)
    requires
        forall|j: int| last < j < entries.len() ==> (#[trigger] entries[j]).0@ != h,
        0 <= last < entries.len() ==> entries[last].0@ == h,
        -1 <= last < entries.len(),
    ensures
        last >= 0 ==> crate::validation_deps::states_of(entries).contains_key(h)
            && crate::validation_deps::states_of(entries)[h] == entries[last].1@,
        last == -1 ==> !crate::validation_deps::states_of(entries).contains_key(h),
    decreases entries.len(),
{
    if entries.len() > 0 && last < entries.len() - 1 {
        let before = entries.drop_last();
        assert(entries[entries.len() - 1].0@ != h);
        assert forall|j: int| last < j < before.len() implies (#[trigger] before[j]).0@ != h by {
            assert(before[j] == entries[j]);
        }
        lemma_last_entry_counts(before, h, last);
    }
}

/// A dependency is held exactly if it is known and has been found. Asking marks it as accessed and
/// changes nothing else.
pub proof fn law_asking_marks_as_accessed<A>(
    deps: &mut ValidationDependencies<A>,
    hash: ActionHash,
    held: bool,
    other: Seq<u8>,
)
    requires
        call_ensures(ValidationDependencies::<A>::has, (deps, &hash), held),
    ensures
        held <==> old(deps)@.states.contains_key(hash@) && old(deps)@.states[hash@].dependency
            is Some,
        final(deps)@.states == old(deps)@.states,
        final(deps)@.retained.contains(other) <==> old(deps)@.retained.contains(other) || other
            == hash@,
{
}

/// What is known is got, as it is.
pub proof fn law_known_dependencies_are_got<A>(
    deps: ValidationDependencies<A>,
    hash: ActionHash,
    state: Option<&ValidationDependencyState<A>>,
)
    requires
        call_ensures(ValidationDependencies::<A>::get, (&deps, &hash), state),
    ensures
        state is Some <==> deps@.states.contains_key(hash@),
        state matches Some(s) ==> s@ == deps@.states[hash@],
{
}

/// The local databases are searched for what is not known, and for what is missing once the next
/// search is due; never for what is held. Asking marks the dependency as accessed and changes nothing
/// else.
pub proof fn law_what_is_searched_for_locally<A>(
    deps: &mut ValidationDependencies<A>,
    hash: ActionHash,
    now: Instant,
    needed: bool,
    other: Seq<u8>,
)
    requires
        call_ensures(ValidationDependencies::<A>::needs_local_recheck, (deps, &hash, now), needed),
    ensures
        !old(deps)@.states.contains_key(hash@) ==> needed,
        old(deps)@.states.contains_key(hash@) ==> {
            let state = old(deps)@.states[hash@];
            &&& state.dependency is Some ==> !needed
            &&& state.dependency is None && state.retry is None ==> needed
            &&& state.dependency is None && state.retry is Some ==> (needed <==> now.nanos
                >= state.retry->0.next_local_recheck)
        },
        final(deps)@.states == old(deps)@.states,
        final(deps)@.retained.contains(other) <==> old(deps)@.retained.contains(other) || other
            == hash@,
{
}

/// A dependency is listed for a fetch exactly if it is known, missing, and its next fetch is due,
/// whether it counts as unfetchable or not. It is listed once, with its kind.
pub proof fn law_what_is_fetched_from_the_network<A>(
    deps: ValidationDependencies<A>,
    now: Instant,
    due: Vec<(ActionHash, ValidationDependencyType)>,
    h: Seq<u8>,
    i: int,
    j: int,
)
    requires
        call_ensures(
            ValidationDependencies::<A>::get_missing_dependencies_due_for_fetch,
            (&deps, now),
            due,
        ),
    ensures
        (exists|k: int| 0 <= k < due.len() && (#[trigger] due[k]).0@ == h) <==> {
            &&& deps@.states.contains_key(h)
            &&& deps@.states[h].dependency is None
            &&& deps@.states[h].retry matches Some(retry) ==> now.nanos
                >= retry.next_network_attempt
        },
        0 <= i < due.len() ==> due[i].1 == deps@.states[due[i].0@].dependency_type,
        0 <= i < j < due.len() ==> due[i].0@ != due[j].0@,
{
    let list = Seq::new(due@.len(), |k: int| due[k].0@);
    assert(list.to_set().contains(h) == list.contains(h));
    if list.contains(h) {
        let k = choose|k: int| 0 <= k < list.len() && list[k] == h;
        assert(due[k].0@ == h);
    }
    if exists|k: int| 0 <= k < due.len() && (#[trigger] due[k]).0@ == h {
        let k = choose|k: int| 0 <= k < due.len() && (#[trigger] due[k]).0@ == h;
        assert(list[k] == h);
    }
    if 0 <= i < j < due.len() {
        assert(list[i] != list[j]);
    }
    if 0 <= i < due.len() {
        assert(due[i].1 == deps@.states[due[i].0@].dependency_type);
    }
}

/// However often a dependency was missed, it is listed for a fetch again an hour after its last
/// network miss, and from then on.
pub proof fn law_missed_dependencies_are_fetched_again<A>(
    deps: &mut ValidationDependencies<A>,
    hash: ActionHash,
    now: Instant,
    base: Duration,
    r: i64,
    report: bool,
    later: Instant,
    due: Vec<(ActionHash, ValidationDependencyType)>,
)
    requires
        old(deps)@.states.contains_key(hash@),
        old(deps)@.states[hash@].dependency is None,
        call_ensures(
            ValidationDependencies::<A>::note_network_miss_with_jitter,
            (deps, &hash, now, base, r),
            report,
        ),
        later.nanos >= now.nanos + 3_600_000_000_000,
        call_ensures(
            ValidationDependencies::<A>::get_missing_dependencies_due_for_fetch,
            (&*final(deps), later),
            due,
        ),
    ensures
        exists|k: int|
            0 <= k < due.len() && (#[trigger] due[k]).0@ == hash@ && due[k].1 == old(
                deps,
            )@.states[hash@].dependency_type,
{
    law_what_is_fetched_from_the_network(*final(deps), later, due, hash@, 0, 0);
    let k = choose|k: int| 0 <= k < due.len() && (#[trigger] due[k]).0@ == hash@;
    law_what_is_fetched_from_the_network(*final(deps), later, due, hash@, k, 0);
}

/// However often a dependency was missed, it is searched for locally again a minute after its last
/// local miss, and from then on.
pub proof fn law_missed_dependencies_are_searched_for_again<A>(
    deps: &mut ValidationDependencies<A>,
    again: &mut ValidationDependencies<A>,
    hash: ActionHash,
    now: Instant,
    base: Duration,
    r: i64,
    later: Instant,
    needed: bool,
)
    requires
        old(deps)@.states.contains_key(hash@),
        old(deps)@.states[hash@].dependency is None,
        call_ensures(
            ValidationDependencies::<A>::note_local_miss_with_jitter,
            (deps, &hash, now, base, r),
            (),
        ),
        *old(again) == *final(deps),
        later.nanos >= now.nanos + 60_000_000_000,
        call_ensures(
            ValidationDependencies::<A>::needs_local_recheck,
            (again, &hash, later),
            needed,
        ),
    ensures
        needed,
{
}

/// A local miss of a missing dependency does to its schedule what a local miss does to a schedule,
/// and nothing else; a local miss of anything else does nothing. No miss marks anything as accessed.
pub proof fn law_a_local_miss_advances_one_schedule<A>(
    deps: &mut ValidationDependencies<A>,
    hash: ActionHash,
    now: Instant,
    base: Duration,
    r: i64,
    retry: &mut MissingDepRetry,
    other: Seq<u8>,
)
    requires
        call_ensures(
            ValidationDependencies::<A>::note_local_miss_with_jitter,
            (deps, &hash, now, base, r),
            (),
        ),
        old(deps)@.states.contains_key(hash@) ==> match old(deps)@.states[hash@].retry {
            Some(schedule) => old(retry)@ == schedule,
            None => call_ensures(MissingDepRetry::new, (now,), *old(retry)),
        },
        call_ensures(MissingDepRetry::record_local_miss_with_jitter, (retry, now, base, r), ()),
    ensures
        final(deps)@.retained == old(deps)@.retained,
        final(deps)@.states.contains_key(other) == old(deps)@.states.contains_key(other),
        other != hash@ && old(deps)@.states.contains_key(other) ==> final(deps)@.states[other]
            == old(deps)@.states[other],
        old(deps)@.states.contains_key(hash@) ==> {
            let before = old(deps)@.states[hash@];
            let after = final(deps)@.states[hash@];
            &&& before.dependency is Some ==> after == before
            &&& before.dependency is None ==> {
                &&& after.dependency is None
                &&& after.dependency_type == before.dependency_type
                &&& after.retry == Some(final(retry)@)
            }
        },
{
}

/// A network miss of a missing dependency does to its schedule what a network miss does to a
/// schedule, is reported when that is, and does nothing else; a network miss of anything else does
/// nothing and is not reported. No miss marks anything as accessed.
pub proof fn law_a_network_miss_advances_one_schedule<A>(
    deps: &mut ValidationDependencies<A>,
    hash: ActionHash,
    now: Instant,
    base: Duration,
    r: i64,
    report: bool,
    retry: &mut MissingDepRetry,
    schedule_report: bool,
    other: Seq<u8>,
)
    requires
        call_ensures(
            ValidationDependencies::<A>::note_network_miss_with_jitter,
            (deps, &hash, now, base, r),
            report,
        ),
        old(deps)@.states.contains_key(hash@) ==> match old(deps)@.states[hash@].retry {
            Some(schedule) => old(retry)@ == schedule,
            None => call_ensures(MissingDepRetry::new, (now,), *old(retry)),
        },
        call_ensures(
            MissingDepRetry::record_network_miss_with_jitter,
            (retry, now, base, r),
            schedule_report,
        ),
    ensures
        final(deps)@.retained == old(deps)@.retained,
        final(deps)@.states.contains_key(other) == old(deps)@.states.contains_key(other),
        other != hash@ && old(deps)@.states.contains_key(other) ==> final(deps)@.states[other]
            == old(deps)@.states[other],
        !old(deps)@.states.contains_key(hash@) ==> !report,
        old(deps)@.states.contains_key(hash@) ==> {
            let before = old(deps)@.states[hash@];
            let after = final(deps)@.states[hash@];
            &&& before.dependency is Some ==> after == before && !report
            &&& before.dependency is None ==> {
                &&& after.dependency is None
                &&& after.dependency_type == before.dependency_type
                &&& after.retry == Some(final(retry)@)
                &&& report == schedule_report
            }
        },
{
}

/// With random jitter, a miss does the same to one schedule and no more: whatever was drawn, it
/// counts, and the schedule is due again within the cap.
pub proof fn law_random_misses_advance_one_schedule<A>(
    local: &mut ValidationDependencies<A>,
    network: &mut ValidationDependencies<A>,
    hash: ActionHash,
    now: Instant,
    base: Duration,
    report: bool,
    other: Seq<u8>,
)
    requires
        call_ensures(ValidationDependencies::<A>::note_local_miss, (local, &hash, now, base), ()),
        call_ensures(
            ValidationDependencies::<A>::note_network_miss,
            (network, &hash, now, base),
            report,
        ),
    ensures
        final(local)@.retained == old(local)@.retained,
        final(network)@.retained == old(network)@.retained,
        final(local)@.states.contains_key(other) == old(local)@.states.contains_key(other),
        final(network)@.states.contains_key(other) == old(network)@.states.contains_key(other),
        other != hash@ && old(local)@.states.contains_key(other) ==> final(local)@.states[other]
            == old(local)@.states[other],
        other != hash@ && old(network)@.states.contains_key(other) ==> final(network)@.states[other]
            == old(network)@.states[other],
        old(local)@.states.contains_key(hash@) ==> {
            let before = old(local)@.states[hash@];
            let after = final(local)@.states[hash@];
            &&& before.dependency is Some ==> after == before
            &&& before.dependency is None && before.retry is Some ==> {
                let was = before.retry->0;
                &&& after.dependency is None
                &&& after.dependency_type == before.dependency_type
                &&& after.retry matches Some(is)
                &&& is.local_misses == if was.local_misses < u32::MAX {
                    was.local_misses + 1
                } else {
                    u32::MAX as nat
                }
                &&& now.nanos <= is.next_local_recheck <= now.nanos + 60_000_000_000
                &&& is.network_misses == was.network_misses
                &&& is.next_network_attempt == was.next_network_attempt
                &&& is.reported_unfetchable == was.reported_unfetchable
            }
        },
        !old(network)@.states.contains_key(hash@) ==> !report,
        old(network)@.states.contains_key(hash@) ==> {
            let before = old(network)@.states[hash@];
            let after = final(network)@.states[hash@];
            &&& before.dependency is Some ==> after == before && !report
            &&& before.dependency is None && before.retry is Some ==> {
                let was = before.retry->0;
                &&& after.dependency is None
                &&& after.dependency_type == before.dependency_type
                &&& after.retry matches Some(is)
                &&& is.network_misses == if was.network_misses < u32::MAX {
                    was.network_misses + 1
                } else {
                    u32::MAX as nat
                }
                &&& now.nanos <= is.next_network_attempt <= now.nanos + 3_600_000_000_000
                &&& is.local_misses == was.local_misses
                &&& is.next_local_recheck == was.next_local_recheck
                &&& report <==> is.network_misses >= 12 && !was.reported_unfetchable
                &&& is.reported_unfetchable <==> report || was.reported_unfetchable
            }
        },
{
}

/// An action is inserted for a known and missing dependency, and only then is success told. An action
/// dependency is then held with the action and the source that were given; a warranted one stays
/// missing. Nothing else changes, except that the dependency counts as accessed.
pub proof fn law_inserted_actions_are_held<A>(
    deps: &mut ValidationDependencies<A>,
    action: SignedActionHashed<A>,
    source: CascadeSource,
    inserted: bool,
    other: Seq<u8>,
)
    requires
        call_ensures(ValidationDependencies::<A>::insert_action, (deps, action, source), inserted),
    ensures
        ({
            let h = action.hashed.hash@;
            &&& inserted <==> old(deps)@.states.contains_key(h) && old(deps)@.states[h].dependency
                is None
            &&& final(deps)@.retained.contains(other) <==> old(deps)@.retained.contains(other)
                || other == h
            &&& final(deps)@.states.contains_key(other) == old(deps)@.states.contains_key(other)
            &&& old(deps)@.states.contains_key(other) && (other != h || !inserted || old(
                deps,
            )@.states[h].dependency_type is Warranted) ==> final(deps)@.states[other] == old(
                deps,
            )@.states[other]
            &&& inserted && old(deps)@.states[h].dependency_type is Action ==> {
                let after = final(deps)@.states[h];
                &&& after.dependency_type is Action
                &&& after.retry is None
                &&& after.dependency == Some(
                    ValidationDependency {
                        value: ValidationDependencyValue::Action(action),
                        fetched_from: source,
                    },
                )
            }
        }),
{
}

/// A warranted action is inserted for a known and missing dependency, and only then is success told.
/// A warranted dependency is then held, pending validation, with the action, the op and the source
/// that were given; an action dependency stays missing. Nothing else changes, except that the
/// dependency counts as accessed.
pub proof fn law_inserted_warranted_actions_are_pending<A>(
    deps: &mut ValidationDependencies<A>,
    action: SignedActionHashed<A>,
    op_type: ChainOpType,
    source: CascadeSource,
    inserted: bool,
    other: Seq<u8>,
)
    requires
        call_ensures(
            ValidationDependencies::<A>::insert_pending_validation_warranted,
            (deps, action, op_type, source),
            inserted,
        ),
    ensures
        ({
            let h = action.hashed.hash@;
            &&& inserted <==> old(deps)@.states.contains_key(h) && old(deps)@.states[h].dependency
                is None
            &&& final(deps)@.retained.contains(other) <==> old(deps)@.retained.contains(other)
                || other == h
            &&& final(deps)@.states.contains_key(other) == old(deps)@.states.contains_key(other)
            &&& old(deps)@.states.contains_key(other) && (other != h || !inserted || old(
                deps,
            )@.states[h].dependency_type is Action) ==> final(deps)@.states[other] == old(
                deps,
            )@.states[other]
            &&& inserted && old(deps)@.states[h].dependency_type is Warranted ==> {
                let after = final(deps)@.states[h];
                &&& after.dependency_type == old(deps)@.states[h].dependency_type
                &&& after.retry is None
                &&& after.dependency == Some(
                    ValidationDependency {
                        value: ValidationDependencyValue::Warranted(
                            WarrantedDep::Pending(action, op_type),
                        ),
                        fetched_from: source,
                    },
                )
            }
        }),
{
}

/// A status is given to a dependency as to a state, if the dependency is held; the dependency counts
/// as accessed, and no other state changes.
pub proof fn law_a_status_is_given_to_one_dependency<A>(
    deps: &mut ValidationDependencies<A>,
    hash: ActionHash,
    status: ValidationStatus,
    state: &mut ValidationDependencyState<A>,
    other: Seq<u8>,
)
    requires
        call_ensures(
            ValidationDependencies::<A>::update_warrant_dep_validated,
            (deps, &hash, status),
            (),
        ),
        call_ensures(
            ValidationDependencyState::<A>::set_validation_status_for_warranted,
            (state, status),
            (),
        ),
        old(deps)@.states.contains_key(hash@) ==> old(state)@ == old(deps)@.states[hash@],
    ensures
        final(deps)@.retained.contains(other) <==> old(deps)@.retained.contains(other) || other
            == hash@,
        final(deps)@.states.contains_key(other) == old(deps)@.states.contains_key(other),
        other != hash@ && old(deps)@.states.contains_key(other) ==> final(deps)@.states[other]
            == old(deps)@.states[other],
        old(deps)@.states.contains_key(hash@) ==> final(deps)@.states[hash@] == final(state)@,
{
}

/// Forgetting what was accessed changes no state; purging keeps what was accessed, as it is, drops
/// the rest, and forgets nothing.
pub proof fn law_purging_keeps_what_was_accessed<A>(
    forgetting: &mut ValidationDependencies<A>,
    purging: &mut ValidationDependencies<A>,
    h: Seq<u8>,
)
    requires
        call_ensures(ValidationDependencies::<A>::clear_retained_deps, (forgetting,), ()),
        call_ensures(ValidationDependencies::<A>::purge_held_deps, (purging,), ()),
    ensures
        final(forgetting)@.states == old(forgetting)@.states,
        !final(forgetting)@.retained.contains(h),
        final(purging)@.retained == old(purging)@.retained,
        final(purging)@.states.contains_key(h) <==> old(purging)@.states.contains_key(h) && old(
            purging,
        )@.retained.contains(h),
        final(purging)@.states.contains_key(h) ==> final(purging)@.states[h] == old(
            purging,
        )@.states[h],
{
}

/// Merging keeps the better of two states: what only one side knows or holds is taken from that side;
/// what both miss stays as it is here; and what both hold stays as it is here, unless it is an action
/// here and a warranted dependency there. What the other side knows counts as accessed, and what
/// counted before still does.
pub proof fn law_merging_keeps_the_better_state<A>(
    ours: &mut ValidationDependencies<A>,
    theirs: ValidationDependencies<A>,
    h: Seq<u8>,
)
    requires
        call_ensures(ValidationDependencies::<A>::merge, (ours, theirs), ()),
    ensures
        final(ours)@.retained.contains(h) <==> old(ours)@.retained.contains(h)
            || theirs@.states.contains_key(h),
        final(ours)@.states.contains_key(h) <==> old(ours)@.states.contains_key(h)
            || theirs@.states.contains_key(h),
        old(ours)@.states.contains_key(h) && !theirs@.states.contains_key(h) ==> final(ours)@.states[h] == old(ours)@.states[h],
        !old(ours)@.states.contains_key(h) && theirs@.states.contains_key(h) ==> final(ours)@.states[h] == theirs@.states[h],
        old(ours)@.states.contains_key(h) && theirs@.states.contains_key(h) ==> {
            let here = old(ours)@.states[h];
            let there = theirs@.states[h];
            let after = final(ours)@.states[h];
            &&& there.dependency is None ==> after == here
            &&& here.dependency is None && there.dependency is Some ==> after == there
            &&& here.dependency is Some && here.dependency_type is Warranted ==> after == here
            &&& here.dependency is Some && there.dependency_type is Action ==> after == here
            &&& here.dependency is Some && here.dependency_type is Action && there.dependency is Some
                && there.dependency_type is Warranted ==> after == there
        },
{
}

/// A verdict survives every merge: a dependency that was given a status is still read back with its
/// action and that status, and is not pending validation again.
pub proof fn law_a_verdict_survives_merging<A>(
    ours: &mut ValidationDependencies<A>,
    theirs: ValidationDependencies<A>,
    hash: ActionHash,
    action: SignedActionHashed<A>,
    status: ValidationStatus,
    state: Option<&ValidationDependencyState<A>>,
    validated: Option<(&SignedActionHashed<A>, ValidationStatus)>,
)
    requires
        old(ours)@.states.contains_key(hash@),
        old(ours)@.states[hash@].dependency_type is Warranted,
        old(ours)@.states[hash@].dependency matches Some(d) && d.value
            == ValidationDependencyValue::Warranted(WarrantedDep::Validated(action, status)),
        call_ensures(ValidationDependencies::<A>::merge, (ours, theirs), ()),
        call_ensures(ValidationDependencies::<A>::get, (&*final(ours), &hash), state),
        state is Some ==> call_ensures(
            ValidationDependencyState::<A>::as_signed_action_and_validation_status,
            (state->0,),
            validated,
        ),
    ensures
        state is Some,
        validated == Some((&action, status)),
        final(ours)@.states[hash@] == old(ours)@.states[hash@],
{
}

/// The counts are those of the dependencies that are known and missing, and of those among them that
/// the network has been asked for twelve times or more.
pub proof fn law_counts_are_those_of_missing_dependencies<A>(
    deps: ValidationDependencies<A>,
    counts: MissingDependencyCounts,
    missing: Set<Seq<u8>>,
    unfetchable: Set<Seq<u8>>,
)
    requires
        call_ensures(ValidationDependencies::<A>::missing_dependency_counts, (&deps,), counts),
        forall|h: Seq<u8>| #[trigger]
            missing.contains(h) <==> deps@.states.contains_key(h) && deps@.states[h].dependency
                is None,
        forall|h: Seq<u8>| #[trigger]
            unfetchable.contains(h) <==> missing.contains(h) && (deps@.states[h].retry matches Some(
                retry,
            ) && retry.network_misses >= 12),
    ensures
        missing.finite(),
        unfetchable.finite(),
        counts.missing == missing.len(),
        counts.unfetchable == unfetchable.len(),
        counts.unfetchable <= counts.missing,
{
    assert(missing =~= deps@.missing());
    assert(unfetchable =~= deps@.unfetchable());
}

/// The list of pending dependencies has an item for each warranted dependency that is held and
/// pending validation, with the hash of its action and the op in question, and no other items.
pub proof fn law_pending_warrants_are_listed<A>(
    deps: ValidationDependencies<A>,
    listed: Vec<(ActionHash, ChainOpType)>,
    pending: Set<Seq<u8>>,
    h: Seq<u8>,
    action: SignedActionHashed<A>,
    op_type: ChainOpType,
    i: int,
)
    requires
        call_ensures(
            ValidationDependencies::<A>::get_pending_warrant_dependencies,
            (&deps,),
            listed,
        ),
        forall|g: Seq<u8>| #[trigger]
            pending.contains(g) <==> deps@.states.contains_key(g) && deps@.states[g].dependency_type
                is Warranted && (deps@.states[g].dependency matches Some(d) && d.value matches
                ValidationDependencyValue::Warranted(WarrantedDep::Pending(_, _))),
    ensures
        pending.finite(),
        listed.len() == pending.len(),
        pending.contains(h) && deps@.states[h].dependency->0.value
            == ValidationDependencyValue::Warranted(WarrantedDep::Pending(action, op_type))
            ==> exists|k: int|
            0 <= k < listed.len() && #[trigger] listed[k] == (action.hashed.hash, op_type),
        0 <= i < listed.len() ==> exists|g: Seq<u8>| #[trigger]
            pending.contains(g) && (deps@.states[g].dependency matches Some(d) && (d.value matches
                ValidationDependencyValue::Warranted(WarrantedDep::Pending(a, t))
                && listed[i] == (a.hashed.hash, t))),
{
    assert(pending =~= deps@.pending_warrants());
    let list = choose|list: Seq<Seq<u8>>|
        {
            &&& #[trigger] crate::validation_deps::enumerates(list, deps@.pending_warrants())
            &&& list.len() == listed.len()
            &&& forall|k: int|
                0 <= k < list.len() ==> crate::validation_deps::pending_as_listed(
                    deps@.states[#[trigger] list[k]],
                    listed[k],
                )
        };
    list.unique_seq_to_set();
    vstd::seq_lib::seq_to_set_is_finite(list);
    if pending.contains(h) {
        assert(list.to_set().contains(h));
        let k = choose|k: int| 0 <= k < list.len() && list[k] == h;
        assert(crate::validation_deps::pending_as_listed(deps@.states[list[k]], listed[k]));
        assert(listed[k] == listed[k]);
    }
    if 0 <= i < listed.len() {
        assert(list.to_set().contains(list[i]));
        assert(pending.contains(list[i]));
        assert(crate::validation_deps::pending_as_listed(deps@.states[list[i]], listed[i]));
    }
}

} // verus!
