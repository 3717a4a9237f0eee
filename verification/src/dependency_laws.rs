//! What holds of sets of validation dependencies as a whole.

use crate::action_hash::ActionHash;
use crate::missing_dep_backoff::{RetryState, UNFETCHABLE_ATTEMPT_BUDGET};
use crate::retry_laws::{
    law_unfetchable_is_reported_exactly_once, network_count, report_count, run, Miss,
};
use crate::validation_deps::{
    states_of, CascadeSource, ChainOpType, DependenciesView, DependencyView, SignedActionHashed,
    ValidationDependency, ValidationDependencyState, ValidationDependencyType,
    ValidationDependencyValue, ValidationStatus, WarrantedDep,
};
use vstd::prelude::*;

verus! {

/// Every operation on a set of dependencies keeps what holds of every such set: above all, that a
/// dependency is on a retry schedule exactly as long as it is missing.
pub proof fn law_operations_keep_the_invariant<A>(
    deps: DependenciesView<A>,
    other: DependenciesView<A>,
    h: Seq<u8>,
    action: SignedActionHashed<A>,
    op_type: ChainOpType,
    source: CascadeSource,
    status: ValidationStatus,
    now: nat,
    base: nat,
    r: int,
)
    requires
        deps.wf(),
        other.wf(),
    ensures
        DependenciesView::<A>::empty().wf(),
        deps.retaining(h).wf(),
        deps.forgetting().wf(),
        deps.purged().wf(),
        deps.after_local_miss(h, now, base, r).wf(),
        deps.after_network_miss(h, now, base, r).wf(),
        deps.after_insert_action(action, source).wf(),
        deps.after_insert_warranted(action, op_type, source).wf(),
        deps.after_validated(h, status).wf(),
        deps.merged_with(other).wf(),
{
    assert(deps.purged().states.dom() =~= deps.states.dom().intersect(deps.retained));
    assert(deps.merged_with(other).states.dom() =~= deps.states.dom().union(other.states.dom()));
}

/// A set that is made from states of which the invariant holds satisfies it too.
pub proof fn law_new_sets_satisfy_the_invariant<A>(
    entries: Seq<(ActionHash, ValidationDependencyState<A>)>,
)
    requires
        forall|i: int| 0 <= i < entries.len() ==> (#[trigger] entries[i]).1@.wf(),
    ensures
        (DependenciesView { states: states_of(entries), retained: Set::empty() }).wf(),
    decreases entries.len(),
{
    if entries.len() > 0 {
        let before = entries.drop_last();
        assert forall|i: int| 0 <= i < before.len() implies (#[trigger] before[i]).1@.wf() by {
            assert(before[i] == entries[i]);
        }
        law_new_sets_satisfy_the_invariant(before);
        let old_set = DependenciesView { states: states_of(before), retained: Set::empty() };
        assert forall|h: Seq<u8>| #[trigger]
            states_of(entries).contains_key(h) implies states_of(entries)[h].wf() by {
            if h != entries.last().0@ {
                assert(old_set.states.contains_key(h));
            }
        }
    }
}

/// What has been accessed survives a purge with its state, and with it its backoff, unchanged.
pub proof fn law_accessed_dependencies_survive_a_purge<A>(deps: DependenciesView<A>, h: Seq<u8>)
    requires
        deps.states.contains_key(h),
    ensures
        deps.retaining(h).purged().states.contains_key(h),
        deps.retaining(h).purged().states[h] == deps.states[h],
{
}

/// A purge keeps exactly what has been accessed since the last time that this was forgotten.
pub proof fn law_purge_keeps_exactly_what_was_accessed<A>(deps: DependenciesView<A>, h: Seq<u8>)
    ensures
        deps.purged().states.contains_key(h) <==> deps.states.contains_key(h)
            && deps.retained.contains(h),
        deps.purged().states.contains_key(h) ==> deps.purged().states[h] == deps.states[h],
        deps.forgetting().purged().states == Map::<Seq<u8>, DependencyView<A>>::empty(),
        deps.purged().purged() == deps.purged(),
{
    assert(deps.forgetting().purged().states =~= Map::<Seq<u8>, DependencyView<A>>::empty());
    assert(deps.purged().purged().states =~= deps.purged().states);
}

/// Accessing a dependency changes no state.
pub proof fn law_access_changes_no_state<A>(deps: DependenciesView<A>, h: Seq<u8>)
    ensures
        deps.retaining(h).states == deps.states,
        deps.retaining(h).retained.contains(h),
        deps.retaining(h).retaining(h) == deps.retaining(h),
{
    assert(deps.retaining(h).retaining(h).retained =~= deps.retaining(h).retained);
}

/// An action that is inserted for a missing action dependency can be read back, with the source
/// that was given. The dependency is then held and off its retry schedule, and it does not change
/// when an action is offered for it again.
pub proof fn law_an_inserted_action_is_read_back<A>(
    deps: DependenciesView<A>,
    action: SignedActionHashed<A>,
    source: CascadeSource,
    again: SignedActionHashed<A>,
    other_source: CascadeSource,
)
    requires
        deps.lacks(action.hashed.hash@),
        deps.states[action.hashed.hash@].dependency_type is Action,
        again.hashed.hash@ == action.hashed.hash@,
    ensures
        ({
            let h = action.hashed.hash@;
            let after = deps.after_insert_action(action, source);
            &&& after.holds(h)
            &&& after.states[h].dependency == Some(
                ValidationDependency {
                    value: ValidationDependencyValue::Action(action),
                    fetched_from: source,
                },
            )
            &&& after.states[h].retry is None
            &&& after.after_insert_action(again, other_source) == after
        }),
{
    let after = deps.after_insert_action(action, source);
    assert(after.after_insert_action(again, other_source).retained =~= after.retained);
}

/// A warranted action that is inserted for a missing warranted dependency is pending validation,
/// and once a status has been given, both are read back. A second status changes nothing.
pub proof fn law_a_warranted_action_is_read_back_with_its_status<A>(
    deps: DependenciesView<A>,
    action: SignedActionHashed<A>,
    op_type: ChainOpType,
    source: CascadeSource,
    status: ValidationStatus,
    second: ValidationStatus,
)
    requires
        deps.lacks(action.hashed.hash@),
        deps.states[action.hashed.hash@].dependency_type is Warranted,
    ensures
        ({
            let h = action.hashed.hash@;
            let inserted = deps.after_insert_warranted(action, op_type, source);
            let validated = inserted.after_validated(h, status);
            &&& inserted.pending_warrants().contains(h)
            &&& inserted.states[h].dependency == Some(
                ValidationDependency {
                    value: ValidationDependencyValue::Warranted(
                        WarrantedDep::Pending(action, op_type),
                    ),
                    fetched_from: source,
                },
            )
            &&& inserted.states[h].retry is None
            &&& !validated.pending_warrants().contains(h)
            &&& validated.states[h].dependency == Some(
                ValidationDependency {
                    value: ValidationDependencyValue::Warranted(
                        WarrantedDep::Validated(action, status),
                    ),
                    fetched_from: source,
                },
            )
            &&& validated.after_validated(h, second) == validated
        }),
{
    let h = action.hashed.hash@;
    let inserted = deps.after_insert_warranted(action, op_type, source);
    let validated = inserted.after_validated(h, status);
    assert(validated.after_validated(h, second).states =~= validated.states);
    assert(validated.after_validated(h, second).retained =~= validated.retained);
}

/// What is offered for a dependency of the other kind is not taken: the dependency stays missing,
/// on its retry schedule.
pub proof fn law_the_wrong_kind_is_not_taken<A>(
    deps: DependenciesView<A>,
    action: SignedActionHashed<A>,
    op_type: ChainOpType,
    source: CascadeSource,
)
    requires
        deps.lacks(action.hashed.hash@),
    ensures
        deps.states[action.hashed.hash@].dependency_type is Warranted
            ==> deps.after_insert_action(action, source).states == deps.states,
        deps.states[action.hashed.hash@].dependency_type is Action ==> deps.after_insert_warranted(
            action,
            op_type,
            source,
        ).states == deps.states,
{
    if deps.states[action.hashed.hash@].dependency_type is Warranted {
        assert(deps.after_insert_action(action, source).states =~= deps.states);
    } else {
        assert(deps.after_insert_warranted(action, op_type, source).states =~= deps.states);
    }
}

/// Two sets know the same dependencies, and agree on all of them but one.
pub open spec fn same_but_for<A>(
    before: DependenciesView<A>,
    after: DependenciesView<A>,
    h: Seq<u8>,
) -> bool {
    &&& after.states.dom() == before.states.dom()
    &&& forall|other: Seq<u8>|
        other != h && #[trigger] before.states.contains_key(other) ==> after.states[other]
            == before.states[other]
}

/// An operation on one dependency leaves every other dependency as it was, and neither adds nor
/// drops any. In particular a miss never drops a dependency.
pub proof fn law_operations_touch_one_dependency<A>(
    deps: DependenciesView<A>,
    h: Seq<u8>,
    action: SignedActionHashed<A>,
    op_type: ChainOpType,
    source: CascadeSource,
    status: ValidationStatus,
    now: nat,
    base: nat,
    r: int,
)
    ensures
        same_but_for(deps, deps.retaining(h), h),
        same_but_for(deps, deps.after_local_miss(h, now, base, r), h),
        same_but_for(deps, deps.after_network_miss(h, now, base, r), h),
        same_but_for(deps, deps.after_validated(h, status), h),
        same_but_for(deps, deps.after_insert_action(action, source), action.hashed.hash@),
        same_but_for(
            deps,
            deps.after_insert_warranted(action, op_type, source),
            action.hashed.hash@,
        ),
{
    assert(deps.states.contains_key(h) ==> deps.states.dom().insert(h) =~= deps.states.dom());
    let g = action.hashed.hash@;
    assert(deps.states.contains_key(g) ==> deps.states.dom().insert(g) =~= deps.states.dom());
}

/// A missed dependency stays missing, and what it is needed for stays the same.
pub proof fn law_a_miss_decides_nothing<A>(
    deps: DependenciesView<A>,
    h: Seq<u8>,
    now: nat,
    base: nat,
    r: int,
)
    requires
        deps.lacks(h),
    ensures
        ({
            let local = deps.after_local_miss(h, now, base, r);
            &&& local.lacks(h)
            &&& local.states[h].dependency_type == deps.states[h].dependency_type
            &&& local.missing() == deps.missing()
        }),
        ({
            let network = deps.after_network_miss(h, now, base, r);
            &&& network.lacks(h)
            &&& network.states[h].dependency_type == deps.states[h].dependency_type
            &&& network.missing() == deps.missing()
        }),
{
    assert(deps.after_local_miss(h, now, base, r).missing() =~= deps.missing());
    assert(deps.after_network_miss(h, now, base, r).missing() =~= deps.missing());
}

/// A dependency that has just been found to be missing is looked for at once, locally and on the
/// network.
pub proof fn law_a_pending_dependency_is_looked_for_at_once<A>(
    deps: DependenciesView<A>,
    h: Seq<u8>,
    dependency_type: ValidationDependencyType,
    now: nat,
)
    requires
        deps.states.contains_key(h),
        deps.states[h] == DependencyView::<A>::pending(dependency_type, now),
    ensures
        deps.needs_local_recheck(h, now),
        deps.due_for_fetch(now).contains(h),
        deps.missing().contains(h),
        !deps.unfetchable().contains(h),
{
}

/// A dependency that is held is neither looked for nor counted as missing.
pub proof fn law_a_held_dependency_is_not_looked_for<A>(
    deps: DependenciesView<A>,
    h: Seq<u8>,
    now: nat,
)
    requires
        deps.holds(h),
    ensures
        !deps.needs_local_recheck(h, now),
        !deps.due_for_fetch(now).contains(h),
        !deps.missing().contains(h),
        !deps.unfetchable().contains(h),
{
}

/// Only missing dependencies are fetched or unfetchable, so there are never more unfetchable
/// dependencies than missing ones.
pub proof fn law_unfetchable_dependencies_are_missing<A>(deps: DependenciesView<A>, now: nat)
    requires
        deps.wf(),
    ensures
        deps.unfetchable().subset_of(deps.missing()),
        deps.due_for_fetch(now).subset_of(deps.missing()),
        deps.unfetchable().len() <= deps.missing().len(),
        deps.missing().finite(),
{
    vstd::set_lib::lemma_len_subset(deps.missing(), deps.states.dom());
    vstd::set_lib::lemma_len_subset(deps.unfetchable(), deps.missing());
}

/// Whatever either of two sets holds, the merged set holds; what either knows, the merged set knows
/// and counts as accessed if the other set brought it.
pub proof fn law_merge_loses_nothing<A>(
    ours: DependenciesView<A>,
    theirs: DependenciesView<A>,
    h: Seq<u8>,
)
    ensures
        ours.merged_with(theirs).holds(h) <==> ours.holds(h) || theirs.holds(h),
        ours.merged_with(theirs).states.contains_key(h) <==> ours.states.contains_key(h)
            || theirs.states.contains_key(h),
        ours.merged_with(theirs).retained.contains(h) <==> ours.retained.contains(h)
            || theirs.states.contains_key(h),
{
}

/// Merging prefers a warranted dependency that is held over an action that is held, on whichever
/// side it is.
pub proof fn law_merge_prefers_warranted_dependencies<A>(
    ours: DependenciesView<A>,
    theirs: DependenciesView<A>,
    h: Seq<u8>,
)
    requires
        ours.holds(h),
        theirs.holds(h),
        ours.states[h].dependency_type is Warranted || theirs.states[h].dependency_type is Warranted,
    ensures
        ours.merged_with(theirs).states[h].dependency_type is Warranted,
{
}

/// Merging never resets the backoff of a dependency that both sides miss: our schedule stays.
pub proof fn law_merge_keeps_the_backoff<A>(
    ours: DependenciesView<A>,
    theirs: DependenciesView<A>,
    h: Seq<u8>,
)
    requires
        ours.lacks(h),
        !theirs.holds(h),
    ensures
        ours.merged_with(theirs).states[h] == ours.states[h],
{
}

/// Merging the empty set, or a set into itself, changes no state; merging into the empty set copies
/// the states.
pub proof fn law_merge_with_nothing_new<A>(deps: DependenciesView<A>)
    ensures
        deps.merged_with(DependenciesView::<A>::empty()) == deps,
        deps.merged_with(deps).states == deps.states,
        DependenciesView::<A>::empty().merged_with(deps).states == deps.states,
{
    let empty = DependenciesView::<A>::empty();
    assert(deps.merged_with(empty).states =~= deps.states);
    assert(deps.merged_with(empty).retained =~= deps.retained);
    assert(deps.merged_with(deps).states =~= deps.states);
    assert(empty.merged_with(deps).states =~= deps.states);
}

/// Merging the same set a second time changes nothing.
pub proof fn law_merge_is_idempotent<A>(ours: DependenciesView<A>, theirs: DependenciesView<A>)
    ensures
        ours.merged_with(theirs).merged_with(theirs) == ours.merged_with(theirs),
{
    let once = ours.merged_with(theirs);
    assert(once.merged_with(theirs).states =~= once.states);
    assert(once.merged_with(theirs).retained =~= once.retained);
}

/// What a set of dependencies becomes after a sequence of misses of one dependency.
pub open spec fn after_misses<A>(deps: DependenciesView<A>, h: Seq<u8>, misses: Seq<Miss>) -> DependenciesView<
    A,
>
    decreases misses.len(),
{
    if misses.len() == 0 {
        deps
    } else {
        let before = after_misses(deps, h, misses.drop_last());
        match misses.last() {
            Miss::Local { now, base, r } => before.after_local_miss(h, now, base, r),
            Miss::Network { now, base, r } => before.after_network_miss(h, now, base, r),
        }
    }
}

/// How many misses in a sequence of misses of one dependency are reported as the transition to
/// unfetchable.
pub open spec fn reported<A>(deps: DependenciesView<A>, h: Seq<u8>, misses: Seq<Miss>) -> nat
    decreases misses.len(),
{
    if misses.len() == 0 {
        0
    } else {
        let before = misses.drop_last();
        reported(deps, h, before) + match misses.last() {
            Miss::Network { now, .. } => if after_misses(deps, h, before).reports_network_miss(
                h,
                now,
            ) {
                1nat
            } else {
                0
            },
            Miss::Local { .. } => 0,
        }
    }
}

/// However often a dependency is missed after it was found to be missing, it is reported as
/// unfetchable exactly once if its network misses use up the budget and never otherwise; and it
/// stays in the set.
pub proof fn law_a_dependency_is_reported_exactly_once<A>(
    deps: DependenciesView<A>,
    h: Seq<u8>,
    start: nat,
    misses: Seq<Miss>,
)
    requires
        deps.lacks(h),
        deps.states[h].retry == Some(RetryState::fresh(start)),
    ensures
        after_misses(deps, h, misses).lacks(h),
        after_misses(deps, h, misses).states[h].retry == Some(
            run(RetryState::fresh(start), misses),
        ),
        after_misses(deps, h, misses).unfetchable().contains(h) <==> network_count(misses)
            >= UNFETCHABLE_ATTEMPT_BUDGET,
        reported(deps, h, misses) == if network_count(misses) >= UNFETCHABLE_ATTEMPT_BUDGET {
            1nat
        } else {
            0
        },
{
    lemma_misses_follow_the_schedule(deps, h, start, misses);
    law_unfetchable_is_reported_exactly_once(start, misses);
}

proof fn lemma_misses_follow_the_schedule<A>(
    deps: DependenciesView<A>,
    h: Seq<u8>,
    start: nat,
    misses: Seq<Miss>,
)
    requires
        deps.lacks(h),
        deps.states[h].retry == Some(RetryState::fresh(start)),
    ensures
        after_misses(deps, h, misses).lacks(h),
        after_misses(deps, h, misses).states[h].retry == Some(
            run(RetryState::fresh(start), misses),
        ),
        reported(deps, h, misses) == report_count(RetryState::fresh(start), misses),
    decreases misses.len(),
{
    if misses.len() > 0 {
        lemma_misses_follow_the_schedule(deps, h, start, misses.drop_last());
    }
}

/// A dependency that is missing and on a schedule is to be fetched exactly from the next instant of
/// that schedule on, whatever the schedule has counted.
pub proof fn law_fetches_follow_the_schedule<A>(
    deps: DependenciesView<A>,
    h: Seq<u8>,
    schedule: RetryState,
    now: nat,
)
    requires
        deps.states.contains_key(h),
        deps.states[h].dependency is None,
        deps.states[h].retry == Some(schedule),
    ensures
        deps.due_for_fetch(now).contains(h) <==> now >= schedule.next_network_attempt,
        deps.needs_local_recheck(h, now) <==> now >= schedule.next_local_recheck,
{
}

/// After any sequence of misses of a dependency, unfetchable or not, it is to be fetched again an hour
/// after the last network miss, whatever local misses came later.
pub proof fn law_a_dependency_is_fetched_again<A>(
    deps: DependenciesView<A>,
    h: Seq<u8>,
    misses: Seq<Miss>,
    last: int,
    later: nat,
)
    requires
        deps.states.contains_key(h),
        deps.states[h].dependency is None,
        0 <= last < misses.len(),
        misses[last] matches Miss::Network { now, .. } && later >= now + 3_600_000_000_000,
        forall|i: int| last < i < misses.len() ==> #[trigger] misses[i] is Local,
    ensures
        after_misses(deps, h, misses).due_for_fetch(later).contains(h),
{
    lemma_scheduled_within_the_hour(deps, h, misses, last);
}

proof fn lemma_still_missing<A>(deps: DependenciesView<A>, h: Seq<u8>, misses: Seq<Miss>)
    requires
        deps.lacks(h),
    ensures
        after_misses(deps, h, misses).lacks(h),
    decreases misses.len(),
{
    if misses.len() > 0 {
        lemma_still_missing(deps, h, misses.drop_last());
    }
}

proof fn lemma_scheduled_within_the_hour<A>(
    deps: DependenciesView<A>,
    h: Seq<u8>,
    misses: Seq<Miss>,
    last: int,
)
    requires
        deps.lacks(h),
        0 <= last < misses.len(),
        misses[last] is Network,
        forall|i: int| last < i < misses.len() ==> #[trigger] misses[i] is Local,
    ensures
        after_misses(deps, h, misses).lacks(h),
        after_misses(deps, h, misses).states[h].retry matches Some(schedule)
            && schedule.next_network_attempt <= misses[last]->Network_now + 3_600_000_000_000,
    decreases misses.len(),
{
    let earlier = misses.drop_last();
    lemma_still_missing(deps, h, earlier);
    if last < misses.len() - 1 {
        assert(misses[misses.len() - 1] is Local);
        assert forall|i: int| last < i < earlier.len() implies #[trigger] earlier[i] is Local by {
            assert(earlier[i] == misses[i]);
        }
        lemma_scheduled_within_the_hour(deps, h, earlier, last);
    }
}

} // verus!
