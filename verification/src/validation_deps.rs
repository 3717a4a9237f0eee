//! The dependencies of the ops that await validation.

use crate::action_hash::{ActionHash, ActionMap};
use crate::missing_dep_backoff::{
    random_jitter, MissingDepRetry, RetryState, JITTER_ONE, MAX_LOCAL_RECHECK_SECS,
    MAX_NETWORK_RETRY_SECS,
};
use crate::time::{Duration, Instant, NANOS_PER_SEC};
use vstd::prelude::*;

verus! {

/// The kinds of op that a chain action gives rise to.
#[derive(Clone, Copy, Debug, PartialEq, Eq, Structural)]
pub enum ChainOpType {
    /// Store the record.
    StoreRecord,
    /// Store the entry.
    StoreEntry,
    /// Register the action with its author's activity.
    RegisterAgentActivity,
    /// Register an update with the entry that it updates.
    RegisterUpdatedContent,
    /// Register an update with the record that it updates.
    RegisterUpdatedRecord,
    /// Register a delete with the action that it deletes.
    RegisterDeletedBy,
    /// Register a delete with the entry whose creation it deletes.
    RegisterDeletedEntryAction,
    /// Register a link with its base.
    RegisterAddLink,
    /// Register the removal of a link with its base.
    RegisterRemoveLink,
}

/// What validation has found of an op.
#[derive(Clone, Copy, Debug, PartialEq, Eq, Structural)]
pub enum ValidationStatus {
    /// The op is valid.
    Valid,
    /// The op is invalid.
    Rejected,
    /// Validation was given up.
    Abandoned,
}

/// Where data was found.
#[derive(Clone, Copy, Debug, PartialEq, Eq, Structural)]
pub enum CascadeSource {
    /// In the local databases.
    Local,
    /// On the network.
    Network,
}

/// An action together with its hash.
#[derive(Clone, Debug)]
pub struct ActionHashed<A> {
    /// The action.
    pub content: A,
    /// The hash of the action.
    pub hash: ActionHash,
}

/// An action together with its hash and its author's signature.
#[derive(Clone, Debug)]
pub struct SignedActionHashed<A> {
    /// The action and its hash.
    pub hashed: ActionHashed<A>,
    /// The signature.
    pub signature: Vec<u8>,
}

impl<A> SignedActionHashed<A> {
    /// The hash of the action.
    pub fn as_hash(&self) -> (hash: &ActionHash)
        ensures
            *hash == self.hashed.hash,
    {
        &self.hashed.hash
    }
}

/// What kind of dependency is needed.
#[derive(Clone, Copy, Debug, PartialEq, Eq, Structural)]
pub enum ValidationDependencyType {
    /// An action.
    Action,
    /// An action that a warrant is about, with the op in question.
    Warranted(ChainOpType),
}

/// An action that a warrant is about.
#[derive(Clone, Debug)]
pub enum WarrantedDep<A> {
    /// The op has not been validated yet.
    Pending(SignedActionHashed<A>, ChainOpType),
    /// The op has been validated.
    Validated(SignedActionHashed<A>, ValidationStatus),
}

/// A dependency that has been found.
#[derive(Clone, Debug)]
pub enum ValidationDependencyValue<A> {
    /// An action.
    Action(SignedActionHashed<A>),
    /// An action that a warrant is about.
    Warranted(WarrantedDep<A>),
}

/// A dependency that has been found, and where.
#[derive(Clone, Debug)]
pub struct ValidationDependency<A> {
    /// The dependency.
    pub value: ValidationDependencyValue<A>,
    /// Where it was found.
    pub fetched_from: CascadeSource,
}

/// The signed action that a dependency consists of.
pub open spec fn signed_action<A>(value: ValidationDependencyValue<A>) -> SignedActionHashed<A> {
    match value {
        ValidationDependencyValue::Action(a) => a,
        ValidationDependencyValue::Warranted(WarrantedDep::Pending(a, _)) => a,
        ValidationDependencyValue::Warranted(WarrantedDep::Validated(a, _)) => a,
    }
}

/// What a [`ValidationDependencyState`] stands for.
pub struct DependencyView<A> {
    /// The kind of dependency.
    pub dependency_type: ValidationDependencyType,
    /// The dependency, if it has been found.
    pub dependency: Option<ValidationDependency<A>>,
    /// The retry schedule of a dependency that has not been found.
    pub retry: Option<RetryState>,
}

impl<A> DependencyView<A> {
    /// What holds of every state: a retry schedule is there exactly as long as the dependency has
    /// not been found, and what has been found is of the kind that was looked for.
    pub open spec fn wf(self) -> bool {
        &&& self.dependency is None <==> self.retry is Some
        &&& self.retry matches Some(retry) ==> retry.wf()
        &&& self.dependency matches Some(d) ==> (d.value is Warranted <==> self.dependency_type
            is Warranted)
    }

    /// A dependency that is at hand from the start.
    pub open spec fn present(value: ValidationDependencyValue<A>, source: CascadeSource) -> Self {
        DependencyView {
            dependency_type: match value {
                ValidationDependencyValue::Warranted(
                    WarrantedDep::Pending(_, op_type),
                ) => ValidationDependencyType::Warranted(op_type),
                _ => ValidationDependencyType::Action,
            },
            dependency: Some(ValidationDependency { value, fetched_from: source }),
            retry: None,
        }
    }

    /// A dependency that was found to be missing at `now`.
    pub open spec fn pending(dependency_type: ValidationDependencyType, now: nat) -> Self {
        DependencyView {
            dependency_type,
            dependency: None,
            retry: Some(RetryState::fresh(now)),
        }
    }

    /// This state once `value` has been found.
    pub open spec fn found(self, value: ValidationDependencyValue<A>, source: CascadeSource) -> Self {
        DependencyView {
            dependency: Some(ValidationDependency { value, fetched_from: source }),
            retry: None,
            ..self
        }
    }

    /// This state after an action was offered for it. Only an action dependency that is missing
    /// takes it.
    pub open spec fn with_action(self, action: SignedActionHashed<A>) -> Self {
        if self.dependency_type is Action && self.dependency is None {
            self.found(ValidationDependencyValue::Action(action), CascadeSource::Network)
        } else {
            self
        }
    }

    /// This state after a warranted action was offered for it. Only a warranted dependency that is
    /// missing takes it.
    pub open spec fn with_pending_warranted(
        self,
        action: SignedActionHashed<A>,
        op_type: ChainOpType,
    ) -> Self {
        if self.dependency_type is Warranted && self.dependency is None {
            self.found(
                ValidationDependencyValue::Warranted(WarrantedDep::Pending(action, op_type)),
                CascadeSource::Network,
            )
        } else {
            self
        }
    }

    /// This state after a validation status was offered for it. Only a warranted dependency that
    /// is pending validation takes it.
    pub open spec fn with_validation_status(self, status: ValidationStatus) -> Self {
        match self.dependency {
            Some(
                ValidationDependency {
                    value: ValidationDependencyValue::Warranted(WarrantedDep::Pending(action, _)),
                    fetched_from,
                },
            ) => if self.dependency_type is Warranted {
                DependencyView {
                    dependency: Some(
                        ValidationDependency {
                            value: ValidationDependencyValue::Warranted(
                                WarrantedDep::Validated(action, status),
                            ),
                            fetched_from,
                        },
                    ),
                    ..self
                }
            } else {
                self
            },
            _ => self,
        }
    }

    /// This state with another source for its dependency, if that has been found.
    pub open spec fn with_source(self, source: CascadeSource) -> Self {
        match self.dependency {
            Some(d) => DependencyView {
                dependency: Some(ValidationDependency { fetched_from: source, ..d }),
                ..self
            },
            None => self,
        }
    }

    /// The retry schedule, or one that starts at `now` if there is none.
    pub open spec fn retry_from(self, now: nat) -> RetryState {
        match self.retry {
            Some(retry) => retry,
            None => RetryState::fresh(now),
        }
    }

    /// This state after a local search at `now` came back empty.
    pub open spec fn after_local_miss(self, now: nat, base: nat, r: int) -> Self {
        if self.dependency is None {
            DependencyView {
                retry: Some(self.retry_from(now).after_local_miss(now, base, r)),
                ..self
            }
        } else {
            self
        }
    }

    /// This state after a network fetch at `now` came back empty.
    pub open spec fn after_network_miss(self, now: nat, base: nat, r: int) -> Self {
        if self.dependency is None {
            DependencyView {
                retry: Some(self.retry_from(now).after_network_miss(now, base, r)),
                ..self
            }
        } else {
            self
        }
    }

    /// Whether one more network miss is the transition to unfetchable that has to be reported.
    pub open spec fn reports_network_miss(self, now: nat) -> bool {
        self.dependency is None && self.retry_from(now).reports_network_miss()
    }

    /// Whether the dependency is missing and the network should be asked for it at `now`.
    pub open spec fn due_for_network_fetch(self, now: nat) -> bool {
        self.dependency is None && (self.retry matches Some(retry) ==> retry.due_for_network_fetch(
            now,
        ))
    }

    /// Whether the dependency is missing and the local databases should be searched at `now`.
    pub open spec fn due_for_local_recheck(self, now: nat) -> bool {
        self.dependency is None && (self.retry matches Some(retry) ==> retry.due_for_local_recheck(
            now,
        ))
    }

    /// Whether the dependency is missing and unfetchable.
    pub open spec fn unfetchable(self) -> bool {
        self.dependency is None && (self.retry matches Some(retry) && retry.unfetchable())
    }

    /// Whether the dependency is a warranted one that is pending validation.
    pub open spec fn pending_warrant(self) -> bool {
        &&& self.dependency_type is Warranted
        &&& self.dependency matches Some(d)
        &&& d.value matches ValidationDependencyValue::Warranted(WarrantedDep::Pending(_, _))
    }
}

/// The state of one dependency.
#[derive(Clone, Debug)]
pub struct ValidationDependencyState<A> {
    /// The kind of dependency.
    dependency_type: ValidationDependencyType,
    /// The dependency, if it has been found.
    dependency: Option<ValidationDependency<A>>,
    /// The retry schedule of a dependency that has not been found. `None` once it is held.
    retry: Option<MissingDepRetry>,
}

impl<A> View for ValidationDependencyState<A> {
    type V = DependencyView<A>;

    closed spec fn view(&self) -> DependencyView<A> {
        DependencyView {
            dependency_type: self.dependency_type,
            dependency: self.dependency,
            retry: match self.retry {
                Some(retry) => Some(retry@),
                None => None,
            },
        }
    }
}

impl<A> ValidationDependencyState<A> {
    /// A dependency that is at hand from the start. It is not a warranted one that has been
    /// validated already.
    pub fn new_present(value: ValidationDependencyValue<A>, fetched_from: CascadeSource) -> (state:
        Self)
        requires
            !(value matches ValidationDependencyValue::Warranted(WarrantedDep::Validated(_, _))),
        ensures
            state@ == DependencyView::present(value, fetched_from),
            state@.wf(),
    {
        let dependency_type = match &value {
            ValidationDependencyValue::Warranted(
                WarrantedDep::Pending(_, op_type),
            ) => ValidationDependencyType::Warranted(*op_type),
            _ => ValidationDependencyType::Action,
        };
        Self {
            dependency_type,
            dependency: Some(ValidationDependency { value, fetched_from }),
            retry: None,
        }
    }

    /// A dependency that was found to be missing at `now`.
    pub fn new_pending(dependency_type: ValidationDependencyType, now: Instant) -> (state: Self)
        ensures
            state@ == DependencyView::<A>::pending(dependency_type, now@),
            state@.wf(),
    {
        Self { dependency_type, dependency: None, retry: Some(MissingDepRetry::new(now)) }
    }

    /// Provide the missing action of an action dependency.
    ///
    /// Nothing changes if another kind of dependency is needed, or if it has been found before.
    pub fn set_action_dep(&mut self, action: SignedActionHashed<A>)
        ensures
            final(self)@ == old(self)@.with_action(action),
    {
        if let ValidationDependencyType::Action = self.dependency_type {
            if self.dependency.is_none() {
                self.dependency = Some(
                    ValidationDependency {
                        value: ValidationDependencyValue::Action(action),
                        fetched_from: CascadeSource::Network,
                    },
                );
                // Found: it is no longer on a retry schedule.
                self.retry = None;
            }
        }
    }

    /// Provide the missing action of a warranted dependency, which is then pending validation.
    ///
    /// Nothing changes if another kind of dependency is needed, or if it has been found before.
    pub fn set_pending_validation_warranted(
        &mut self,
        action: SignedActionHashed<A>,
        op_type: ChainOpType,
    )
        ensures
            final(self)@ == old(self)@.with_pending_warranted(action, op_type),
    {
        if let ValidationDependencyType::Warranted(_) = self.dependency_type {
            if self.dependency.is_none() {
                self.dependency = Some(
                    ValidationDependency {
                        value: ValidationDependencyValue::Warranted(
                            WarrantedDep::Pending(action, op_type),
                        ),
                        fetched_from: CascadeSource::Network,
                    },
                );
                // Found: it is no longer on a retry schedule.
                self.retry = None;
            }
        }
    }

    /// Set the validation status of a warranted dependency that has now been validated.
    ///
    /// Nothing changes unless the dependency is a warranted one that is pending validation.
    pub fn set_validation_status_for_warranted(&mut self, validation_status: ValidationStatus)
        ensures
            final(self)@ == old(self)@.with_validation_status(validation_status),
    {
        if let ValidationDependencyType::Warranted(_) = self.dependency_type {
            match self.dependency.take() {
                Some(
                    ValidationDependency {
                        value: ValidationDependencyValue::Warranted(WarrantedDep::Pending(action, _)),
                        fetched_from,
                    },
                ) => {
                    self.dependency = Some(
                        ValidationDependency {
                            value: ValidationDependencyValue::Warranted(
                                WarrantedDep::Validated(action, validation_status),
                            ),
                            fetched_from,
                        },
                    );
                },
                other => {
                    self.dependency = other;
                },
            }
        }
    }

    /// Set where the dependency was found. Nothing changes if it has not been found.
    fn set_source(&mut self, new_source: CascadeSource)
        ensures
            final(self)@ == old(self)@.with_source(new_source),
    {
        match self.dependency.take() {
            Some(d) => {
                self.dependency = Some(
                    ValidationDependency { value: d.value, fetched_from: new_source },
                );
            },
            None => {},
        }
    }

    /// The action, if the dependency has been found.
    pub fn as_action(&self) -> (action: Option<&A>)
        ensures
            match action {
                Some(a) => self@.dependency matches Some(d) && *a == signed_action(
                    d.value,
                ).hashed.content,
                None => self@.dependency is None,
            },
    {
        match self.as_signed_action() {
            Some(a) => Some(&a.hashed.content),
            None => None,
        }
    }

    /// The signed action, if the dependency has been found.
    ///
    /// Unlike [`Self::as_action`], this keeps the hash and the signature attached.
    pub fn as_signed_action(&self) -> (action: Option<&SignedActionHashed<A>>)
        ensures
            match action {
                Some(a) => self@.dependency matches Some(d) && *a == signed_action(d.value),
                None => self@.dependency is None,
            },
    {
        match &self.dependency {
            Some(d) => Some(
                match &d.value {
                    ValidationDependencyValue::Action(a) => a,
                    ValidationDependencyValue::Warranted(WarrantedDep::Pending(a, _)) => a,
                    ValidationDependencyValue::Warranted(WarrantedDep::Validated(a, _)) => a,
                },
            ),
            None => None,
        }
    }

    /// The signed action and the validation status, if the dependency is a warranted one that has
    /// been validated.
    pub fn as_signed_action_and_validation_status(&self) -> (found: Option<
        (&SignedActionHashed<A>, ValidationStatus),
    >)
        ensures
            match found {
                Some((a, status)) => self@.dependency matches Some(d) && d.value
                    == ValidationDependencyValue::Warranted(WarrantedDep::Validated(*a, status)),
                None => !(self@.dependency matches Some(d) && d.value
                    matches ValidationDependencyValue::Warranted(WarrantedDep::Validated(_, _))),
            },
    {
        match &self.dependency {
            Some(d) => match &d.value {
                ValidationDependencyValue::Warranted(
                    WarrantedDep::Validated(a, validation_status),
                ) => Some((a, *validation_status)),
                _ => None,
            },
            None => None,
        }
    }

    /// Where the dependency was found, if it has been found.
    pub fn source(&self) -> (source: Option<CascadeSource>)
        ensures
            source == match self@.dependency {
                Some(d) => Some(d.fetched_from),
                None => None,
            },
    {
        match &self.dependency {
            Some(d) => Some(d.fetched_from),
            None => None,
        }
    }

    /// Advance the local re-check schedule of a missing dependency.
    fn record_local_miss(&mut self, now: Instant, base: Duration, r: i64)
        requires
            old(self)@.dependency is None ==> now@ + MAX_LOCAL_RECHECK_SECS * NANOS_PER_SEC
                <= Instant::latest(),
        ensures
            final(self)@ == old(self)@.after_local_miss(now@, base@, r as int),
    {
        if self.dependency.is_none() {
            let mut retry = match self.retry.take() {
                Some(retry) => retry,
                None => MissingDepRetry::new(now),
            };
            retry.record_local_miss_with_jitter(now, base, r);
            self.retry = Some(retry);
        }
    }

    /// Advance the network fetch schedule of a missing dependency.
    fn record_network_miss(&mut self, now: Instant, base: Duration, r: i64) -> (report: bool)
        requires
            old(self)@.dependency is None ==> now@ + MAX_NETWORK_RETRY_SECS * NANOS_PER_SEC
                <= Instant::latest(),
        ensures
            final(self)@ == old(self)@.after_network_miss(now@, base@, r as int),
            report == old(self)@.reports_network_miss(now@),
    {
        if self.dependency.is_none() {
            let mut retry = match self.retry.take() {
                Some(retry) => retry,
                None => MissingDepRetry::new(now),
            };
            let report = retry.record_network_miss_with_jitter(now, base, r);
            self.retry = Some(retry);
            report
        } else {
            false
        }
    }
}

/// What a [`ValidationDependencies`] stands for. Dependencies are keyed by their hashes.
pub struct DependenciesView<A> {
    /// The state of each dependency that is known.
    pub states: Map<Seq<u8>, DependencyView<A>>,
    /// The dependencies that have been accessed, known or not.
    pub retained: Set<Seq<u8>>,
}

/// Whether merging replaces our state of a dependency by theirs: it does if only theirs has been
/// found, or if both have been found and theirs is a warranted dependency where ours is an action.
pub open spec fn merge_takes<A>(ours: DependencyView<A>, theirs: DependencyView<A>) -> bool {
    theirs.dependency is Some && (ours.dependency is None || (ours.dependency_type is Action
        && theirs.dependency_type is Warranted))
}

/// The state that a dependency has after two sets were merged that both know it.
pub open spec fn merged<A>(ours: DependencyView<A>, theirs: DependencyView<A>) -> DependencyView<A> {
    if merge_takes(ours, theirs) {
        theirs
    } else {
        ours
    }
}

/// `list` names each member of `keys` once, and nothing else.
pub open spec fn enumerates(list: Seq<Seq<u8>>, keys: Set<Seq<u8>>) -> bool {
    list.no_duplicates() && list.to_set() == keys
}

impl<A> DependenciesView<A> {
    /// What holds of every set of dependencies: it is finite, and so does what holds of every state.
    pub open spec fn wf(self) -> bool {
        &&& self.states.dom().finite()
        &&& forall|h: Seq<u8>| #[trigger] self.states.contains_key(h) ==> self.states[h].wf()
    }

    /// No dependencies at all.
    pub open spec fn empty() -> Self {
        DependenciesView { states: Map::empty(), retained: Set::empty() }
    }

    /// Whether a dependency has been found.
    pub open spec fn holds(self, h: Seq<u8>) -> bool {
        self.states.contains_key(h) && self.states[h].dependency is Some
    }

    /// Whether a dependency is known and has not been found.
    pub open spec fn lacks(self, h: Seq<u8>) -> bool {
        self.states.contains_key(h) && self.states[h].dependency is None
    }

    /// The dependencies that are missing.
    pub open spec fn missing(self) -> Set<Seq<u8>> {
        self.states.dom().filter(|h: Seq<u8>| self.states[h].dependency is None)
    }

    /// The dependencies that are missing and unfetchable.
    pub open spec fn unfetchable(self) -> Set<Seq<u8>> {
        self.states.dom().filter(|h: Seq<u8>| self.states[h].unfetchable())
    }

    /// The dependencies for which the network should be asked at `now`.
    pub open spec fn due_for_fetch(self, now: nat) -> Set<Seq<u8>> {
        self.states.dom().filter(|h: Seq<u8>| self.states[h].due_for_network_fetch(now))
    }

    /// The warranted dependencies that are pending validation.
    pub open spec fn pending_warrants(self) -> Set<Seq<u8>> {
        self.states.dom().filter(|h: Seq<u8>| self.states[h].pending_warrant())
    }

    /// Whether the local databases should be searched for a dependency at `now`: it has never been
    /// looked for, or it is missing and its re-check is due.
    pub open spec fn needs_local_recheck(self, h: Seq<u8>, now: nat) -> bool {
        !self.states.contains_key(h) || self.states[h].due_for_local_recheck(now)
    }

    /// This set after a dependency was accessed.
    pub open spec fn retaining(self, h: Seq<u8>) -> Self {
        DependenciesView { retained: self.retained.insert(h), ..self }
    }

    /// This set with another state for a dependency.
    pub open spec fn updated(self, h: Seq<u8>, state: DependencyView<A>) -> Self {
        DependenciesView { states: self.states.insert(h, state), ..self }
    }

    /// This set after a local search for a dependency came back empty at `now`.
    pub open spec fn after_local_miss(self, h: Seq<u8>, now: nat, base: nat, r: int) -> Self {
        if self.lacks(h) {
            self.updated(h, self.states[h].after_local_miss(now, base, r))
        } else {
            self
        }
    }

    /// This set after a network fetch for a dependency came back empty at `now`.
    pub open spec fn after_network_miss(self, h: Seq<u8>, now: nat, base: nat, r: int) -> Self {
        if self.lacks(h) {
            self.updated(h, self.states[h].after_network_miss(now, base, r))
        } else {
            self
        }
    }

    /// Whether one more network miss of a dependency has to be reported.
    pub open spec fn reports_network_miss(self, h: Seq<u8>, now: nat) -> bool {
        self.lacks(h) && self.states[h].reports_network_miss(now)
    }

    /// This set after an action was offered for the dependency with its hash.
    pub open spec fn after_insert_action(
        self,
        action: SignedActionHashed<A>,
        source: CascadeSource,
    ) -> Self {
        let h = action.hashed.hash@;
        let retaining = self.retaining(h);
        if self.lacks(h) {
            retaining.updated(h, self.states[h].with_action(action).with_source(source))
        } else {
            retaining
        }
    }

    /// This set after a warranted action was offered for the dependency with its hash.
    pub open spec fn after_insert_warranted(
        self,
        action: SignedActionHashed<A>,
        op_type: ChainOpType,
        source: CascadeSource,
    ) -> Self {
        let h = action.hashed.hash@;
        let retaining = self.retaining(h);
        if self.lacks(h) {
            retaining.updated(
                h,
                self.states[h].with_pending_warranted(action, op_type).with_source(source),
            )
        } else {
            retaining
        }
    }

    /// This set after a dependency was offered a validation status.
    pub open spec fn after_validated(self, h: Seq<u8>, status: ValidationStatus) -> Self {
        let retaining = self.retaining(h);
        if self.holds(h) {
            retaining.updated(h, self.states[h].with_validation_status(status))
        } else {
            retaining
        }
    }

    /// This set without the memory of what has been accessed.
    pub open spec fn forgetting(self) -> Self {
        DependenciesView { retained: Set::empty(), ..self }
    }

    /// This set without the dependencies that have not been accessed.
    pub open spec fn purged(self) -> Self {
        DependenciesView { states: self.states.restrict(self.retained), ..self }
    }

    /// This set after another was merged into it. What the other knows counts as accessed.
    pub open spec fn merged_with(self, other: Self) -> Self {
        DependenciesView {
            states: Map::new(
                |h: Seq<u8>| self.states.contains_key(h) || other.states.contains_key(h),
                |h: Seq<u8>|
                    if !other.states.contains_key(h) {
                        self.states[h]
                    } else if !self.states.contains_key(h) {
                        other.states[h]
                    } else {
                        merged(self.states[h], other.states[h])
                    },
            ),
            retained: self.retained.union(other.states.dom()),
        }
    }
}

/// The states that a list of entries gives. Of two entries for one dependency the later one counts.
pub open spec fn states_of<A>(entries: Seq<(ActionHash, ValidationDependencyState<A>)>) -> Map<
    Seq<u8>,
    DependencyView<A>,
>
    decreases entries.len(),
{
    if entries.len() == 0 {
        Map::empty()
    } else {
        states_of(entries.drop_last()).insert(entries.last().0@, entries.last().1@)
    }
}

/// A pending warranted dependency is listed with the hash of its action and its op.
pub open spec fn pending_as_listed<A>(state: DependencyView<A>, item: (ActionHash, ChainOpType)) -> bool {
    match state.dependency {
        Some(d) => match d.value {
            ValidationDependencyValue::Warranted(WarrantedDep::Pending(action, op_type)) => {
                &&& item.0 == action.hashed.hash
                &&& item.1 == op_type
            },
            _ => false,
        },
        None => false,
    }
}

/// A count of the dependencies that validation is waiting for.
#[derive(Clone, Copy, Debug, PartialEq, Eq, Structural)]
pub struct MissingDependencyCounts {
    /// Dependencies that are not held locally.
    pub missing: usize,
    /// Those among them that have failed often enough to be reported as unfetchable.
    pub unfetchable: usize,
}

impl Default for MissingDependencyCounts {
    fn default() -> (counts: Self)
        ensures
            counts.missing == 0,
            counts.unfetchable == 0,
    {
        MissingDependencyCounts { missing: 0, unfetchable: 0 }
    }
}

/// The dependencies of the ops that currently require validation.
///
/// This is a cache in memory that is held across all passes of the validation workflow, so that few
/// network and database calls are needed to see whether the dependencies have been satisfied.
pub struct ValidationDependencies<A> {
    /// The state of each dependency.
    states: ActionMap<ValidationDependencyState<A>>,
    /// The dependencies that have been accessed. What is not among them is no longer needed and
    /// can be dropped.
    retained_deps: ActionMap<()>,
}

impl<A> View for ValidationDependencies<A> {
    type V = DependenciesView<A>;

    closed spec fn view(&self) -> DependenciesView<A> {
        DependenciesView {
            states: self.states@.map_values(|state: ValidationDependencyState<A>| state@),
            retained: self.retained_deps@.dom(),
        }
    }
}

impl<A> Default for ValidationDependencies<A> {
    fn default() -> (deps: Self)
        ensures
            deps.wf(),
            deps@ == DependenciesView::<A>::empty(),
    {
        Self::new()
    }
}

impl<A> ValidationDependencies<A> {
    /// Both tables are in order.
    pub closed spec fn wf(&self) -> bool {
        &&& self.states.wf()
        &&& self.retained_deps.wf()
    }

    /// Where both tables are in order, finitely many dependencies are known, and finitely many have
    /// been accessed.
    pub proof fn lemma_wf(&self)
        requires
            self.wf(),
        ensures
            self@.states.dom().finite(),
            self@.retained.finite(),
    {
        self.states.lemma_keys();
        self.retained_deps.lemma_keys();
        assert(self@.states.dom() =~= self.states@.dom());
    }

    /// No dependencies.
    pub fn new() -> (deps: Self)
        ensures
            deps.wf(),
            deps@ == DependenciesView::<A>::empty(),
    {
        let deps = Self { states: ActionMap::new(), retained_deps: ActionMap::new() };
        assert(deps@.states =~= Map::<Seq<u8>, DependencyView<A>>::empty());
        assert(deps@.retained =~= Set::<Seq<u8>>::empty());
        deps
    }

    /// Mark a dependency as accessed.
    fn retain(&mut self, hash: &ActionHash)
        requires
            old(self).wf(),
        ensures
            final(self).wf(),
            final(self)@ == old(self)@.retaining(hash@),
            final(self).states == old(self).states,
    {
        self.retained_deps.insert(*hash, ());
        assert(self@.retained =~= old(self)@.retained.insert(hash@));
    }

    /// Check whether a dependency is held, and mark it as accessed.
    ///
    /// A dependency can be known without being held: that is how it is tracked what has to be
    /// fetched from the network.
    pub fn has(&mut self, hash: &ActionHash) -> (held: bool)
        requires
            old(self).wf(),
        ensures
            final(self).wf(),
            held == old(self)@.holds(hash@),
            final(self)@ == old(self)@.retaining(hash@),
    {
        self.retain(hash);
        match self.states.get(hash) {
            Some(state) => state.dependency.is_some(),
            None => false,
        }
    }

    /// The state of a dependency.
    pub fn get(&self, hash: &ActionHash) -> (state: Option<&ValidationDependencyState<A>>)
        requires
            self.wf(),
        ensures
            match state {
                Some(s) => self@.states.contains_key(hash@) && s@ == self@.states[hash@],
                None => !self@.states.contains_key(hash@),
            },
    {
        self.states.get(hash)
    }

    /// Whether the local databases should be searched for this dependency on this pass.
    ///
    /// Always marks the dependency as accessed, so that skipping the search never causes the
    /// dependency, and with it its backoff state, to be purged.
    pub fn needs_local_recheck(&mut self, hash: &ActionHash, now: Instant) -> (needed: bool)
        requires
            old(self).wf(),
        ensures
            final(self).wf(),
            needed == old(self)@.needs_local_recheck(hash@, now@),
            final(self)@ == old(self)@.retaining(hash@),
    {
        self.retain(hash);
        match self.states.get(hash) {
            // Never looked for it.
            None => true,
            Some(state) => if state.dependency.is_some() {
                false
            } else {
                // Missing: only look again when the backoff says so.
                match &state.retry {
                    Some(retry) => retry.due_for_local_recheck(now),
                    None => true,
                }
            },
        }
    }

    /// Record that a search of the local databases for this dependency came back empty, with the
    /// jitter sample given.
    pub fn note_local_miss_with_jitter(
        &mut self,
        hash: &ActionHash,
        now: Instant,
        base: Duration,
        r: i64,
    )
        requires
            old(self).wf(),
            old(self)@.lacks(hash@) ==> now@ + MAX_LOCAL_RECHECK_SECS * NANOS_PER_SEC
                <= Instant::latest(),
        ensures
            final(self).wf(),
            final(self)@ == old(self)@.after_local_miss(hash@, now@, base@, r as int),
    {
        if let Some(state) = self.states.get_mut(hash) {
            state.record_local_miss(now, base, r);
        }
        assert(self@.states =~= old(self)@.after_local_miss(
            hash@,
            now@,
            base@,
            r as int,
        ).states);
    }

    /// Record that a network fetch for this dependency came back empty, with the jitter sample
    /// given.
    pub fn note_network_miss_with_jitter(
        &mut self,
        hash: &ActionHash,
        now: Instant,
        base: Duration,
        r: i64,
    ) -> (report: bool)
        requires
            old(self).wf(),
            old(self)@.lacks(hash@) ==> now@ + MAX_NETWORK_RETRY_SECS * NANOS_PER_SEC
                <= Instant::latest(),
        ensures
            final(self).wf(),
            report == old(self)@.reports_network_miss(hash@, now@),
            final(self)@ == old(self)@.after_network_miss(hash@, now@, base@, r as int),
    {
        let mut report: bool = false;
        if let Some(state) = self.states.get_mut(hash) {
            report = state.record_network_miss(now, base, r);
        }
        assert(self@.states =~= old(self)@.after_network_miss(
            hash@,
            now@,
            base@,
            r as int,
        ).states);
        report
    }

    /// Record that a search of the local databases for this dependency came back empty, which
    /// advances its local re-check schedule.
    pub fn note_local_miss(&mut self, hash: &ActionHash, now: Instant, base: Duration)
        requires
            old(self).wf(),
            old(self)@.lacks(hash@) ==> now@ + MAX_LOCAL_RECHECK_SECS * NANOS_PER_SEC
                <= Instant::latest(),
        ensures
            final(self).wf(),
            exists|r: int|
                0 <= r < JITTER_ONE && final(self)@ == #[trigger] old(self)@.after_local_miss(
                    hash@,
                    now@,
                    base@,
                    r,
                ),
    {
        let r: i64 = random_jitter();
        self.note_local_miss_with_jitter(hash, now, base, r);
    }

    /// Record that a network fetch for this dependency came back empty, which advances its network
    /// fetch schedule.
    ///
    /// Returns `true` if this failure is the transition into the unfetchable state, so that the
    /// caller can report it exactly once.
    pub fn note_network_miss(&mut self, hash: &ActionHash, now: Instant, base: Duration) -> (report:
        bool)
        requires
            old(self).wf(),
            old(self)@.lacks(hash@) ==> now@ + MAX_NETWORK_RETRY_SECS * NANOS_PER_SEC
                <= Instant::latest(),
        ensures
            final(self).wf(),
            report == old(self)@.reports_network_miss(hash@, now@),
            exists|r: int|
                0 <= r < JITTER_ONE && final(self)@ == #[trigger] old(self)@.after_network_miss(
                    hash@,
                    now@,
                    base@,
                    r,
                ),
    {
        let r: i64 = random_jitter();
        self.note_network_miss_with_jitter(hash, now, base, r)
    }

    /// Insert an action that was found after this set of dependencies was created.
    ///
    /// Returns whether the dependency with the action's hash was known and missing. If it was, but
    /// is a warranted one, the action is not taken.
    pub fn insert_action(&mut self, action: SignedActionHashed<A>, source: CascadeSource) -> (inserted:
        bool)
        requires
            old(self).wf(),
        ensures
            final(self).wf(),
            inserted == old(self)@.lacks(action.hashed.hash@),
            final(self)@ == old(self)@.after_insert_action(action, source),
    {
        let hash: ActionHash = *action.as_hash();
        // What counts is whether the dependency is held, not whether it is known.
        if self.has(&hash) {
            return false;
        }
        let mut inserted: bool = false;
        if let Some(state) = self.states.get_mut(&hash) {
            state.set_action_dep(action);
            state.set_source(source);
            inserted = true;
        }
        assert(self@.states =~= old(self)@.after_insert_action(action, source).states);
        inserted
    }

    /// Insert a warranted action that was found after this set of dependencies was created.
    ///
    /// Returns whether the dependency with the action's hash was known and missing. If it was, but
    /// is not a warranted one, the action is not taken.
    pub fn insert_pending_validation_warranted(
        &mut self,
        action: SignedActionHashed<A>,
        chain_op_type: ChainOpType,
        source: CascadeSource,
    ) -> (inserted: bool)
        requires
            old(self).wf(),
        ensures
            final(self).wf(),
            inserted == old(self)@.lacks(action.hashed.hash@),
            final(self)@ == old(self)@.after_insert_warranted(action, chain_op_type, source),
    {
        let hash: ActionHash = *action.as_hash();
        // What counts is whether the dependency is held, not whether it is known.
        if self.has(&hash) {
            return false;
        }
        let mut inserted: bool = false;
        if let Some(state) = self.states.get_mut(&hash) {
            state.set_pending_validation_warranted(action, chain_op_type);
            state.set_source(source);
            inserted = true;
        }
        assert(self@.states =~= old(self)@.after_insert_warranted(
            action,
            chain_op_type,
            source,
        ).states);
        inserted
    }

    /// Give a warranted dependency its validation status.
    pub fn update_warrant_dep_validated(
        &mut self,
        action: &ActionHash,
        validation_status: ValidationStatus,
    )
        requires
            old(self).wf(),
        ensures
            final(self).wf(),
            final(self)@ == old(self)@.after_validated(action@, validation_status),
    {
        if !self.has(action) {
            return;
        }
        if let Some(state) = self.states.get_mut(action) {
            state.set_validation_status_for_warranted(validation_status);
        }
        assert(self@.states =~= old(self)@.after_validated(action@, validation_status).states);
    }

    /// Forget which dependencies have been accessed since this method was last called.
    ///
    /// Used with [`Self::purge_held_deps`] to remove dependencies that are no longer needed.
    pub fn clear_retained_deps(&mut self)
        requires
            old(self).wf(),
        ensures
            final(self).wf(),
            final(self)@ == old(self)@.forgetting(),
    {
        self.retained_deps = ActionMap::new();
        assert(self@.retained =~= Set::<Seq<u8>>::empty());
    }

    /// Remove the dependencies that have not been accessed.
    pub fn purge_held_deps(&mut self)
        requires
            old(self).wf(),
        ensures
            final(self).wf(),
            final(self)@ == old(self)@.purged(),
    {
        self.states.retain_keys_of(&self.retained_deps);
        assert(self@.states =~= old(self)@.purged().states);
    }

    /// Merge another set of dependencies into this one.
    pub fn merge(&mut self, other: Self)
        requires
            old(self).wf(),
            other.wf(),
        ensures
            final(self).wf(),
            final(self)@ == old(self)@.merged_with(other@),
    {
        let mut rest = other.states;
        let ghost ours = self.states@;
        let ghost theirs = rest@;
        let ghost retained_before = self.retained_deps@.dom();
        while rest.len() > 0
            invariant
                self.wf(),
                rest.wf(),
                forall|h: Seq<u8>| #[trigger]
                    rest@.contains_key(h) ==> theirs.contains_key(h) && rest@[h] == theirs[h],
                forall|h: Seq<u8>| #[trigger]
                    self.retained_deps@.contains_key(h) <==> (retained_before.contains(h) || (
                    theirs.contains_key(h) && !rest@.contains_key(h))),
                forall|h: Seq<u8>| #[trigger]
                    self.states@.contains_key(h) <==> (ours.contains_key(h) || (
                    theirs.contains_key(h) && !rest@.contains_key(h))),
                forall|h: Seq<u8>| #[trigger]
                    self.states@.contains_key(h) ==> self.states@[h] == if !theirs.contains_key(h)
                        || rest@.contains_key(h) {
                        ours[h]
                    } else if !ours.contains_key(h) || merge_takes(ours[h]@, theirs[h]@) {
                        theirs[h]
                    } else {
                        ours[h]
                    },
            decreases rest.keys().len(),
        {
            proof {
                rest.lemma_keys();
                assert(rest@.contains_key(rest.keys()[0]));
            }
            if let Some((hash, state)) = rest.pop_last() {
                self.retained_deps.insert(hash, ());
                let takes: bool = match self.states.get(&hash) {
                    None => true,
                    Some(existing) => match (&existing.dependency, &state.dependency) {
                        // Not found here, but there: take it.
                        (None, Some(_)) => true,
                        // Found on both sides: a warranted dependency holds an action too, but not
                        // the other way round.
                        (Some(_), Some(_)) => match (
                            existing.dependency_type,
                            state.dependency_type,
                        ) {
                            (
                                ValidationDependencyType::Action,
                                ValidationDependencyType::Warranted(_),
                            ) => true,
                            _ => false,
                        },
                        _ => false,
                    },
                };
                if takes {
                    self.states.insert(hash, state);
                }
            }
        }
        proof {
            rest.lemma_keys();
            assert forall|h: Seq<u8>| !rest@.contains_key(h) by {
                assert(rest@.dom().contains(h) == rest.keys().to_set().contains(h));
            }
        }
        assert(self@.states =~= old(self)@.merged_with(other@).states);
        assert(self@.retained =~= old(self)@.merged_with(other@).retained);
    }

    /// The missing dependencies whose backoff schedule says that the network should be asked for
    /// them now, each once, with its kind.
    ///
    /// A dependency that has repeatedly failed to be found is not due on most passes. It stays
    /// missing, so it will be asked for again once its backoff elapses.
    pub fn get_missing_dependencies_due_for_fetch(&self, now: Instant) -> (due: Vec<
        (ActionHash, ValidationDependencyType),
    >)
        requires
            self.wf(),
        ensures
            enumerates(
                Seq::new(due@.len(), |i: int| due[i].0@),
                self@.due_for_fetch(now@),
            ),
            forall|i: int|
                0 <= i < due.len() ==> (#[trigger] due[i]).1
                    == self@.states[due[i].0@].dependency_type,
    {
        let mut due: Vec<(ActionHash, ValidationDependencyType)> = Vec::new();
        let ghost keys = self.states.keys();
        let mut i: usize = 0;
        proof {
            self.states.lemma_keys();
        }
        while i < self.states.len()
            invariant
                self.wf(),
                keys == self.states.keys(),
                keys.no_duplicates(),
                i <= keys.len(),
                forall|j: int|
                    0 <= j < due.len() ==> self@.due_for_fetch(now@).contains(
                        #[trigger] due[j].0@,
                    ) && due[j].1 == self@.states[due[j].0@].dependency_type,
                forall|j: int, k: int|
                    0 <= j < due.len() && i <= k < keys.len() ==> #[trigger] due[j].0@
                        != #[trigger] keys[k],
                forall|j: int, k: int|
                    0 <= j < k < due.len() ==> #[trigger] due[j].0@ != #[trigger] due[k].0@,
                forall|k: int|
                    0 <= k < i && self@.due_for_fetch(now@).contains(#[trigger] keys[k]) ==> exists|
                        j: int,
                    |
                        0 <= j < due.len() && #[trigger] due[j].0@ == keys[k],
            decreases keys.len() - i,
        {
            let ghost before = due@;
            let (hash, state) = self.states.entry(i);
            let is_due: bool = state.dependency.is_none() && match &state.retry {
                Some(retry) => retry.due_for_network_fetch(now),
                None => true,
            };
            if is_due {
                due.push((*hash, state.dependency_type));
            }
            proof {
                assert(is_due == self@.due_for_fetch(now@).contains(keys[i as int]));
                assert forall|k: int|
                    0 <= k < i + 1 && self@.due_for_fetch(now@).contains(
                        #[trigger] keys[k],
                    ) implies exists|j: int| 0 <= j < due.len() && #[trigger] due[j].0@ == keys[k] by {
                    if k < i {
                        let j = choose|j: int|
                            0 <= j < before.len() && #[trigger] before[j].0@ == keys[k];
                        assert(due[j].0@ == keys[k]);
                    } else {
                        assert(due[due.len() - 1].0@ == keys[k]);
                    }
                }
            }
            i = i + 1;
        }
        proof {
            let list = Seq::new(due@.len(), |j: int| due[j].0@);
            assert(list.to_set() =~= self@.due_for_fetch(now@)) by {
                assert forall|h: Seq<u8>| #[trigger]
                    self@.due_for_fetch(now@).contains(h) implies list.contains(h) by {
                    assert(self.states@.dom().contains(h));
                    assert(keys.to_set().contains(h));
                    let k = choose|k: int| 0 <= k < keys.len() && keys[k] == h;
                    let j = choose|j: int| 0 <= j < due.len() && #[trigger] due[j].0@ == keys[k];
                    assert(list[j] == h);
                }
                assert forall|h: Seq<u8>| list.contains(h) implies self@.due_for_fetch(
                    now@,
                ).contains(h) by {
                    let j = choose|j: int| 0 <= j < list.len() && list[j] == h;
                    assert(due[j].0@ == h);
                }
            }
        }
        due
    }

    /// Count the dependencies that are currently missing, and how many of those have failed often
    /// enough to be reported as unfetchable.
    pub fn missing_dependency_counts(&self) -> (counts: MissingDependencyCounts)
        requires
            self.wf(),
        ensures
            self@.missing().finite(),
            self@.unfetchable().finite(),
            counts.missing == self@.missing().len(),
            counts.unfetchable == self@.unfetchable().len(),
            counts.unfetchable <= counts.missing,
    {
        let mut counts = MissingDependencyCounts::default();
        let ghost keys = self.states.keys();
        let ghost mut missing: Set<Seq<u8>> = Set::empty();
        let ghost mut unfetchable: Set<Seq<u8>> = Set::empty();
        let mut i: usize = 0;
        proof {
            self.states.lemma_keys();
        }
        while i < self.states.len()
            invariant
                self.wf(),
                keys == self.states.keys(),
                keys.no_duplicates(),
                i <= keys.len(),
                counts.missing <= i,
                counts.unfetchable <= counts.missing,
                missing.finite(),
                unfetchable.finite(),
                counts.missing == missing.len(),
                counts.unfetchable == unfetchable.len(),
                forall|h: Seq<u8>| #[trigger]
                    missing.contains(h) <==> self@.missing().contains(h) && keys.take(
                        i as int,
                    ).contains(h),
                forall|h: Seq<u8>| #[trigger]
                    unfetchable.contains(h) <==> self@.unfetchable().contains(h) && keys.take(
                        i as int,
                    ).contains(h),
            decreases keys.len() - i,
        {
            let (hash, state) = self.states.entry(i);
            let ghost h = hash@;
            proof {
                assert(keys.take(i + 1) == keys.take(i as int).push(h));
                assert(!keys.take(i as int).contains(h));
                assert forall|g: Seq<u8>| #[trigger]
                    keys.take(i + 1).contains(g) <==> keys.take(i as int).contains(g) || g == h by {
                    if keys.take(i as int).contains(g) {
                        let j = choose|j: int|
                            0 <= j < keys.take(i as int).len() && keys.take(i as int)[j] == g;
                        assert(keys.take(i + 1)[j] == g);
                    }
                    if g == h {
                        assert(keys.take(i + 1)[i as int] == g);
                    }
                }
            }
            if state.dependency.is_none() {
                counts.missing = counts.missing + 1;
                proof {
                    missing = missing.insert(h);
                }
                let is_unfetchable: bool = match &state.retry {
                    Some(retry) => retry.is_unfetchable(),
                    None => false,
                };
                if is_unfetchable {
                    counts.unfetchable = counts.unfetchable + 1;
                    proof {
                        unfetchable = unfetchable.insert(h);
                    }
                }
            }
            i = i + 1;
        }
        proof {
            assert(keys.take(keys.len() as int) == keys);
            assert forall|h: Seq<u8>| self.states@.dom().contains(h) implies keys.contains(h) by {
                assert(keys.to_set().contains(h));
            }
            assert(missing =~= self@.missing());
            assert(unfetchable =~= self@.unfetchable());
        }
        counts
    }

    /// The warranted dependencies that are pending validation: for each of them the hash of its
    /// action and the op in question.
    pub fn get_pending_warrant_dependencies(&self) -> (pending: Vec<(ActionHash, ChainOpType)>)
        requires
            self.wf(),
        ensures
            exists|list: Seq<Seq<u8>>|
                {
                    &&& #[trigger] enumerates(list, self@.pending_warrants())
                    &&& list.len() == pending.len()
                    &&& forall|i: int|
                        0 <= i < list.len() ==> pending_as_listed(
                            self@.states[#[trigger] list[i]],
                            pending[i],
                        )
                },
    {
        let mut pending: Vec<(ActionHash, ChainOpType)> = Vec::new();
        let ghost keys = self.states.keys();
        let ghost mut list: Seq<Seq<u8>> = Seq::empty();
        let mut i: usize = 0;
        proof {
            self.states.lemma_keys();
        }
        while i < self.states.len()
            invariant
                self.wf(),
                keys == self.states.keys(),
                keys.no_duplicates(),
                i <= keys.len(),
                list.len() == pending.len(),
                list.no_duplicates(),
                forall|j: int|
                    0 <= j < list.len() ==> pending_as_listed(
                        self@.states[#[trigger] list[j]],
                        pending[j],
                    ),
                forall|j: int|
                    0 <= j < list.len() ==> self@.pending_warrants().contains(#[trigger] list[j]),
                forall|j: int, k: int|
                    0 <= j < list.len() && i <= k < keys.len() ==> #[trigger] list[j]
                        != #[trigger] keys[k],
                forall|k: int|
                    0 <= k < i && self@.pending_warrants().contains(#[trigger] keys[k])
                        ==> list.contains(keys[k]),
            decreases keys.len() - i,
        {
            let ghost before = list;
            let (hash, state) = self.states.entry(i);
            if let ValidationDependencyType::Warranted(_) = state.dependency_type {
                if let Some(d) = &state.dependency {
                    if let ValidationDependencyValue::Warranted(WarrantedDep::Pending(action, op_type)) =
                        &d.value {
                        pending.push((*action.as_hash(), *op_type));
                        proof {
                            list = list.push(hash@);
                        }
                    }
                }
            }
            proof {
                assert forall|k: int|
                    0 <= k < i + 1 && self@.pending_warrants().contains(
                        #[trigger] keys[k],
                    ) implies list.contains(keys[k]) by {
                    if k < i {
                        let j = choose|j: int| 0 <= j < before.len() && before[j] == keys[k];
                        assert(list[j] == keys[k]);
                    } else {
                        assert(list[list.len() - 1] == keys[k]);
                    }
                }
            }
            i = i + 1;
        }
        proof {
            assert(list.to_set() =~= self@.pending_warrants()) by {
                assert forall|h: Seq<u8>| #[trigger]
                    self@.pending_warrants().contains(h) implies list.contains(h) by {
                    assert(keys.to_set().contains(h));
                    let k = choose|k: int| 0 <= k < keys.len() && keys[k] == h;
                    assert(list.contains(keys[k]));
                }
            }
            assert(enumerates(list, self@.pending_warrants()));
        }
        pending
    }

    /// The set of the given dependencies. Of two entries for one dependency the later one counts.
    pub fn new_from_iter(entries: Vec<(ActionHash, ValidationDependencyState<A>)>) -> (deps: Self)
        ensures
            deps.wf(),
            deps@.states == states_of(entries@),
            deps@.retained == Set::<Seq<u8>>::empty(),
    {
        let mut deps: ValidationDependencies<A> = Self::new();
        let ghost all = entries@;
        for entry in it: entries
            invariant
                it.seq() == all,
                deps.wf(),
                deps@.states == states_of(all.take(it.index())),
                deps@.retained == Set::<Seq<u8>>::empty(),
        {
            let ghost before = deps@.states;
            deps.states.insert(entry.0, entry.1);
            proof {
                let i = it.index();
                assert(all.take(i + 1).drop_last() == all.take(i));
                assert(deps@.states =~= before.insert(entry.0@, entry.1@));
            }
        }
        assert(all.take(all.len() as int) == all);
        deps
    }
}

} // verus!
