//! Which zome calls are run, and for how long they may run.

use crate::time::{Duration, NANOS_PER_SEC};
use vstd::prelude::*;

verus! {

/// The longest deadline, in seconds, that a caller can declare where none is configured.
pub const DEFAULT_MAX_DEADLINE_SECS: u64 = 300;

/// The tuning parameters that concern zome calls.
#[derive(Clone, Copy, Debug)]
pub struct ConductorTuningParams {
    /// The deadline of calls whose caller declares none.
    pub zome_call_deadline: Option<Duration>,
    /// The longest deadline that a caller can declare.
    pub zome_call_deadline_max: Option<Duration>,
    /// How many zome calls one interface runs before it refuses calls.
    pub max_concurrent_zome_calls: Option<usize>,
}

impl Default for ConductorTuningParams {
    /// Nothing is tuned.
    fn default() -> (params: Self)
        ensures
            params.zome_call_deadline is None,
            params.zome_call_deadline_max is None,
            params.max_concurrent_zome_calls is None,
    {
        ConductorTuningParams {
            zome_call_deadline: None,
            zome_call_deadline_max: None,
            max_concurrent_zome_calls: None,
        }
    }
}

/// The part of a conductor's configuration that concerns zome calls.
#[derive(Clone, Copy, Debug)]
pub struct ConductorConfig {
    /// The tuning parameters, if any are configured.
    pub tuning_params: Option<ConductorTuningParams>,
}

impl Default for ConductorConfig {
    /// Nothing is configured.
    fn default() -> (config: Self)
        ensures
            config.tuning_params is None,
    {
        ConductorConfig { tuning_params: None }
    }
}

impl ConductorConfig {
    /// The configured tuning parameters, or those of a conductor on which nothing is tuned.
    pub open spec fn tuning(self) -> ConductorTuningParams {
        match self.tuning_params {
            Some(params) => params,
            None => ConductorTuningParams {
                zome_call_deadline: None,
                zome_call_deadline_max: None,
                max_concurrent_zome_calls: None,
            },
        }
    }

    /// The configured tuning parameters, or the default ones.
    pub fn conductor_tuning_params(&self) -> (params: ConductorTuningParams)
        ensures
            params == self.tuning(),
    {
        match self.tuning_params {
            Some(params) => params,
            None => ConductorTuningParams::default(),
        }
    }
}

/// What is to be done with an incoming zome call, before any of its work has begun.
#[derive(Clone, Copy, Debug, PartialEq, Eq)]
pub enum ZomeCallAdmissionDecision {
    /// Run the call, bounded by this deadline; `None` means run it unbounded.
    Admit(Option<Duration>),
    /// Do not start the call: the interface is already running `in_flight` calls against a limit of
    /// `max_in_flight`, and the caller will not wait long enough for a slot to free up.
    Refuse {
        /// How many zome calls the interface was already running.
        in_flight: usize,
        /// The configured limit.
        max_in_flight: usize,
    },
}

/// What a [`ZomeCallAdmission`] stands for.
pub struct AdmissionPolicy {
    /// How many calls may run before calls are refused.
    pub max_in_flight: Option<usize>,
    /// The deadline of calls whose caller declares none.
    pub default_deadline: Option<Duration>,
    /// The longest deadline that a caller can declare.
    pub max_deadline: Duration,
}

impl AdmissionPolicy {
    /// The policy that a configuration asks for.
    pub open spec fn of(config: ConductorConfig) -> AdmissionPolicy {
        AdmissionPolicy {
            max_in_flight: config.tuning().max_concurrent_zome_calls,
            default_deadline: config.tuning().zome_call_deadline,
            max_deadline: match config.tuning().zome_call_deadline_max {
                Some(max) => max,
                None => Duration { nanos: (DEFAULT_MAX_DEADLINE_SECS * NANOS_PER_SEC) as u128 },
            },
        }
    }

    /// A deadline that a caller can get: the declared one, if it is not longer than the longest.
    pub open spec fn clamp(self, declared: Duration) -> Duration {
        if declared@ <= self.max_deadline@ {
            declared
        } else {
            self.max_deadline
        }
    }

    /// The deadline that a call gets: a declared one is clamped, and without one the default
    /// applies, which may be none.
    pub open spec fn effective(self, declared: Option<Duration>) -> Option<Duration> {
        match declared {
            Some(d) => Some(self.clamp(d)),
            None => self.default_deadline,
        }
    }

    /// Whether so many calls are running that the limit has been reached.
    pub open spec fn at_limit(self, in_flight: nat) -> bool {
        self.max_in_flight matches Some(max) && in_flight >= max
    }

    /// A call is refused if the limit has been reached and the call has a deadline, and is admitted
    /// with its deadline otherwise.
    pub open spec fn decision(
        self,
        declared: Option<Duration>,
        in_flight: usize,
    ) -> ZomeCallAdmissionDecision {
        if self.at_limit(in_flight as nat) && self.effective(declared) is Some {
            ZomeCallAdmissionDecision::Refuse { in_flight, max_in_flight: self.max_in_flight->0 }
        } else {
            ZomeCallAdmissionDecision::Admit(self.effective(declared))
        }
    }
}

/// Admission and deadline policy for the zome calls that arrive on one app interface.
#[derive(Debug)]
pub struct ZomeCallAdmission {
    max_in_flight: Option<usize>,
    default_deadline: Option<Duration>,
    max_deadline: Duration,
}

impl View for ZomeCallAdmission {
    type V = AdmissionPolicy;

    closed spec fn view(&self) -> AdmissionPolicy {
        AdmissionPolicy {
            max_in_flight: self.max_in_flight,
            default_deadline: self.default_deadline,
            max_deadline: self.max_deadline,
        }
    }
}

impl ZomeCallAdmission {
    /// Build the policy from a conductor's tuning parameters.
    pub fn from_config(config: &ConductorConfig) -> (admission: Self)
        ensures
            admission@ == AdmissionPolicy::of(*config),
    {
        let tuning = config.conductor_tuning_params();
        Self {
            max_in_flight: tuning.max_concurrent_zome_calls,
            default_deadline: tuning.zome_call_deadline,
            max_deadline: match tuning.zome_call_deadline_max {
                Some(max) => max,
                None => Duration::from_secs(DEFAULT_MAX_DEADLINE_SECS),
            },
        }
    }

    /// Decide what to do with a call, given the caller's declared deadline and the number of calls
    /// that are already running on this interface.
    ///
    /// The rules, in order:
    ///
    /// - A declared deadline is clamped to the configured maximum. Without one, the configured
    ///   default applies, which may be none.
    /// - At the concurrency limit, a call with an effective deadline is refused. To refuse it now is
    ///   strictly better for its caller than to spend the deadline in a queue.
    /// - At the concurrency limit, a call without an effective deadline is still admitted: a client
    ///   that never declared a deadline has no code to handle a refusal.
    pub fn decide(&self, declared: Option<Duration>, in_flight: usize) -> (decision:
        ZomeCallAdmissionDecision)
        ensures
            decision == self@.decision(declared, in_flight),
    {
        let effective: Option<Duration> = match declared {
            Some(d) => Some(d.min(self.max_deadline)),
            None => self.default_deadline,
        };
        match (self.max_in_flight, effective) {
            (Some(max), Some(_)) if in_flight >= max => ZomeCallAdmissionDecision::Refuse {
                in_flight,
                max_in_flight: max,
            },
            _ => ZomeCallAdmissionDecision::Admit(effective),
        }
    }
}

} // verus!
