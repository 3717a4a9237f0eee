use holochain::time::Duration;
use holochain::zome_call_admission::{
    ConductorConfig, ConductorTuningParams, ZomeCallAdmission, ZomeCallAdmissionDecision,
};

fn admission(
    default_deadline: Option<Duration>,
    max_deadline: Option<Duration>,
    max_concurrent: Option<usize>,
) -> ZomeCallAdmission {
    let config = ConductorConfig {
        tuning_params: Some(ConductorTuningParams {
            zome_call_deadline: default_deadline,
            zome_call_deadline_max: max_deadline,
            max_concurrent_zome_calls: max_concurrent,
        }),
    };
    ZomeCallAdmission::from_config(&config)
}

#[test]
fn unconfigured_conductor_admits_every_call_unbounded() {
    let admission = admission(None, None, None);

    assert_eq!(
        admission.decide(None, 0),
        ZomeCallAdmissionDecision::Admit(None)
    );
    assert_eq!(
        admission.decide(None, 10_000),
        ZomeCallAdmissionDecision::Admit(None)
    );
}

#[test]
fn a_conductor_without_tuning_parameters_is_unconfigured() {
    let admission = ZomeCallAdmission::from_config(&ConductorConfig::default());
    assert_eq!(
        admission.decide(None, usize::MAX),
        ZomeCallAdmissionDecision::Admit(None)
    );
    assert_eq!(
        admission.decide(Some(Duration::from_secs(301)), usize::MAX),
        ZomeCallAdmissionDecision::Admit(Some(Duration::from_secs(300)))
    );
    let admission = ZomeCallAdmission::from_config(&ConductorConfig {
        tuning_params: Some(ConductorTuningParams::default()),
    });
    assert_eq!(
        admission.decide(None, usize::MAX),
        ZomeCallAdmissionDecision::Admit(None)
    );
}

#[test]
fn declared_deadline_is_honoured_and_clamped_to_the_configured_maximum() {
    let admission = admission(None, Some(Duration::from_secs(30)), None);

    assert_eq!(
        admission.decide(Some(Duration::from_secs(5)), 0),
        ZomeCallAdmissionDecision::Admit(Some(Duration::from_secs(5)))
    );
    assert_eq!(
        admission.decide(Some(Duration::from_secs(600)), 0),
        ZomeCallAdmissionDecision::Admit(Some(Duration::from_secs(30)))
    );
}

#[test]
fn default_maximum_deadline_is_five_minutes() {
    let admission = admission(None, None, None);

    assert_eq!(
        admission.decide(Some(Duration::from_secs(3600)), 0),
        ZomeCallAdmissionDecision::Admit(Some(Duration::from_secs(300)))
    );
}

#[test]
fn configured_default_deadline_applies_when_the_caller_declares_none() {
    let admission = admission(Some(Duration::from_secs(15)), None, None);

    assert_eq!(
        admission.decide(None, 0),
        ZomeCallAdmissionDecision::Admit(Some(Duration::from_secs(15)))
    );
    // An explicit declaration always wins over the conductor default.
    assert_eq!(
        admission.decide(Some(Duration::from_secs(2)), 0),
        ZomeCallAdmissionDecision::Admit(Some(Duration::from_secs(2)))
    );
}

#[test]
fn a_default_deadline_is_not_clamped() {
    let admission = admission(
        Some(Duration::from_secs(600)),
        Some(Duration::from_secs(30)),
        None,
    );
    assert_eq!(
        admission.decide(None, 0),
        ZomeCallAdmissionDecision::Admit(Some(Duration::from_secs(600)))
    );
}

#[test]
fn at_the_concurrency_limit_a_deadlined_call_is_refused_not_queued() {
    let admission = admission(None, None, Some(4));

    assert_eq!(
        admission.decide(Some(Duration::from_secs(5)), 3),
        ZomeCallAdmissionDecision::Admit(Some(Duration::from_secs(5)))
    );
    assert_eq!(
        admission.decide(Some(Duration::from_secs(5)), 4),
        ZomeCallAdmissionDecision::Refuse {
            in_flight: 4,
            max_in_flight: 4
        }
    );
    assert_eq!(
        admission.decide(Some(Duration::from_secs(5)), 9),
        ZomeCallAdmissionDecision::Refuse {
            in_flight: 9,
            max_in_flight: 4
        }
    );
}

#[test]
fn at_the_concurrency_limit_a_call_without_a_deadline_is_still_queued() {
    // A client that never declared a deadline has no code to handle a refusal, so the limit must
    // not change what it sees.
    let admission = admission(None, None, Some(4));

    assert_eq!(
        admission.decide(None, 99),
        ZomeCallAdmissionDecision::Admit(None)
    );
}

#[test]
fn a_conductor_default_deadline_makes_the_concurrency_limit_bite() {
    // Once an operator sets a default deadline, calls that declare nothing acquire one, and
    // therefore become refusable at the limit.
    let admission = admission(Some(Duration::from_secs(15)), None, Some(2));

    assert_eq!(
        admission.decide(None, 2),
        ZomeCallAdmissionDecision::Refuse {
            in_flight: 2,
            max_in_flight: 2
        }
    );
}
