use holochain::app_api::{
    AppAuthentication, AppInfo, AppRequest, AppResponse, AppStatus, CellId, ConductorApiError,
    ConductorCall, ConductorReply, DisabledAppReason, ExternalApiWireError, InterfaceError,
    PendingRequest, RibosomeError, SerializationError, Step, ZomeCallParamsSigned, ZomeCallRefusal,
    ZomeCallResponse,
};
use holochain::app_interface::{is_answer, zome_call_response, AppInterfaceApi};
use holochain::time::Duration;
use holochain::zome_call_admission::{ConductorConfig, ConductorTuningParams};
use holochain_serialized_bytes::SerializedBytesError;

fn interface(max_concurrent_zome_calls: Option<usize>) -> AppInterfaceApi {
    AppInterfaceApi::new(&ConductorConfig {
        tuning_params: Some(ConductorTuningParams {
            zome_call_deadline: None,
            zome_call_deadline_max: None,
            max_concurrent_zome_calls,
        }),
    })
}

fn call(n: u8) -> ZomeCallParamsSigned {
    ZomeCallParamsSigned {
        bytes: vec![n],
        signature: vec![n; 64],
    }
}

fn with_deadline(n: u8, deadline_ms: u32) -> AppRequest {
    AppRequest::CallZomeWithDeadline {
        call: call(n),
        deadline_ms,
    }
}

fn first(api: &mut AppInterfaceApi, request: AppRequest) -> Step {
    api.handle_request("app".to_string(), Ok(()), Ok(request)).unwrap()
}

/// What a step that makes a call waits for.
fn pending(step: Step) -> PendingRequest {
    match step {
        Step::Call { pending, .. } => pending,
        Step::Respond(response) => panic!("answered with {response:?}"),
    }
}

/// What is answered once the reply has come.
fn answer(api: &mut AppInterfaceApi, request: AppRequest, reply: ConductorReply) -> AppResponse {
    let pending = pending(first(api, request));
    match api.resume(pending, reply) {
        Step::Respond(response) => response,
        Step::Call { call, .. } => panic!("went on to {call:?}"),
    }
}

fn output(n: u8) -> ConductorReply {
    ConductorReply::ZomeCall(Ok(ZomeCallResponse::Output(vec![n])))
}

#[test]
fn a_declared_deadline_bounds_the_response() {
    let mut api = interface(None);
    let step = first(&mut api, with_deadline(1, 500));
    match &step {
        Step::Call {
            call: ConductorCall::HandleExternalZomeCall { call, deadline },
            ..
        } => {
            assert_eq!(call.bytes, vec![1]);
            assert_eq!(*deadline, Some(Duration::from_millis(500)));
        }
        other => panic!("{other:?}"),
    }
    assert_eq!(api.in_flight(), 1);
    let response = api.resume(pending(step), ConductorReply::DeadlineElapsed);
    assert!(matches!(
        response,
        Step::Respond(AppResponse::Error(
            ExternalApiWireError::ZomeCallDeadlineExceeded(d)
        )) if d == Duration::from_millis(500)
    ));
    assert_eq!(api.in_flight(), 0);

    // The interface is not wedged by the call it gave up.
    let response = answer(&mut api, AppRequest::CallZome(call(2)), output(2));
    assert!(matches!(response, AppResponse::ZomeCalled(v) if v == vec![2]));
}

#[test]
fn at_the_ceiling_a_deadlined_call_is_refused_then_admitted_again() {
    let mut api = interface(Some(1));
    let occupying = pending(first(&mut api, with_deadline(1, 15_000)));

    let refused = first(&mut api, with_deadline(2, 500));
    assert!(matches!(
        refused,
        Step::Respond(AppResponse::Error(ExternalApiWireError::ZomeCallRefused(
            ZomeCallRefusal {
                in_flight: 1,
                max_in_flight: 1
            }
        )))
    ));
    assert_eq!(api.in_flight(), 1);

    // Once the occupying call finishes, the slot is available again.
    let response = api.resume(occupying, output(1));
    assert!(matches!(response, Step::Respond(AppResponse::ZomeCalled(_))));
    let response = answer(&mut api, with_deadline(3, 5_000), output(3));
    assert!(matches!(response, AppResponse::ZomeCalled(v) if v == vec![3]));
}

#[test]
fn at_the_ceiling_a_call_without_a_deadline_is_still_queued() {
    let mut api = interface(Some(1));
    let occupying = pending(first(&mut api, AppRequest::CallZome(call(1))));
    let queued = first(&mut api, AppRequest::CallZome(call(2)));
    assert!(matches!(
        queued,
        Step::Call {
            call: ConductorCall::HandleExternalZomeCall { deadline: None, .. },
            ..
        }
    ));
    assert_eq!(api.in_flight(), 2);
    let response = api.resume(pending(queued), output(2));
    assert!(matches!(response, Step::Respond(AppResponse::ZomeCalled(v)) if v == vec![2]));
    let response = api.resume(occupying, output(1));
    assert!(matches!(response, Step::Respond(AppResponse::ZomeCalled(v)) if v == vec![1]));
    assert_eq!(api.in_flight(), 0);
}

#[test]
fn an_abandoned_call_releases_its_slot_immediately() {
    let mut api = interface(Some(1));
    let abandoned = pending(first(&mut api, with_deadline(1, 500)));
    assert!(matches!(
        first(&mut api, with_deadline(2, 500)),
        Step::Respond(AppResponse::Error(ExternalApiWireError::ZomeCallRefused(_)))
    ));
    api.resume(abandoned, ConductorReply::DeadlineElapsed);
    let response = answer(&mut api, with_deadline(3, 5_000), output(3));
    assert!(matches!(response, AppResponse::ZomeCalled(_)));
}

#[test]
fn a_failed_call_frees_its_slot() {
    let mut api = interface(Some(1));
    let failing = pending(first(&mut api, with_deadline(1, 500)));
    let step = api.resume(
        failing,
        ConductorReply::Failed(ConductorApiError::Reported("shut down".to_string())),
    );
    assert!(matches!(
        step,
        Step::Respond(AppResponse::Error(ExternalApiWireError::Conductor(
            ConductorApiError::Reported(text)
        ))) if text == "shut down"
    ));
    assert_eq!(api.in_flight(), 0);
}

#[test]
fn a_slot_is_freed_once() {
    let mut api = interface(Some(5));
    let first_call = pending(first(&mut api, with_deadline(1, 500)));
    let ticket = match &first_call {
        PendingRequest::CallZome { ticket, .. } => *ticket,
        other => panic!("{other:?}"),
    };
    let _second = first(&mut api, with_deadline(2, 500));
    api.resume(first_call, ConductorReply::DeadlineElapsed);
    assert_eq!(api.in_flight(), 1);
    let stale = PendingRequest::CallZome {
        ticket,
        deadline: Some(Duration::from_millis(500)),
    };
    api.resume(stale, ConductorReply::DeadlineElapsed);
    assert_eq!(api.in_flight(), 1);
}

#[test]
fn requests_are_not_handled_unless_the_conductor_is_running() {
    let mut api = interface(None);
    let error = api
        .handle_request(
            "app".to_string(),
            Err(ConductorApiError::Reported("not running".to_string())),
            Ok(AppRequest::CallZome(call(1))),
        )
        .unwrap_err();
    assert!(matches!(
        error,
        InterfaceError::RequestHandler(ConductorApiError::Reported(text)) if text == "not running"
    ));
    assert_eq!(api.in_flight(), 0);
}

#[test]
fn a_request_that_cannot_be_read_is_answered_with_an_error() {
    let mut api = interface(None);
    let step = api
        .handle_request(
            "app".to_string(),
            Ok(()),
            Err(SerializedBytesError::Deserialize("bad bytes".to_string())),
        )
        .unwrap();
    match step {
        Step::Respond(AppResponse::Error(ExternalApiWireError::Deserialization(
            SerializationError::Bytes(e),
        ))) => assert_eq!(e, SerializedBytesError::Deserialize("bad bytes".to_string())),
        other => panic!("{other:?}"),
    }
}

#[test]
fn tokens_are_checked_by_the_conductor() {
    let api = interface(None);
    let call = api.auth(AppAuthentication {
        token: vec![1, 2, 3],
        installed_app_id: Some("bound".to_string()),
    });
    assert!(matches!(
        call,
        ConductorCall::AuthenticateAppToken { token, installed_app_id: Some(app) }
            if token == vec![1, 2, 3] && app == "bound"
    ));
    assert_eq!(api.authenticated(Ok("app".to_string())).unwrap(), "app");
    assert!(matches!(
        api.authenticated(Err(ConductorApiError::Other("no".to_string()))),
        Err(InterfaceError::RequestHandler(ConductorApiError::Other(text))) if text == "no"
    ));
}

#[test]
fn the_outcomes_of_zome_calls_are_told() {
    let response = zome_call_response(Ok(ZomeCallResponse::AuthenticationFailed(
        "SIG".to_string(),
        "AGENT".to_string(),
    )));
    assert!(matches!(
        response,
        AppResponse::Error(ExternalApiWireError::ZomeCallAuthenticationFailed(text))
            if text == "Authentication failure. Bad signature SIG by provenance AGENT."
    ));
    let response = zome_call_response(Ok(ZomeCallResponse::Unauthorized(
        "BadCapGrant".to_string(),
        "None".to_string(),
        "zome1".to_string(),
        "fn1".to_string(),
    )));
    assert!(matches!(
        response,
        AppResponse::Error(ExternalApiWireError::ZomeCallUnauthorized(text))
            if text == "Call was not authorized with reason BadCapGrant, cap secret None to call the function fn1 in zome zome1"
    ));
    let response = zome_call_response(Ok(ZomeCallResponse::CountersigningSession(
        "busy".to_string(),
    )));
    assert!(matches!(
        response,
        AppResponse::Error(ExternalApiWireError::CountersigningSessionError(text))
            if text == "A countersigning session has failed to start on this zome call because: busy"
    ));
    let response = zome_call_response(Err(RibosomeError {
        description: "trap".to_string(),
    }));
    assert!(matches!(
        response,
        AppResponse::Error(ExternalApiWireError::Ribosome(e)) if e.description == "trap"
    ));
}

#[test]
fn the_first_agent_that_cannot_be_encoded_fails_the_list() {
    let mut api = interface(None);
    let request = || AppRequest::AgentInfo {
        dna_hashes: Some(vec![vec![9; 36]]),
    };
    let response = answer(
        &mut api,
        request(),
        ConductorReply::AgentInfos(vec![Ok("a".to_string()), Ok("b".to_string())]),
    );
    assert!(matches!(response, AppResponse::AgentInfo(items) if items == vec!["a", "b"]));
    let response = answer(
        &mut api,
        request(),
        ConductorReply::AgentInfos(vec![
            Ok("a".to_string()),
            Err(ConductorApiError::Other("first".to_string())),
            Err(ConductorApiError::Other("second".to_string())),
        ]),
    );
    assert!(matches!(
        response,
        AppResponse::Error(ExternalApiWireError::Conductor(ConductorApiError::Other(text)))
            if text == "first"
    ));
    let response = answer(&mut api, request(), ConductorReply::AgentInfos(Vec::new()));
    assert!(matches!(response, AppResponse::AgentInfo(items) if items.is_empty()));
}

fn info(status: AppStatus) -> ConductorReply {
    ConductorReply::AppInfo(Some(AppInfo {
        status,
        encoded: vec![1],
    }))
}

#[test]
fn an_app_is_enabled_only_from_the_right_states() {
    let mut api = interface(None);
    for status in [
        AppStatus::Enabled,
        AppStatus::Disabled(DisabledAppReason::NotStartedAfterProvidingMemproofs),
    ] {
        let step = first(&mut api, AppRequest::EnableApp);
        assert!(matches!(
            &step,
            Step::Call { call: ConductorCall::GetAppInfo { app }, .. } if app == "app"
        ));
        let step = api.resume(pending(step), info(status));
        assert!(matches!(
            &step,
            Step::Call { call: ConductorCall::EnableApp { app }, .. } if app == "app"
        ));
        let step = api.resume(pending(step), ConductorReply::Done);
        assert!(matches!(step, Step::Respond(AppResponse::Completed)));
    }
    for status in [
        AppStatus::AwaitingMemproofs,
        AppStatus::Disabled(DisabledAppReason::NeverStarted),
        AppStatus::Disabled(DisabledAppReason::User),
        AppStatus::Disabled(DisabledAppReason::Error("x".to_string())),
    ] {
        let response = answer(&mut api, AppRequest::EnableApp, info(status));
        assert!(matches!(
            response,
            AppResponse::Error(ExternalApiWireError::Conductor(ConductorApiError::Other(text)))
                if text == "app not in correct state to enable"
        ));
    }
    let response = answer(&mut api, AppRequest::EnableApp, ConductorReply::AppInfo(None));
    assert!(matches!(
        response,
        AppResponse::Error(ExternalApiWireError::Conductor(ConductorApiError::Other(text)))
            if text == "app not found"
    ));
}

#[test]
fn every_request_is_routed_to_its_call() {
    let mut api = interface(Some(0));
    let cell = || CellId {
        dna_hash: vec![1],
        agent_pubkey: vec![2],
    };
    let value = || ConductorReply::Value(vec![42]);

    let step = first(&mut api, AppRequest::AppInfo);
    assert!(matches!(&step, Step::Call { call: ConductorCall::GetAppInfo { app }, .. } if app == "app"));
    let step = api.resume(pending(step), info(AppStatus::AwaitingMemproofs));
    assert!(matches!(step, Step::Respond(AppResponse::AppInfo(Some(_)))));

    let step = first(
        &mut api,
        AppRequest::PeerMetaInfo {
            url: "wss://peer".to_string(),
            dna_hashes: None,
        },
    );
    assert!(matches!(
        &step,
        Step::Call { call: ConductorCall::AppPeerMetaInfo { app, url, dna_hashes: None }, .. }
            if app == "app" && url == "wss://peer"
    ));
    let step = api.resume(pending(step), value());
    assert!(matches!(step, Step::Respond(AppResponse::PeerMetaInfo(v)) if v == vec![42]));

    let step = first(&mut api, AppRequest::GetCountersigningSessionState(cell()));
    assert!(matches!(
        &step,
        Step::Call { call: ConductorCall::GetCountersigningSessionState(c), .. } if c.agent_pubkey == vec![2]
    ));
    let step = api.resume(pending(step), value());
    assert!(matches!(step, Step::Respond(AppResponse::CountersigningSessionState(_))));

    let response = answer(
        &mut api,
        AppRequest::AbandonCountersigningSession(cell()),
        ConductorReply::Done,
    );
    assert!(matches!(response, AppResponse::CountersigningSessionAbandoned));
    let response = answer(
        &mut api,
        AppRequest::PublishCountersigningSession(cell()),
        ConductorReply::Done,
    );
    assert!(matches!(response, AppResponse::PublishCountersigningSessionTriggered));
    let response = answer(&mut api, AppRequest::CreateCloneCell(vec![5]), value());
    assert!(matches!(response, AppResponse::CloneCellCreated(v) if v == vec![42]));
    let response = answer(&mut api, AppRequest::DisableCloneCell(vec![5]), ConductorReply::Done);
    assert!(matches!(response, AppResponse::CloneCellDisabled));
    let response = answer(&mut api, AppRequest::EnableCloneCell(vec![5]), value());
    assert!(matches!(response, AppResponse::CloneCellEnabled(v) if v == vec![42]));

    let step = first(
        &mut api,
        AppRequest::DumpOpTimings {
            dna_hash: vec![6],
            cursor: Some(3),
            limit: None,
        },
    );
    assert!(matches!(
        &step,
        Step::Call { call: ConductorCall::DumpOpTimings { dna_hash, cursor: Some(3), limit: None, .. }, .. }
            if *dna_hash == vec![6]
    ));
    let step = api.resume(pending(step), value());
    assert!(matches!(step, Step::Respond(AppResponse::OpTimingsDumped(_))));

    let step = first(
        &mut api,
        AppRequest::DumpNetworkMetrics {
            dna_hash: None,
            include_dht_summary: true,
        },
    );
    assert!(matches!(
        &step,
        Step::Call {
            call: ConductorCall::DumpNetworkMetrics { dna_hash: None, include_dht_summary: true, .. },
            ..
        }
    ));
    let step = api.resume(pending(step), value());
    assert!(matches!(step, Step::Respond(AppResponse::NetworkMetricsDumped(_))));

    let response = answer(&mut api, AppRequest::DumpNetworkStats, value());
    assert!(matches!(response, AppResponse::NetworkStatsDumped(_)));
    let response = answer(
        &mut api,
        AppRequest::ListWasmHostFunctions,
        ConductorReply::Names(vec!["__hc__get_1".to_string()]),
    );
    assert!(matches!(response, AppResponse::ListWasmHostFunctions(names) if names.len() == 1));
    let response = answer(&mut api, AppRequest::ProvideMemproofs(vec![8]), ConductorReply::Done);
    assert!(matches!(response, AppResponse::Completed));

    let step = first(
        &mut api,
        AppRequest::SendDirectSignal {
            dna_hash: vec![1],
            agents: vec![vec![2], vec![3]],
            signal: vec![4],
        },
    );
    assert!(matches!(
        &step,
        Step::Call { call: ConductorCall::SendDirectSignal { agents, signal, .. }, .. }
            if agents.len() == 2 && *signal == vec![4]
    ));
    let step = api.resume(pending(step), ConductorReply::Done);
    assert!(matches!(step, Step::Respond(AppResponse::Completed)));
    assert_eq!(api.in_flight(), 0);
}

#[test]
fn replies_fit_the_calls_they_answer() {
    let bounded = PendingRequest::CallZome {
        ticket: 0,
        deadline: Some(Duration::from_millis(1)),
    };
    let unbounded = PendingRequest::CallZome {
        ticket: 0,
        deadline: None,
    };
    let network_error =
        ConductorReply::ZomeCall(Ok(ZomeCallResponse::NetworkError("down".to_string())));
    assert!(is_answer(&output(1), &bounded));
    assert!(is_answer(&output(1), &unbounded));
    assert!(is_answer(&ConductorReply::DeadlineElapsed, &bounded));
    assert!(!is_answer(&ConductorReply::DeadlineElapsed, &unbounded));
    assert!(!is_answer(&network_error, &unbounded));
    assert!(!is_answer(&ConductorReply::Done, &unbounded));
    assert!(is_answer(&ConductorReply::Done, &PendingRequest::EnableApp));
    assert!(!is_answer(&ConductorReply::Done, &PendingRequest::EnableCloneCell));
    assert!(is_answer(
        &ConductorReply::Value(vec![]),
        &PendingRequest::EnableCloneCell
    ));
    assert!(is_answer(
        &ConductorReply::Failed(ConductorApiError::Other(String::new())),
        &PendingRequest::AppInfo
    ));
    assert!(interface(None).has_ticket_for(&AppRequest::AppInfo));
    assert!(interface(None).has_ticket_for(&AppRequest::CallZome(call(1))));
    assert!(interface(Some(0)).has_ticket_for(&with_deadline(1, 1)));
}

#[test]
fn slots_are_held_from_admission_to_reply() {
    let mut api = interface(Some(3));
    let mut running: Vec<PendingRequest> = Vec::new();
    let mut refused = 0;
    for n in 0..5 {
        match first(&mut api, with_deadline(n, 1_000)) {
            Step::Call { pending, .. } => running.push(pending),
            Step::Respond(AppResponse::Error(ExternalApiWireError::ZomeCallRefused(refusal))) => {
                assert_eq!(
                    refusal,
                    ZomeCallRefusal {
                        in_flight: 3,
                        max_in_flight: 3
                    }
                );
                refused += 1;
            }
            other => panic!("{other:?}"),
        }
    }
    assert_eq!(running.len(), 3);
    assert_eq!(refused, 2);

    // Other requests leave the slots alone.
    let info_request = pending(first(&mut api, AppRequest::AppInfo));
    api.resume(info_request, ConductorReply::AppInfo(None));
    assert_eq!(api.in_flight(), 3);

    // Calls without a deadline go over the limit, and give back their own slots.
    let queued = pending(first(&mut api, AppRequest::CallZome(call(9))));
    assert_eq!(api.in_flight(), 4);
    let middle = running.remove(1);
    api.resume(middle, output(1));
    assert_eq!(api.in_flight(), 3);
    api.resume(queued, output(9));
    assert_eq!(api.in_flight(), 2);
    for pending in running {
        api.resume(pending, ConductorReply::DeadlineElapsed);
    }
    assert_eq!(api.in_flight(), 0);
}

#[test]
fn a_declared_deadline_is_clamped_before_the_call() {
    let mut api = AppInterfaceApi::new(&ConductorConfig {
        tuning_params: Some(ConductorTuningParams {
            zome_call_deadline: Some(Duration::from_secs(7)),
            zome_call_deadline_max: Some(Duration::from_secs(2)),
            max_concurrent_zome_calls: None,
        }),
    });
    let deadline_of = |step: Step| match step {
        Step::Call {
            pending: PendingRequest::CallZome { deadline, .. },
            ..
        } => deadline,
        other => panic!("{other:?}"),
    };
    let step = first(&mut api, with_deadline(1, 60_000));
    assert_eq!(deadline_of(step), Some(Duration::from_secs(2)));
    let step = first(&mut api, with_deadline(1, 1_500));
    assert_eq!(deadline_of(step), Some(Duration::from_millis(1_500)));
    let step = first(&mut api, AppRequest::CallZome(call(1)));
    assert_eq!(deadline_of(step), Some(Duration::from_secs(7)));
}
