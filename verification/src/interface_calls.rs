//! What the calls on app interfaces do, and how such calls relate.
//!
//! Each law speaks of calls by what was handed to them and what came back.

use crate::app_api::{
    AgentPubKey, AppAuthentication, AppInfo, AppRequest, AppResponse, AppStatus, CellId,
    ConductorApiError, ConductorCall, ConductorReply, DisabledAppReason, DnaHash, Encoded,
    ExternalApiWireError, InstalledAppId, InterfaceError, PendingRequest, RibosomeError,
    SerializationError, Step, ZomeCallParamsSigned, ZomeCallRefusal, ZomeCallResponse,
};
use crate::app_interface::{is_answer, zome_call_response, AppInterfaceApi};
use crate::time::Duration;
use crate::zome_call_admission::{
    ConductorConfig, ConductorTuningParams, ZomeCallAdmission, ZomeCallAdmissionDecision,
};
use holochain_serialized_bytes::SerializedBytesError;
use vstd::prelude::*;

verus! {

/// What a configuration asks for is what is done: a declared deadline is shortened to the configured
/// maximum, or to five minutes if none is configured; without a declared one the configured default
/// applies, if there is one. A call that gets a deadline is refused once as many calls are running as
/// the configured limit allows; every other call is admitted with its deadline, if it gets one.
pub proof fn law_calls_are_admitted_as_configured(
    config: ConductorConfig,
    tuning: ConductorTuningParams,
    admission: ZomeCallAdmission,
    declared: Option<Duration>,
    in_flight: usize,
    decision: ZomeCallAdmissionDecision,
    deadline: Option<Duration>,
)
    requires
        call_ensures(ConductorConfig::conductor_tuning_params, (&config,), tuning),
        call_ensures(ZomeCallAdmission::from_config, (&config,), admission),
        call_ensures(ZomeCallAdmission::decide, (&admission, declared, in_flight), decision),
        deadline is Some <==> declared is Some || tuning.zome_call_deadline is Some,
        declared is None ==> deadline == tuning.zome_call_deadline,
        declared matches Some(wish) ==> {
            let longest = match tuning.zome_call_deadline_max {
                Some(max) => max.nanos,
                None => 300_000_000_000,
            };
            deadline->0.nanos == if wish.nanos <= longest {
                wish.nanos
            } else {
                longest
            }
        },
    ensures
        config.tuning_params matches Some(params) ==> tuning == params,
        config.tuning_params is None ==> tuning.zome_call_deadline is None
            && tuning.zome_call_deadline_max is None && tuning.max_concurrent_zome_calls is None,
        match (tuning.max_concurrent_zome_calls, deadline) {
            (Some(max), Some(_)) if in_flight >= max => decision
                == (ZomeCallAdmissionDecision::Refuse { in_flight, max_in_flight: max }),
            _ => decision == ZomeCallAdmissionDecision::Admit(deadline),
        },
{
}

/// The defaults configure nothing.
pub proof fn law_defaults_configure_nothing(config: ConductorConfig, params: ConductorTuningParams)
    requires
        call_ensures(<ConductorConfig as Default>::default, (), config),
        call_ensures(<ConductorTuningParams as Default>::default, (), params),
    ensures
        config.tuning_params is None,
        params.zome_call_deadline is None,
        params.zome_call_deadline_max is None,
        params.max_concurrent_zome_calls is None,
{
}

/// A new interface has nothing running, and admits calls as its configuration asks for.
pub proof fn law_new_interfaces_admit_as_configured(
    config: ConductorConfig,
    api: AppInterfaceApi,
    admission: ZomeCallAdmission,
    running: usize,
)
    requires
        call_ensures(AppInterfaceApi::new, (&config,), api),
        call_ensures(ZomeCallAdmission::from_config, (&config,), admission),
        call_ensures(AppInterfaceApi::in_flight, (&api,), running),
    ensures
        api@.policy == admission@,
        running == 0,
        forall|ticket: u64| !#[trigger] api@.in_flight.contains(ticket),
        api@.next_ticket == 0,
        api@.wf(),
{
}

/// A zome call is made exactly if the interface's policy admits it with the number of calls that hold
/// a slot. An admitted call is handed on unchanged with the deadline that it gets, and takes a slot
/// that no call held; a refused one is answered with the two numbers, and changes nothing.
pub proof fn law_zome_calls_are_admitted_or_refused(
    api: &mut AppInterfaceApi,
    call: ZomeCallParamsSigned,
    declared: Option<Duration>,
    step: Step,
    running: usize,
    admission: ZomeCallAdmission,
    decision: ZomeCallAdmissionDecision,
    ticket: u64,
)
    requires
        old(api)@.wf(),
        old(api)@.next_ticket < u64::MAX,
        call_ensures(AppInterfaceApi::handle_call_zome, (api, call, declared), step),
        call_ensures(AppInterfaceApi::in_flight, (&*old(api),), running),
        admission@ == old(api)@.policy,
        call_ensures(ZomeCallAdmission::decide, (&admission, declared, running), decision),
    ensures
        final(api)@.policy == old(api)@.policy,
        match decision {
            ZomeCallAdmissionDecision::Admit(deadline) => {
                &&& step matches Step::Call {
                    call: ConductorCall::HandleExternalZomeCall { call: made, deadline: wait },
                    pending: PendingRequest::CallZome { ticket: slot, deadline: kept },
                }
                &&& made == call
                &&& wait == deadline
                &&& kept == deadline
                &&& !old(api)@.in_flight.contains(slot)
                &&& final(api)@.in_flight.contains(ticket) <==> old(api)@.in_flight.contains(ticket)
                    || ticket == slot
                &&& final(api)@.in_flight.len() == old(api)@.in_flight.len() + 1
                &&& slot < final(api)@.next_ticket
                &&& old(api)@.next_ticket <= final(api)@.next_ticket <= old(api)@.next_ticket + 1
            },
            ZomeCallAdmissionDecision::Refuse { in_flight, max_in_flight } => {
                &&& in_flight == running
                &&& step == Step::Respond(
                    AppResponse::Error(
                        ExternalApiWireError::ZomeCallRefused(
                            ZomeCallRefusal { in_flight: running, max_in_flight },
                        ),
                    ),
                )
                &&& final(api)@ == old(api)@
            },
        },
{
}

/// A request to call a zome is the zome call that it holds, without a declared deadline or with the
/// one that it gives in milliseconds.
pub proof fn law_zome_requests_are_zome_calls(
    plain: &mut AppInterfaceApi,
    plain_direct: &mut AppInterfaceApi,
    bounded: &mut AppInterfaceApi,
    bounded_direct: &mut AppInterfaceApi,
    app: InstalledAppId,
    call: ZomeCallParamsSigned,
    deadline_ms: u32,
    declared: Duration,
    plain_step: Step,
    plain_direct_step: Step,
    bounded_step: Step,
    bounded_direct_step: Step,
)
    requires
        old(plain)@ == old(plain_direct)@,
        old(bounded)@ == old(bounded_direct)@,
        declared.nanos == deadline_ms * 1_000_000,
        call_ensures(
            AppInterfaceApi::handle_app_request_inner,
            (plain, app, AppRequest::CallZome(call)),
            plain_step,
        ),
        call_ensures(
            AppInterfaceApi::handle_call_zome,
            (plain_direct, call, None::<Duration>),
            plain_direct_step,
        ),
        call_ensures(
            AppInterfaceApi::handle_app_request_inner,
            (bounded, app, AppRequest::CallZomeWithDeadline { call, deadline_ms }),
            bounded_step,
        ),
        call_ensures(
            AppInterfaceApi::handle_call_zome,
            (bounded_direct, call, Some(declared)),
            bounded_direct_step,
        ),
    ensures
        plain_step == plain_direct_step,
        final(plain)@ == final(plain_direct)@,
        bounded_step == bounded_direct_step,
        final(bounded)@ == final(bounded_direct)@,
{
}

/// While the conductor does not handle requests, every request fails with its error; a request that
/// could not be read is answered with what was wrong with it; every other one is routed. Only a
/// request that is routed changes the interface.
pub proof fn law_requests_are_handled_if_possible(
    api: &mut AppInterfaceApi,
    direct: &mut AppInterfaceApi,
    app: InstalledAppId,
    running: Result<(), ConductorApiError>,
    request: Result<AppRequest, SerializedBytesError>,
    result: Result<Step, InterfaceError>,
    routed: Step,
)
    requires
        call_ensures(AppInterfaceApi::handle_request, (api, app, running, request), result),
        request matches Ok(r) ==> old(direct)@ == old(api)@ && call_ensures(
            AppInterfaceApi::handle_app_request_inner,
            (direct, app, r),
            routed,
        ),
    ensures
        running matches Err(e) ==> {
            &&& result == Err::<Step, InterfaceError>(InterfaceError::RequestHandler(e))
            &&& final(api)@ == old(api)@
        },
        running is Ok ==> (request matches Err(e) ==> {
            &&& result == Ok::<Step, InterfaceError>(
                Step::Respond(
                    AppResponse::Error(
                        ExternalApiWireError::Deserialization(SerializationError::Bytes(e)),
                    ),
                ),
            )
            &&& final(api)@ == old(api)@
        }),
        running is Ok && request is Ok ==> result == Ok::<Step, InterfaceError>(routed)
            && final(api)@ == final(direct)@,
{
}

/// A token is handed to the conductor as it was presented, and its verdict is passed on.
pub proof fn law_tokens_are_checked_by_the_conductor(
    api: AppInterfaceApi,
    auth: AppAuthentication,
    call: ConductorCall,
    app: InstalledAppId,
    error: ConductorApiError,
    granted: Result<InstalledAppId, InterfaceError>,
    refused: Result<InstalledAppId, InterfaceError>,
)
    requires
        call_ensures(AppInterfaceApi::auth, (&api, auth), call),
        call_ensures(
            AppInterfaceApi::authenticated,
            (&api, Ok::<InstalledAppId, ConductorApiError>(app)),
            granted,
        ),
        call_ensures(
            AppInterfaceApi::authenticated,
            (&api, Err::<InstalledAppId, ConductorApiError>(error)),
            refused,
        ),
    ensures
        call matches ConductorCall::AuthenticateAppToken { token, installed_app_id } && token
            == auth.token && installed_app_id == auth.installed_app_id,
        granted == Ok::<InstalledAppId, InterfaceError>(app),
        refused == Err::<InstalledAppId, InterfaceError>(InterfaceError::RequestHandler(error)),
{
}

/// The number of calls that are told to hold a slot is the number of those that do.
pub proof fn law_slots_are_counted(api: AppInterfaceApi, running: usize)
    requires
        call_ensures(AppInterfaceApi::in_flight, (&api,), running),
    ensures
        running == api@.in_flight.len(),
{
}

/// A ticket is missing exactly if none is left and the request is a zome call that would be made.
pub proof fn law_tickets_are_missing_for_admitted_calls_only(
    api: AppInterfaceApi,
    request: AppRequest,
    left: bool,
    running: usize,
    admission: ZomeCallAdmission,
    declared: Option<Duration>,
    decision: ZomeCallAdmissionDecision,
)
    requires
        call_ensures(AppInterfaceApi::has_ticket_for, (&api, &request), left),
        call_ensures(AppInterfaceApi::in_flight, (&api,), running),
        admission@ == api@.policy,
        declared == match request {
            AppRequest::CallZomeWithDeadline { deadline_ms, .. } => Some(
                Duration { nanos: (deadline_ms * 1_000_000) as u128 },
            ),
            _ => None,
        },
        call_ensures(ZomeCallAdmission::decide, (&admission, declared, running), decision),
    ensures
        !left <==> api@.next_ticket >= u64::MAX && (request is CallZome
            || request is CallZomeWithDeadline) && decision is Admit,
{
}

/// Which replies a pending request can get: every call can fail; otherwise each request gets the kind
/// of reply that it waits for. A deadline passes only for a call that has one, and it is never the
/// network that fails a zome call.
pub proof fn law_requests_get_the_replies_they_wait_for(
    reply: ConductorReply,
    pending: PendingRequest,
    fits: bool,
)
    requires
        call_ensures(is_answer, (&reply, &pending), fits),
    ensures
        reply is Failed ==> fits,
        !(reply is Failed) ==> (fits <==> match pending {
            PendingRequest::AppInfo => reply is AppInfo,
            PendingRequest::StatusToEnable { .. } => reply is AppInfo,
            PendingRequest::AgentInfo => reply is AgentInfos,
            PendingRequest::ListWasmHostFunctions => reply is Names,
            PendingRequest::PeerMetaInfo
            | PendingRequest::CountersigningSessionState
            | PendingRequest::CreateCloneCell
            | PendingRequest::EnableCloneCell
            | PendingRequest::DumpOpTimings
            | PendingRequest::DumpNetworkMetrics
            | PendingRequest::DumpNetworkStats => reply is Value,
            PendingRequest::AbandonCountersigningSession
            | PendingRequest::PublishCountersigningSession
            | PendingRequest::DisableCloneCell
            | PendingRequest::ProvideMemproofs
            | PendingRequest::EnableApp
            | PendingRequest::SendDirectSignal => reply is Done,
            PendingRequest::CallZome { deadline, .. } => {
                ||| reply is DeadlineElapsed && deadline is Some
                ||| reply matches ConductorReply::ZomeCall(outcome) && !(outcome matches Ok(
                    ZomeCallResponse::NetworkError(_),
                ))
            },
        }),
{
}

/// When the app is described to itself, the conductor is asked for just that, with all that was given, and what it
/// replies is the response. The interface is left as it is.
pub proof fn law_request_app_info(
    first: &mut AppInterfaceApi,
    second: &mut AppInterfaceApi,
    app: InstalledAppId,
    info: Option<AppInfo>,
    step: Step,
    last: Step,
)
    requires
        old(second)@.wf(),
        call_ensures(
            AppInterfaceApi::handle_app_request_inner,
            (first, app, AppRequest::AppInfo),
            step,
        ),
    ensures
        final(first)@ == old(first)@,
        step matches Step::Call { call, pending } && {
            let reply = ConductorReply::AppInfo(info);
            &&& call == (ConductorCall::GetAppInfo { app })
            &&& call_requires(AppInterfaceApi::resume, (second, pending, reply))
            &&& call_ensures(AppInterfaceApi::resume, (second, pending, reply), last) ==> last
                == Step::Respond(AppResponse::AppInfo(info)) && final(second)@ == old(second)@
        },
{
}

/// When a peer is described, the conductor is asked for just that, with all that was given, and what it
/// replies is the response. The interface is left as it is.
pub proof fn law_request_peer_meta_info(
    first: &mut AppInterfaceApi,
    second: &mut AppInterfaceApi,
    app: InstalledAppId,
    url: String,
    dna_hashes: Option<Vec<DnaHash>>,
    value: Encoded,
    step: Step,
    last: Step,
)
    requires
        old(second)@.wf(),
        call_ensures(
            AppInterfaceApi::handle_app_request_inner,
            (first, app, AppRequest::PeerMetaInfo { url, dna_hashes }),
            step,
        ),
    ensures
        final(first)@ == old(first)@,
        step matches Step::Call { call, pending } && {
            let reply = ConductorReply::Value(value);
            &&& call == (ConductorCall::AppPeerMetaInfo { app, url, dna_hashes })
            &&& call_requires(AppInterfaceApi::resume, (second, pending, reply))
            &&& call_ensures(AppInterfaceApi::resume, (second, pending, reply), last) ==> last
                == Step::Respond(AppResponse::PeerMetaInfo(value)) && final(second)@ == old(second)@
        },
{
}

/// When the state of a countersigning session is told, the conductor is asked for just that, with all that was given, and what it
/// replies is the response. The interface is left as it is.
pub proof fn law_request_countersigning_session_state(
    first: &mut AppInterfaceApi,
    second: &mut AppInterfaceApi,
    app: InstalledAppId,
    cell: CellId,
    value: Encoded,
    step: Step,
    last: Step,
)
    requires
        old(second)@.wf(),
        call_ensures(
            AppInterfaceApi::handle_app_request_inner,
            (first, app, AppRequest::GetCountersigningSessionState(cell)),
            step,
        ),
    ensures
        final(first)@ == old(first)@,
        step matches Step::Call { call, pending } && {
            let reply = ConductorReply::Value(value);
            &&& call == ConductorCall::GetCountersigningSessionState(cell)
            &&& call_requires(AppInterfaceApi::resume, (second, pending, reply))
            &&& call_ensures(AppInterfaceApi::resume, (second, pending, reply), last) ==> last
                == Step::Respond(AppResponse::CountersigningSessionState(value)) && final(second)@ == old(second)@
        },
{
}

/// When a countersigning session is given up, the conductor is asked for just that, with all that was given, and what it
/// replies is the response. The interface is left as it is.
pub proof fn law_request_abandoned_countersigning_session(
    first: &mut AppInterfaceApi,
    second: &mut AppInterfaceApi,
    app: InstalledAppId,
    cell: CellId,
    step: Step,
    last: Step,
)
    requires
        old(second)@.wf(),
        call_ensures(
            AppInterfaceApi::handle_app_request_inner,
            (first, app, AppRequest::AbandonCountersigningSession(cell)),
            step,
        ),
    ensures
        final(first)@ == old(first)@,
        step matches Step::Call { call, pending } && {
            let reply = ConductorReply::Done;
            &&& call == ConductorCall::AbandonCountersigningSession(cell)
            &&& call_requires(AppInterfaceApi::resume, (second, pending, reply))
            &&& call_ensures(AppInterfaceApi::resume, (second, pending, reply), last) ==> last
                == Step::Respond(AppResponse::CountersigningSessionAbandoned) && final(second)@ == old(second)@
        },
{
}

/// When a countersigning session is published, the conductor is asked for just that, with all that was given, and what it
/// replies is the response. The interface is left as it is.
pub proof fn law_request_published_countersigning_session(
    first: &mut AppInterfaceApi,
    second: &mut AppInterfaceApi,
    app: InstalledAppId,
    cell: CellId,
    step: Step,
    last: Step,
)
    requires
        old(second)@.wf(),
        call_ensures(
            AppInterfaceApi::handle_app_request_inner,
            (first, app, AppRequest::PublishCountersigningSession(cell)),
            step,
        ),
    ensures
        final(first)@ == old(first)@,
        step matches Step::Call { call, pending } && {
            let reply = ConductorReply::Done;
            &&& call == ConductorCall::PublishCountersigningSession(cell)
            &&& call_requires(AppInterfaceApi::resume, (second, pending, reply))
            &&& call_ensures(AppInterfaceApi::resume, (second, pending, reply), last) ==> last
                == Step::Respond(AppResponse::PublishCountersigningSessionTriggered) && final(second)@ == old(second)@
        },
{
}

/// When a clone cell is created, the conductor is asked for just that, with all that was given, and what it
/// replies is the response. The interface is left as it is.
pub proof fn law_request_created_clone_cell(
    first: &mut AppInterfaceApi,
    second: &mut AppInterfaceApi,
    app: InstalledAppId,
    payload: Encoded,
    value: Encoded,
    step: Step,
    last: Step,
)
    requires
        old(second)@.wf(),
        call_ensures(
            AppInterfaceApi::handle_app_request_inner,
            (first, app, AppRequest::CreateCloneCell(payload)),
            step,
        ),
    ensures
        final(first)@ == old(first)@,
        step matches Step::Call { call, pending } && {
            let reply = ConductorReply::Value(value);
            &&& call == (ConductorCall::CreateCloneCell { app, payload })
            &&& call_requires(AppInterfaceApi::resume, (second, pending, reply))
            &&& call_ensures(AppInterfaceApi::resume, (second, pending, reply), last) ==> last
                == Step::Respond(AppResponse::CloneCellCreated(value)) && final(second)@ == old(second)@
        },
{
}

/// When a clone cell is disabled, the conductor is asked for just that, with all that was given, and what it
/// replies is the response. The interface is left as it is.
pub proof fn law_request_disabled_clone_cell(
    first: &mut AppInterfaceApi,
    second: &mut AppInterfaceApi,
    app: InstalledAppId,
    payload: Encoded,
    step: Step,
    last: Step,
)
    requires
        old(second)@.wf(),
        call_ensures(
            AppInterfaceApi::handle_app_request_inner,
            (first, app, AppRequest::DisableCloneCell(payload)),
            step,
        ),
    ensures
        final(first)@ == old(first)@,
        step matches Step::Call { call, pending } && {
            let reply = ConductorReply::Done;
            &&& call == (ConductorCall::DisableCloneCell { app, payload })
            &&& call_requires(AppInterfaceApi::resume, (second, pending, reply))
            &&& call_ensures(AppInterfaceApi::resume, (second, pending, reply), last) ==> last
                == Step::Respond(AppResponse::CloneCellDisabled) && final(second)@ == old(second)@
        },
{
}

/// When a clone cell is enabled, the conductor is asked for just that, with all that was given, and what it
/// replies is the response. The interface is left as it is.
pub proof fn law_request_enabled_clone_cell(
    first: &mut AppInterfaceApi,
    second: &mut AppInterfaceApi,
    app: InstalledAppId,
    payload: Encoded,
    value: Encoded,
    step: Step,
    last: Step,
)
    requires
        old(second)@.wf(),
        call_ensures(
            AppInterfaceApi::handle_app_request_inner,
            (first, app, AppRequest::EnableCloneCell(payload)),
            step,
        ),
    ensures
        final(first)@ == old(first)@,
        step matches Step::Call { call, pending } && {
            let reply = ConductorReply::Value(value);
            &&& call == (ConductorCall::EnableCloneCell { app, payload })
            &&& call_requires(AppInterfaceApi::resume, (second, pending, reply))
            &&& call_ensures(AppInterfaceApi::resume, (second, pending, reply), last) ==> last
                == Step::Respond(AppResponse::CloneCellEnabled(value)) && final(second)@ == old(second)@
        },
{
}

/// When op timings are dumped, the conductor is asked for just that, with all that was given, and what it
/// replies is the response. The interface is left as it is.
pub proof fn law_request_dumped_op_timings(
    first: &mut AppInterfaceApi,
    second: &mut AppInterfaceApi,
    app: InstalledAppId,
    dna_hash: DnaHash,
    cursor: Option<u64>,
    limit: Option<u32>,
    value: Encoded,
    step: Step,
    last: Step,
)
    requires
        old(second)@.wf(),
        call_ensures(
            AppInterfaceApi::handle_app_request_inner,
            (first, app, AppRequest::DumpOpTimings { dna_hash, cursor, limit }),
            step,
        ),
    ensures
        final(first)@ == old(first)@,
        step matches Step::Call { call, pending } && {
            let reply = ConductorReply::Value(value);
            &&& call == (ConductorCall::DumpOpTimings { app, dna_hash, cursor, limit })
            &&& call_requires(AppInterfaceApi::resume, (second, pending, reply))
            &&& call_ensures(AppInterfaceApi::resume, (second, pending, reply), last) ==> last
                == Step::Respond(AppResponse::OpTimingsDumped(value)) && final(second)@ == old(second)@
        },
{
}

/// When network metrics are dumped, the conductor is asked for just that, with all that was given, and what it
/// replies is the response. The interface is left as it is.
pub proof fn law_request_dumped_network_metrics(
    first: &mut AppInterfaceApi,
    second: &mut AppInterfaceApi,
    app: InstalledAppId,
    dna_hash: Option<DnaHash>,
    include_dht_summary: bool,
    value: Encoded,
    step: Step,
    last: Step,
)
    requires
        old(second)@.wf(),
        call_ensures(
            AppInterfaceApi::handle_app_request_inner,
            (first, app, AppRequest::DumpNetworkMetrics { dna_hash, include_dht_summary }),
            step,
        ),
    ensures
        final(first)@ == old(first)@,
        step matches Step::Call { call, pending } && {
            let reply = ConductorReply::Value(value);
            &&& call == (ConductorCall::DumpNetworkMetrics { app, dna_hash, include_dht_summary })
            &&& call_requires(AppInterfaceApi::resume, (second, pending, reply))
            &&& call_ensures(AppInterfaceApi::resume, (second, pending, reply), last) ==> last
                == Step::Respond(AppResponse::NetworkMetricsDumped(value)) && final(second)@ == old(second)@
        },
{
}

/// When network statistics are dumped, the conductor is asked for just that, with all that was given, and what it
/// replies is the response. The interface is left as it is.
pub proof fn law_request_dumped_network_stats(
    first: &mut AppInterfaceApi,
    second: &mut AppInterfaceApi,
    app: InstalledAppId,
    value: Encoded,
    step: Step,
    last: Step,
)
    requires
        old(second)@.wf(),
        call_ensures(
            AppInterfaceApi::handle_app_request_inner,
            (first, app, AppRequest::DumpNetworkStats),
            step,
        ),
    ensures
        final(first)@ == old(first)@,
        step matches Step::Call { call, pending } && {
            let reply = ConductorReply::Value(value);
            &&& call == (ConductorCall::DumpNetworkStats { app })
            &&& call_requires(AppInterfaceApi::resume, (second, pending, reply))
            &&& call_ensures(AppInterfaceApi::resume, (second, pending, reply), last) ==> last
                == Step::Respond(AppResponse::NetworkStatsDumped(value)) && final(second)@ == old(second)@
        },
{
}

/// When the functions of the host are listed, the conductor is asked for just that, with all that was given, and what it
/// replies is the response. The interface is left as it is.
pub proof fn law_request_listed_wasm_host_functions(
    first: &mut AppInterfaceApi,
    second: &mut AppInterfaceApi,
    app: InstalledAppId,
    names: Vec<String>,
    step: Step,
    last: Step,
)
    requires
        old(second)@.wf(),
        call_ensures(
            AppInterfaceApi::handle_app_request_inner,
            (first, app, AppRequest::ListWasmHostFunctions),
            step,
        ),
    ensures
        final(first)@ == old(first)@,
        step matches Step::Call { call, pending } && {
            let reply = ConductorReply::Names(names);
            &&& call == ConductorCall::ListWasmHostFunctions
            &&& call_requires(AppInterfaceApi::resume, (second, pending, reply))
            &&& call_ensures(AppInterfaceApi::resume, (second, pending, reply), last) ==> last
                == Step::Respond(AppResponse::ListWasmHostFunctions(names)) && final(second)@ == old(second)@
        },
{
}

/// When membrane proofs are provided, the conductor is asked for just that, with all that was given, and what it
/// replies is the response. The interface is left as it is.
pub proof fn law_request_provided_memproofs(
    first: &mut AppInterfaceApi,
    second: &mut AppInterfaceApi,
    app: InstalledAppId,
    memproofs: Encoded,
    step: Step,
    last: Step,
)
    requires
        old(second)@.wf(),
        call_ensures(
            AppInterfaceApi::handle_app_request_inner,
            (first, app, AppRequest::ProvideMemproofs(memproofs)),
            step,
        ),
    ensures
        final(first)@ == old(first)@,
        step matches Step::Call { call, pending } && {
            let reply = ConductorReply::Done;
            &&& call == (ConductorCall::ProvideMemproofs { app, memproofs })
            &&& call_requires(AppInterfaceApi::resume, (second, pending, reply))
            &&& call_ensures(AppInterfaceApi::resume, (second, pending, reply), last) ==> last
                == Step::Respond(AppResponse::Completed) && final(second)@ == old(second)@
        },
{
}

/// When a signal is sent, the conductor is asked for just that, with all that was given, and what it
/// replies is the response. The interface is left as it is.
pub proof fn law_request_sent_direct_signals(
    first: &mut AppInterfaceApi,
    second: &mut AppInterfaceApi,
    app: InstalledAppId,
    dna_hash: DnaHash,
    agents: Vec<AgentPubKey>,
    signal: Encoded,
    step: Step,
    last: Step,
)
    requires
        old(second)@.wf(),
        call_ensures(
            AppInterfaceApi::handle_app_request_inner,
            (first, app, AppRequest::SendDirectSignal { dna_hash, agents, signal }),
            step,
        ),
    ensures
        final(first)@ == old(first)@,
        step matches Step::Call { call, pending } && {
            let reply = ConductorReply::Done;
            &&& call == (ConductorCall::SendDirectSignal { app, dna_hash, agents, signal })
            &&& call_requires(AppInterfaceApi::resume, (second, pending, reply))
            &&& call_ensures(AppInterfaceApi::resume, (second, pending, reply), last) ==> last
                == Step::Respond(AppResponse::Completed) && final(second)@ == old(second)@
        },
{
}

/// The agents of an app are asked for in the spaces that were given. If all of them could be encoded,
/// the response lists them all, in order; otherwise the first error is the response.
pub proof fn law_request_agent_infos(
    first: &mut AppInterfaceApi,
    second: &mut AppInterfaceApi,
    app: InstalledAppId,
    dna_hashes: Option<Vec<DnaHash>>,
    results: Vec<Result<String, ConductorApiError>>,
    step: Step,
    last: Step,
    i: int,
)
    requires
        old(second)@.wf(),
        call_ensures(
            AppInterfaceApi::handle_app_request_inner,
            (first, app, AppRequest::AgentInfo { dna_hashes }),
            step,
        ),
    ensures
        final(first)@ == old(first)@,
        step matches Step::Call { call, pending } && {
            let reply = ConductorReply::AgentInfos(results);
            &&& call == (ConductorCall::GetAppAgentInfos { app, dna_hashes })
            &&& call_requires(AppInterfaceApi::resume, (second, pending, reply))
            &&& call_ensures(AppInterfaceApi::resume, (second, pending, reply), last) ==> {
                &&& final(second)@ == old(second)@
                &&& (forall|j: int| 0 <= j < results.len() ==> #[trigger] results[j] is Ok) ==> {
                    &&& last matches Step::Respond(AppResponse::AgentInfo(items))
                    &&& items.len() == results.len()
                    &&& 0 <= i < items.len() ==> results[i] == Ok::<String, ConductorApiError>(
                        items[i],
                    )
                }
                &&& 0 <= i < results.len() && (forall|j: int|
                    0 <= j < i ==> #[trigger] results[j] is Ok) ==> (results[i] matches Err(e)
                    ==> last == Step::Respond(
                    AppResponse::Error(ExternalApiWireError::Conductor(e)),
                ))
            }
        },
{
    if 0 <= i < results.len() && (forall|j: int| 0 <= j < i ==> #[trigger] results[j] is Ok) {
        assert(forall|k: int|
            #[trigger] crate::app_interface::first_error(results@, k) && results[i] is Err ==> k == i);
    }
}

/// To enable an app, its description is asked for first. It is enabled if it is installed and is
/// enabled already, or is disabled only because it was not started since its membrane proofs were
/// provided; otherwise the response says why it is not.
pub proof fn law_request_enabled_app(
    first: &mut AppInterfaceApi,
    second: &mut AppInterfaceApi,
    third: &mut AppInterfaceApi,
    app: InstalledAppId,
    info: Option<AppInfo>,
    step: Step,
    next: Step,
    last: Step,
)
    requires
        old(second)@.wf(),
        old(third)@.wf(),
        call_ensures(
            AppInterfaceApi::handle_app_request_inner,
            (first, app, AppRequest::EnableApp),
            step,
        ),
    ensures
        final(first)@ == old(first)@,
        step matches Step::Call { call, pending } && {
            let reply = ConductorReply::AppInfo(info);
            &&& call == (ConductorCall::GetAppInfo { app })
            &&& call_requires(AppInterfaceApi::resume, (second, pending, reply))
            &&& call_ensures(AppInterfaceApi::resume, (second, pending, reply), next) ==> {
                &&& final(second)@ == old(second)@
                &&& info is None ==> {
                    &&& next matches Step::Respond(
                        AppResponse::Error(
                            ExternalApiWireError::Conductor(ConductorApiError::Other(text)),
                        ),
                    )
                    &&& text@ == "app not found"@
                }
                &&& info matches Some(found) ==> match found.status {
                    AppStatus::Enabled
                    | AppStatus::Disabled(
                        DisabledAppReason::NotStartedAfterProvidingMemproofs,
                    ) => {
                        &&& next matches Step::Call { call: second_call, pending: second_pending }
                        &&& second_call == (ConductorCall::EnableApp { app })
                        &&& call_requires(
                            AppInterfaceApi::resume,
                            (third, second_pending, ConductorReply::Done),
                        )
                        &&& call_ensures(
                            AppInterfaceApi::resume,
                            (third, second_pending, ConductorReply::Done),
                            last,
                        ) ==> last == Step::Respond(AppResponse::Completed) && final(third)@ == old(
                            third,
                        )@
                    },
                    _ => {
                        &&& next matches Step::Respond(
                            AppResponse::Error(
                                ExternalApiWireError::Conductor(ConductorApiError::Other(text)),
                            ),
                        )
                        &&& text@ == "app not in correct state to enable"@
                    },
                }
            }
        },
{
}

/// No two requests are confused: different requests that are not zome calls lead to different steps.
pub proof fn law_no_two_requests_are_confused(
    one_api: &mut AppInterfaceApi,
    other_api: &mut AppInterfaceApi,
    app: InstalledAppId,
    other_app: InstalledAppId,
    one: AppRequest,
    other: AppRequest,
    step: Step,
)
    requires
        !(one is CallZome || one is CallZomeWithDeadline),
        call_ensures(AppInterfaceApi::handle_app_request_inner, (one_api, app, one), step),
        call_ensures(AppInterfaceApi::handle_app_request_inner, (other_api, other_app, other), step),
    ensures
        one == other,
        final(one_api)@ == old(one_api)@,
{
}

/// Whatever a request waits for, if the call fails, the response is the conductor's error.
pub proof fn law_failures_are_told(
    api: &mut AppInterfaceApi,
    inner: &mut AppInterfaceApi,
    pending: PendingRequest,
    error: ConductorApiError,
    step: Step,
    next: Result<Step, ConductorApiError>,
)
    requires
        call_ensures(
            AppInterfaceApi::resume,
            (api, pending, ConductorReply::Failed(error)),
            step,
        ),
        call_ensures(
            AppInterfaceApi::resume_inner,
            (inner, pending, ConductorReply::Failed(error)),
            next,
        ),
    ensures
        step == Step::Respond(AppResponse::Error(ExternalApiWireError::Conductor(error))),
        next == Err::<Step, ConductorApiError>(error),
{
}

/// To resume a request whose call gave a value is to take its next step.
pub proof fn law_values_are_answered(
    api: &mut AppInterfaceApi,
    inner: &mut AppInterfaceApi,
    pending: PendingRequest,
    value: Encoded,
    step: Step,
    next: Result<Step, ConductorApiError>,
)
    requires
        old(api)@ == old(inner)@,
        call_ensures(AppInterfaceApi::resume, (api, pending, ConductorReply::Value(value)), step),
        call_ensures(
            AppInterfaceApi::resume_inner,
            (inner, pending, ConductorReply::Value(value)),
            next,
        ),
    ensures
        final(api)@ == final(inner)@,
        next matches Ok(s) && s == step,
{
}

/// Whatever a zome call comes to, its slot is given back, and no other; the ticket is not given out
/// again. What else is answered leaves the slots alone.
pub proof fn law_replies_give_slots_back(
    api: &mut AppInterfaceApi,
    pending: PendingRequest,
    reply: ConductorReply,
    step: Step,
    ticket: u64,
)
    requires
        call_ensures(AppInterfaceApi::resume, (api, pending, reply), step),
    ensures
        final(api)@.policy == old(api)@.policy,
        final(api)@.next_ticket == old(api)@.next_ticket,
        final(api)@.in_flight.contains(ticket) <==> old(api)@.in_flight.contains(ticket) && !(
        pending matches PendingRequest::CallZome { ticket: slot, .. } && slot == ticket),
{
}

/// The outcome of a zome call is told as it is, whichever call it was: the output unchanged, the
/// runtime's error unchanged, and the other outcomes in words.
pub proof fn law_outcomes_are_told(
    api: &mut AppInterfaceApi,
    ticket: u64,
    deadline: Option<Duration>,
    outcome: Result<ZomeCallResponse, RibosomeError>,
    step: Step,
    response: AppResponse,
)
    requires
        !(outcome matches Ok(ZomeCallResponse::NetworkError(_))),
        call_ensures(
            AppInterfaceApi::resume,
            (
                api,
                PendingRequest::CallZome { ticket, deadline },
                ConductorReply::ZomeCall(outcome),
            ),
            step,
        ),
        call_ensures(zome_call_response, (outcome,), response),
    ensures
        outcome matches Ok(ZomeCallResponse::Output(output)) ==> {
            &&& response == AppResponse::ZomeCalled(output)
            &&& step == Step::Respond(AppResponse::ZomeCalled(output))
        },
        outcome matches Err(e) ==> {
            &&& response == AppResponse::Error(ExternalApiWireError::Ribosome(e))
            &&& step == Step::Respond(AppResponse::Error(ExternalApiWireError::Ribosome(e)))
        },
        outcome matches Ok(ZomeCallResponse::AuthenticationFailed(signature, provenance)) ==> {
            let text = "Authentication failure. Bad signature "@ + signature@ + " by provenance "@
                + provenance@ + "."@;
            &&& response matches AppResponse::Error(
                ExternalApiWireError::ZomeCallAuthenticationFailed(told),
            ) && told@ == text
            &&& step matches Step::Respond(
                AppResponse::Error(ExternalApiWireError::ZomeCallAuthenticationFailed(told)),
            ) && told@ == text
        },
        outcome matches Ok(ZomeCallResponse::Unauthorized(reason, cap_secret, zome, function)) ==> {
            let text = "Call was not authorized with reason "@ + reason@ + ", cap secret "@
                + cap_secret@ + " to call the function "@ + function@ + " in zome "@ + zome@;
            &&& response matches AppResponse::Error(
                ExternalApiWireError::ZomeCallUnauthorized(told),
            ) && told@ == text
            &&& step matches Step::Respond(
                AppResponse::Error(ExternalApiWireError::ZomeCallUnauthorized(told)),
            ) && told@ == text
        },
        outcome matches Ok(ZomeCallResponse::CountersigningSession(reason)) ==> {
            let text =
                "A countersigning session has failed to start on this zome call because: "@
                + reason@;
            &&& response matches AppResponse::Error(
                ExternalApiWireError::CountersigningSessionError(told),
            ) && told@ == text
            &&& step matches Step::Respond(
                AppResponse::Error(ExternalApiWireError::CountersigningSessionError(told)),
            ) && told@ == text
        },
{
}

/// Two zome calls that come to different outputs, or to different errors, are told apart.
pub proof fn law_outcomes_are_told_apart(
    one: ZomeCallResponse,
    other: ZomeCallResponse,
    error: RibosomeError,
    other_error: RibosomeError,
    response: AppResponse,
    failure: AppResponse,
)
    requires
        one is Output,
        !(other is NetworkError),
        call_ensures(zome_call_response, (Ok::<ZomeCallResponse, RibosomeError>(one),), response),
        call_ensures(zome_call_response, (Ok::<ZomeCallResponse, RibosomeError>(other),), response),
        call_ensures(zome_call_response, (Err::<ZomeCallResponse, RibosomeError>(error),), failure),
        call_ensures(
            zome_call_response,
            (Err::<ZomeCallResponse, RibosomeError>(other_error),),
            failure,
        ),
    ensures
        one == other,
        error == other_error,
        response != failure,
{
}

/// A zome call whose deadline has passed is answered with that deadline.
pub proof fn law_passed_deadlines_are_told(
    api: &mut AppInterfaceApi,
    ticket: u64,
    deadline: Duration,
    step: Step,
)
    requires
        call_ensures(
            AppInterfaceApi::resume,
            (
                api,
                PendingRequest::CallZome { ticket, deadline: Some(deadline) },
                ConductorReply::DeadlineElapsed,
            ),
            step,
        ),
    ensures
        step == Step::Respond(
            AppResponse::Error(ExternalApiWireError::ZomeCallDeadlineExceeded(deadline)),
        ),
{
}

} // verus!
