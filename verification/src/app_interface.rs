//! How the requests of apps are answered.
//!
//! A request is answered in steps. A step either gives the response, or names a call that the
//! conductor has to make; once the conductor has replied, the next step is taken. What is decided,
//! from which reply, and in which order stands here. To make the calls, and to wait for their
//! replies or for a deadline, is up to the conductor.

use crate::app_api::{
    AppAuthentication, AppInfo, AppRequest, AppResponse, AppStatus, ConductorApiError, ConductorCall,
    ConductorReply, DisabledAppReason, ExternalApiWireError, InstalledAppId, InterfaceError,
    PendingRequest, RibosomeError, SerializationError, Step, ZomeCallParamsSigned, ZomeCallRefusal,
    ZomeCallResponse,
};
use crate::time::{Duration, NANOS_PER_MILLI};
use crate::zome_call_admission::{
    AdmissionPolicy, ConductorConfig, ZomeCallAdmission, ZomeCallAdmissionDecision,
};
use holochain_serialized_bytes::SerializedBytesError;
use std::collections::HashSet;
use vstd::prelude::*;
use vstd::string::StringExecFns;

verus! {

broadcast use vstd::std_specs::hash::group_hash_axioms;

/// What an [`AppInterfaceApi`] stands for.
pub struct InterfaceState {
    /// The admission policy.
    pub policy: AdmissionPolicy,
    /// The tickets of the zome calls that hold a slot.
    pub in_flight: Set<u64>,
    /// The ticket of the next zome call.
    pub next_ticket: nat,
}

/// A deadline that is declared in milliseconds.
pub open spec fn millis(deadline_ms: u32) -> Duration {
    Duration { nanos: (deadline_ms * NANOS_PER_MILLI) as u128 }
}

impl InterfaceState {
    /// What holds of every interface: the calls that hold a slot are finitely many, and every ticket
    /// is given out once.
    pub open spec fn wf(self) -> bool {
        &&& self.in_flight.finite()
        &&& forall|ticket: u64| #[trigger] self.in_flight.contains(ticket) ==> ticket
            < self.next_ticket
    }

    /// What is done with a zome call that declares a deadline or none.
    pub open spec fn decision(self, declared: Option<Duration>) -> ZomeCallAdmissionDecision {
        self.policy.decision(declared, self.in_flight.len() as usize)
    }

    /// Whether a request takes a ticket: an admitted zome call does.
    pub open spec fn takes_ticket(self, request: AppRequest) -> bool {
        match request {
            AppRequest::CallZome(_) => self.decision(None) is Admit,
            AppRequest::CallZomeWithDeadline { deadline_ms, .. } => self.decision(
                Some(millis(deadline_ms)),
            ) is Admit,
            _ => false,
        }
    }

    /// The first step of a zome call: an admitted call is made, bounded by its deadline, and a
    /// refused one is answered at once.
    pub open spec fn zome_call_step(
        self,
        call: ZomeCallParamsSigned,
        declared: Option<Duration>,
    ) -> Step {
        match self.decision(declared) {
            ZomeCallAdmissionDecision::Admit(deadline) => Step::Call {
                call: ConductorCall::HandleExternalZomeCall { call, deadline },
                pending: PendingRequest::CallZome { ticket: self.next_ticket as u64, deadline },
            },
            ZomeCallAdmissionDecision::Refuse { in_flight, max_in_flight } => Step::Respond(
                AppResponse::Error(
                    ExternalApiWireError::ZomeCallRefused(
                        ZomeCallRefusal { in_flight, max_in_flight },
                    ),
                ),
            ),
        }
    }

    /// The first step of a request of `app`: a zome call has to be admitted, and for every other
    /// request the conductor is called.
    pub open spec fn first_step(self, app: InstalledAppId, request: AppRequest) -> Step {
        match request {
            AppRequest::AppInfo => Step::Call {
                call: ConductorCall::GetAppInfo { app },
                pending: PendingRequest::AppInfo,
            },
            AppRequest::AgentInfo { dna_hashes } => Step::Call {
                call: ConductorCall::GetAppAgentInfos { app, dna_hashes },
                pending: PendingRequest::AgentInfo,
            },
            AppRequest::PeerMetaInfo { url, dna_hashes } => Step::Call {
                call: ConductorCall::AppPeerMetaInfo { app, url, dna_hashes },
                pending: PendingRequest::PeerMetaInfo,
            },
            AppRequest::GetCountersigningSessionState(cell) => Step::Call {
                call: ConductorCall::GetCountersigningSessionState(cell),
                pending: PendingRequest::CountersigningSessionState,
            },
            AppRequest::AbandonCountersigningSession(cell) => Step::Call {
                call: ConductorCall::AbandonCountersigningSession(cell),
                pending: PendingRequest::AbandonCountersigningSession,
            },
            AppRequest::PublishCountersigningSession(cell) => Step::Call {
                call: ConductorCall::PublishCountersigningSession(cell),
                pending: PendingRequest::PublishCountersigningSession,
            },
            AppRequest::CreateCloneCell(payload) => Step::Call {
                call: ConductorCall::CreateCloneCell { app, payload },
                pending: PendingRequest::CreateCloneCell,
            },
            AppRequest::DisableCloneCell(payload) => Step::Call {
                call: ConductorCall::DisableCloneCell { app, payload },
                pending: PendingRequest::DisableCloneCell,
            },
            AppRequest::EnableCloneCell(payload) => Step::Call {
                call: ConductorCall::EnableCloneCell { app, payload },
                pending: PendingRequest::EnableCloneCell,
            },
            AppRequest::DumpOpTimings { dna_hash, cursor, limit } => Step::Call {
                call: ConductorCall::DumpOpTimings { app, dna_hash, cursor, limit },
                pending: PendingRequest::DumpOpTimings,
            },
            AppRequest::DumpNetworkMetrics { dna_hash, include_dht_summary } => Step::Call {
                call: ConductorCall::DumpNetworkMetrics { app, dna_hash, include_dht_summary },
                pending: PendingRequest::DumpNetworkMetrics,
            },
            AppRequest::DumpNetworkStats => Step::Call {
                call: ConductorCall::DumpNetworkStats { app },
                pending: PendingRequest::DumpNetworkStats,
            },
            AppRequest::ListWasmHostFunctions => Step::Call {
                call: ConductorCall::ListWasmHostFunctions,
                pending: PendingRequest::ListWasmHostFunctions,
            },
            AppRequest::ProvideMemproofs(memproofs) => Step::Call {
                call: ConductorCall::ProvideMemproofs { app, memproofs },
                pending: PendingRequest::ProvideMemproofs,
            },
            AppRequest::EnableApp => Step::Call {
                call: ConductorCall::GetAppInfo { app },
                pending: PendingRequest::StatusToEnable { app },
            },
            AppRequest::SendDirectSignal { dna_hash, agents, signal } => Step::Call {
                call: ConductorCall::SendDirectSignal { app, dna_hash, agents, signal },
                pending: PendingRequest::SendDirectSignal,
            },
            AppRequest::CallZome(call) => self.zome_call_step(call, None),
            AppRequest::CallZomeWithDeadline { call, deadline_ms } => self.zome_call_step(
                call,
                Some(millis(deadline_ms)),
            ),
        }
    }

    /// This interface after a zome call that declares a deadline or none: an admitted call holds a
    /// slot.
    pub open spec fn after_zome_call(self, declared: Option<Duration>) -> InterfaceState {
        match self.decision(declared) {
            ZomeCallAdmissionDecision::Admit(_) => InterfaceState {
                in_flight: self.in_flight.insert(self.next_ticket as u64),
                next_ticket: self.next_ticket + 1,
                ..self
            },
            ZomeCallAdmissionDecision::Refuse { .. } => self,
        }
    }

    /// This interface after the first step of a request.
    pub open spec fn after_first_step(self, request: AppRequest) -> InterfaceState {
        match request {
            AppRequest::CallZome(_) => self.after_zome_call(None),
            AppRequest::CallZomeWithDeadline { deadline_ms, .. } => self.after_zome_call(
                Some(millis(deadline_ms)),
            ),
            _ => self,
        }
    }

    /// This interface after what a request waited for has come: a zome call gives its slot back.
    pub open spec fn after_reply(self, pending: PendingRequest) -> InterfaceState {
        match pending {
            PendingRequest::CallZome { ticket, .. } => InterfaceState {
                in_flight: self.in_flight.remove(ticket),
                ..self
            },
            _ => self,
        }
    }
}

/// Whether a reply is one that the pending call can get.
///
/// Every call can fail. A deadline passes only where there is one. Zome calls of apps are never
/// routed to the network, so it is never the network that fails.
pub open spec fn answers(reply: ConductorReply, pending: PendingRequest) -> bool {
    match reply {
        ConductorReply::Failed(_) => true,
        ConductorReply::Done => {
            ||| pending is AbandonCountersigningSession
            ||| pending is PublishCountersigningSession
            ||| pending is DisableCloneCell
            ||| pending is ProvideMemproofs
            ||| pending is EnableApp
            ||| pending is SendDirectSignal
        },
        ConductorReply::AppInfo(_) => pending is AppInfo || pending is StatusToEnable,
        ConductorReply::AgentInfos(_) => pending is AgentInfo,
        ConductorReply::Value(_) => {
            ||| pending is PeerMetaInfo
            ||| pending is CountersigningSessionState
            ||| pending is CreateCloneCell
            ||| pending is EnableCloneCell
            ||| pending is DumpOpTimings
            ||| pending is DumpNetworkMetrics
            ||| pending is DumpNetworkStats
        },
        ConductorReply::Names(_) => pending is ListWasmHostFunctions,
        ConductorReply::ZomeCall(outcome) => pending is CallZome && !(outcome matches Ok(
            ZomeCallResponse::NetworkError(_),
        )),
        ConductorReply::DeadlineElapsed => pending matches PendingRequest::CallZome {
            deadline: Some(_),
            ..
        },
    }
}

/// Check whether a reply is one that the pending call can get.
pub fn is_answer(reply: &ConductorReply, pending: &PendingRequest) -> (fits: bool)
    ensures
        fits == answers(*reply, *pending),
{
    match (reply, pending) {
        (ConductorReply::Failed(_), _) => true,
        (ConductorReply::Done, PendingRequest::AbandonCountersigningSession)
        | (ConductorReply::Done, PendingRequest::PublishCountersigningSession)
        | (ConductorReply::Done, PendingRequest::DisableCloneCell)
        | (ConductorReply::Done, PendingRequest::ProvideMemproofs)
        | (ConductorReply::Done, PendingRequest::EnableApp)
        | (ConductorReply::Done, PendingRequest::SendDirectSignal) => true,
        (ConductorReply::AppInfo(_), PendingRequest::AppInfo)
        | (ConductorReply::AppInfo(_), PendingRequest::StatusToEnable { .. }) => true,
        (ConductorReply::AgentInfos(_), PendingRequest::AgentInfo) => true,
        (ConductorReply::Value(_), PendingRequest::PeerMetaInfo)
        | (ConductorReply::Value(_), PendingRequest::CountersigningSessionState)
        | (ConductorReply::Value(_), PendingRequest::CreateCloneCell)
        | (ConductorReply::Value(_), PendingRequest::EnableCloneCell)
        | (ConductorReply::Value(_), PendingRequest::DumpOpTimings)
        | (ConductorReply::Value(_), PendingRequest::DumpNetworkMetrics)
        | (ConductorReply::Value(_), PendingRequest::DumpNetworkStats) => true,
        (ConductorReply::Names(_), PendingRequest::ListWasmHostFunctions) => true,
        (ConductorReply::ZomeCall(outcome), PendingRequest::CallZome { .. }) => match outcome {
            Ok(ZomeCallResponse::NetworkError(_)) => false,
            _ => true,
        },
        (
            ConductorReply::DeadlineElapsed,
            PendingRequest::CallZome { deadline: Some(_), .. },
        ) => true,
        _ => false,
    }
}

/// The text of a failed authentication.
pub open spec fn authentication_text(signature: Seq<char>, provenance: Seq<char>) -> Seq<char> {
    "Authentication failure. Bad signature "@ + signature + " by provenance "@ + provenance + "."@
}

/// The text of a refused authorization.
pub open spec fn authorization_text(
    reason: Seq<char>,
    cap_secret: Seq<char>,
    zome_name: Seq<char>,
    fn_name: Seq<char>,
) -> Seq<char> {
    "Call was not authorized with reason "@ + reason + ", cap secret "@ + cap_secret
        + " to call the function "@ + fn_name + " in zome "@ + zome_name
}

/// The text of a countersigning session that could not be started.
pub open spec fn countersigning_text(reason: Seq<char>) -> Seq<char> {
    "A countersigning session has failed to start on this zome call because: "@ + reason
}

/// `response` tells the outcome of a zome call.
pub open spec fn tells_outcome(
    response: AppResponse,
    outcome: Result<ZomeCallResponse, RibosomeError>,
) -> bool {
    match outcome {
        Ok(ZomeCallResponse::Output(output)) => response == AppResponse::ZomeCalled(output),
        Ok(ZomeCallResponse::AuthenticationFailed(signature, provenance)) => {
            &&& response matches AppResponse::Error(
                ExternalApiWireError::ZomeCallAuthenticationFailed(text),
            )
            &&& text@ == authentication_text(signature@, provenance@)
        },
        Ok(ZomeCallResponse::Unauthorized(reason, cap_secret, zome_name, fn_name)) => {
            &&& response matches AppResponse::Error(ExternalApiWireError::ZomeCallUnauthorized(text))
            &&& text@ == authorization_text(reason@, cap_secret@, zome_name@, fn_name@)
        },
        Ok(ZomeCallResponse::CountersigningSession(reason)) => {
            &&& response matches AppResponse::Error(
                ExternalApiWireError::CountersigningSessionError(text),
            )
            &&& text@ == countersigning_text(reason@)
        },
        Ok(ZomeCallResponse::NetworkError(_)) => false,
        Err(e) => response == AppResponse::Error(ExternalApiWireError::Ribosome(e)),
    }
}

/// Whether an app of this status may be enabled.
pub open spec fn may_be_enabled(status: AppStatus) -> bool {
    ||| status is Enabled
    ||| status matches AppStatus::Disabled(DisabledAppReason::NotStartedAfterProvidingMemproofs)
}

/// The first error in a list of results is at position `i`.
pub open spec fn first_error<T, E>(results: Seq<Result<T, E>>, i: int) -> bool {
    &&& 0 <= i < results.len()
    &&& results[i] is Err
    &&& forall|j: int| 0 <= j < i ==> results[j] is Ok
}

/// `collected` is what a list of results comes to: all values if there is no error, or else the
/// first error.
pub open spec fn collects<T, E>(results: Seq<Result<T, E>>, collected: Result<Seq<T>, E>) -> bool {
    match collected {
        Ok(values) => {
            &&& values.len() == results.len()
            &&& forall|i: int| 0 <= i < results.len() ==> #[trigger] results[i] == Ok::<T, E>(values[i])
        },
        Err(e) => exists|i: int|
            #[trigger] first_error(results, i) && results[i] == Err::<T, E>(e),
    }
}

/// `next` is the step that follows, or the error that comes of it, once the pending request has
/// got its reply.
pub open spec fn follows(
    next: Result<Step, ConductorApiError>,
    pending: PendingRequest,
    reply: ConductorReply,
) -> bool {
    match (reply, pending) {
        (ConductorReply::Failed(e), _) => next == Err::<Step, ConductorApiError>(e),
        (ConductorReply::DeadlineElapsed, PendingRequest::CallZome { deadline: Some(d), .. }) => next
            == Ok::<_, ConductorApiError>(
            Step::Respond(AppResponse::Error(ExternalApiWireError::ZomeCallDeadlineExceeded(d))),
        ),
        (ConductorReply::ZomeCall(outcome), _) => {
            &&& next matches Ok(Step::Respond(response))
            &&& tells_outcome(response, outcome)
        },
        (ConductorReply::AppInfo(info), PendingRequest::StatusToEnable { app }) => match info {
            Some(info) => if may_be_enabled(info.status) {
                next == Ok::<_, ConductorApiError>(
                    Step::Call {
                        call: ConductorCall::EnableApp { app },
                        pending: PendingRequest::EnableApp,
                    },
                )
            } else {
                &&& next matches Err(ConductorApiError::Other(text))
                &&& text@ == "app not in correct state to enable"@
            },
            None => {
                &&& next matches Err(ConductorApiError::Other(text))
                &&& text@ == "app not found"@
            },
        },
        (ConductorReply::AgentInfos(results), _) => match next {
            Ok(Step::Respond(AppResponse::AgentInfo(items))) => collects(results@, Ok(items@)),
            Ok(_) => false,
            Err(e) => collects(results@, Err(e)),
        },
        _ => next == Ok::<_, ConductorApiError>(Step::Respond(plain_response(pending, reply))),
    }
}

/// The response to a request that needs nothing but its reply.
pub open spec fn plain_response(pending: PendingRequest, reply: ConductorReply) -> AppResponse {
    match (pending, reply) {
        (PendingRequest::AppInfo, ConductorReply::AppInfo(info)) => AppResponse::AppInfo(info),
        (PendingRequest::PeerMetaInfo, ConductorReply::Value(v)) => AppResponse::PeerMetaInfo(v),
        (
            PendingRequest::CountersigningSessionState,
            ConductorReply::Value(v),
        ) => AppResponse::CountersigningSessionState(v),
        (
            PendingRequest::AbandonCountersigningSession,
            _,
        ) => AppResponse::CountersigningSessionAbandoned,
        (
            PendingRequest::PublishCountersigningSession,
            _,
        ) => AppResponse::PublishCountersigningSessionTriggered,
        (PendingRequest::CreateCloneCell, ConductorReply::Value(v)) => AppResponse::CloneCellCreated(
            v,
        ),
        (PendingRequest::DisableCloneCell, _) => AppResponse::CloneCellDisabled,
        (PendingRequest::EnableCloneCell, ConductorReply::Value(v)) => AppResponse::CloneCellEnabled(
            v,
        ),
        (PendingRequest::DumpOpTimings, ConductorReply::Value(v)) => AppResponse::OpTimingsDumped(v),
        (
            PendingRequest::DumpNetworkMetrics,
            ConductorReply::Value(v),
        ) => AppResponse::NetworkMetricsDumped(v),
        (
            PendingRequest::DumpNetworkStats,
            ConductorReply::Value(v),
        ) => AppResponse::NetworkStatsDumped(v),
        (
            PendingRequest::ListWasmHostFunctions,
            ConductorReply::Names(names),
        ) => AppResponse::ListWasmHostFunctions(names),
        _ => AppResponse::Completed,
    }
}

/// All values of a list of results, or its first error.
fn collect_results<T, E>(results: Vec<Result<T, E>>) -> (collected: Result<Vec<T>, E>)
    ensures
        match collected {
            Ok(values) => collects(results@, Ok(values@)),
            Err(e) => collects(results@, Err::<Seq<T>, E>(e)),
        },
{
    let mut values: Vec<T> = Vec::new();
    let ghost all = results@;
    for result in it: results
        invariant
            it.seq() == all,
            values.len() == it.index(),
            forall|j: int| 0 <= j < values.len() ==> #[trigger] all[j] == Ok::<T, E>(values[j]),
    {
        match result {
            Ok(value) => {
                values.push(value);
            },
            Err(e) => {
                assert(first_error(all, it.index()));
                return Err(e);
            },
        }
    }
    Ok(values)
}

/// Tell the outcome of a zome call.
pub fn zome_call_response(outcome: Result<ZomeCallResponse, RibosomeError>) -> (response: AppResponse)
    requires
        !(outcome matches Ok(ZomeCallResponse::NetworkError(_))),
    ensures
        tells_outcome(response, outcome),
{
    match outcome {
        Ok(ZomeCallResponse::Output(output)) => AppResponse::ZomeCalled(output),
        Ok(ZomeCallResponse::AuthenticationFailed(signature, provenance)) => {
            let mut text = "Authentication failure. Bad signature ".to_owned();
            text.append(signature.as_str());
            text.append(" by provenance ");
            text.append(provenance.as_str());
            text.append(".");
            AppResponse::Error(ExternalApiWireError::ZomeCallAuthenticationFailed(text))
        },
        Ok(ZomeCallResponse::Unauthorized(reason, cap_secret, zome_name, fn_name)) => {
            let mut text = "Call was not authorized with reason ".to_owned();
            text.append(reason.as_str());
            text.append(", cap secret ");
            text.append(cap_secret.as_str());
            text.append(" to call the function ");
            text.append(fn_name.as_str());
            text.append(" in zome ");
            text.append(zome_name.as_str());
            AppResponse::Error(ExternalApiWireError::ZomeCallUnauthorized(text))
        },
        Ok(ZomeCallResponse::CountersigningSession(reason)) => {
            let mut text =
                "A countersigning session has failed to start on this zome call because: ".to_owned();
            text.append(reason.as_str());
            AppResponse::Error(ExternalApiWireError::CountersigningSessionError(text))
        },
        Ok(ZomeCallResponse::NetworkError(_)) => vstd::pervasive::unreached(),
        Err(e) => AppResponse::Error(ExternalApiWireError::Ribosome(e)),
    }
}

/// One interface through which apps reach the conductor.
#[derive(Debug)]
pub struct AppInterfaceApi {
    /// The admission policy for zome calls.
    admission: ZomeCallAdmission,
    /// The tickets of the zome calls that hold a slot.
    in_flight: HashSet<u64>,
    /// The ticket of the next zome call.
    next_ticket: u64,
}

impl View for AppInterfaceApi {
    type V = InterfaceState;

    closed spec fn view(&self) -> InterfaceState {
        InterfaceState {
            policy: self.admission@,
            in_flight: self.in_flight@,
            next_ticket: self.next_ticket as nat,
        }
    }
}

impl AppInterfaceApi {
    /// An interface of a conductor with the given configuration, on which nothing is running.
    pub fn new(config: &ConductorConfig) -> (api: Self)
        ensures
            api@.wf(),
            api@.policy == AdmissionPolicy::of(*config),
            api@.in_flight == Set::<u64>::empty(),
            api@.next_ticket == 0,
    {
        AppInterfaceApi {
            admission: ZomeCallAdmission::from_config(config),
            in_flight: HashSet::new(),
            next_ticket: 0,
        }
    }

    /// How many zome calls hold a slot.
    pub fn in_flight(&self) -> (n: usize)
        ensures
            n == self@.in_flight.len(),
    {
        self.in_flight.len()
    }

    /// Whether a request can be handled: if it takes a ticket, there has to be one left.
    pub fn has_ticket_for(&self, request: &AppRequest) -> (left: bool)
        ensures
            left == (self@.takes_ticket(*request) ==> self@.next_ticket < u64::MAX),
    {
        if self.next_ticket < u64::MAX {
            return true;
        }
        let declared: Option<Duration> = match request {
            AppRequest::CallZome(_) => None,
            AppRequest::CallZomeWithDeadline { deadline_ms, .. } => Some(
                Duration::from_millis(*deadline_ms as u64),
            ),
            _ => {
                return true;
            },
        };
        match self.admission.decide(declared, self.in_flight.len()) {
            ZomeCallAdmissionDecision::Admit(_) => false,
            ZomeCallAdmissionDecision::Refuse { .. } => true,
        }
    }

    /// The call that checks what an app presents to be let in.
    pub fn auth(&self, auth: AppAuthentication) -> (call: ConductorCall)
        ensures
            call == (ConductorCall::AuthenticateAppToken {
                token: auth.token,
                installed_app_id: auth.installed_app_id,
            }),
    {
        ConductorCall::AuthenticateAppToken {
            token: auth.token,
            installed_app_id: auth.installed_app_id,
        }
    }

    /// The app that was let in, or the error with which it was turned away, once the token has been
    /// checked.
    pub fn authenticated(&self, checked: Result<InstalledAppId, ConductorApiError>) -> (result: Result<
        InstalledAppId,
        InterfaceError,
    >)
        ensures
            result == match checked {
                Ok(app) => Ok::<InstalledAppId, InterfaceError>(app),
                Err(e) => Err(InterfaceError::RequestHandler(e)),
            },
    {
        match checked {
            Ok(app) => Ok(app),
            Err(e) => Err(InterfaceError::RequestHandler(e)),
        }
    }

    /// Take the first step of a request of `app`.
    ///
    /// `running` says whether the conductor handles requests at all. A request that could not be
    /// read is answered with an error.
    pub fn handle_request(
        &mut self,
        app: InstalledAppId,
        running: Result<(), ConductorApiError>,
        request: Result<AppRequest, SerializedBytesError>,
    ) -> (step: Result<Step, InterfaceError>)
        requires
            old(self)@.wf(),
            running is Ok && (request matches Ok(r) && old(self)@.takes_ticket(r)) ==> old(
                self,
            )@.next_ticket < u64::MAX,
        ensures
            final(self)@.wf(),
            step == match (running, request) {
                (Err(e), _) => Err::<Step, InterfaceError>(InterfaceError::RequestHandler(e)),
                (Ok(_), Err(e)) => Ok(
                    Step::Respond(
                        AppResponse::Error(
                            ExternalApiWireError::Deserialization(SerializationError::Bytes(e)),
                        ),
                    ),
                ),
                (Ok(_), Ok(r)) => Ok(old(self)@.first_step(app, r)),
            },
            final(self)@ == match (running, request) {
                (Ok(_), Ok(r)) => old(self)@.after_first_step(r),
                _ => old(self)@,
            },
    {
        match running {
            Ok(_) => {},
            Err(e) => {
                return Err(InterfaceError::RequestHandler(e));
            },
        }
        match request {
            Ok(request) => Ok(self.handle_app_request_inner(app, request)),
            Err(e) => Ok(
                Step::Respond(
                    AppResponse::Error(
                        ExternalApiWireError::Deserialization(SerializationError::from(e)),
                    ),
                ),
            ),
        }
    }

    /// Route a request of `app` to the call that carries it out.
    pub fn handle_app_request_inner(&mut self, app: InstalledAppId, request: AppRequest) -> (step: Step)
        requires
            old(self)@.wf(),
            old(self)@.takes_ticket(request) ==> old(self)@.next_ticket < u64::MAX,
        ensures
            final(self)@.wf(),
            step == old(self)@.first_step(app, request),
            final(self)@ == old(self)@.after_first_step(request),
    {
        match request {
            AppRequest::AppInfo => Step::Call {
                call: ConductorCall::GetAppInfo { app },
                pending: PendingRequest::AppInfo,
            },
            AppRequest::AgentInfo { dna_hashes } => Step::Call {
                call: ConductorCall::GetAppAgentInfos { app, dna_hashes },
                pending: PendingRequest::AgentInfo,
            },
            AppRequest::PeerMetaInfo { url, dna_hashes } => Step::Call {
                call: ConductorCall::AppPeerMetaInfo { app, url, dna_hashes },
                pending: PendingRequest::PeerMetaInfo,
            },
            AppRequest::CallZome(call) => self.handle_call_zome(call, None),
            AppRequest::CallZomeWithDeadline { call, deadline_ms } => self.handle_call_zome(
                call,
                Some(Duration::from_millis(deadline_ms as u64)),
            ),
            AppRequest::GetCountersigningSessionState(cell) => Step::Call {
                call: ConductorCall::GetCountersigningSessionState(cell),
                pending: PendingRequest::CountersigningSessionState,
            },
            AppRequest::AbandonCountersigningSession(cell) => Step::Call {
                call: ConductorCall::AbandonCountersigningSession(cell),
                pending: PendingRequest::AbandonCountersigningSession,
            },
            AppRequest::PublishCountersigningSession(cell) => Step::Call {
                call: ConductorCall::PublishCountersigningSession(cell),
                pending: PendingRequest::PublishCountersigningSession,
            },
            AppRequest::CreateCloneCell(payload) => Step::Call {
                call: ConductorCall::CreateCloneCell { app, payload },
                pending: PendingRequest::CreateCloneCell,
            },
            AppRequest::DisableCloneCell(payload) => Step::Call {
                call: ConductorCall::DisableCloneCell { app, payload },
                pending: PendingRequest::DisableCloneCell,
            },
            AppRequest::EnableCloneCell(payload) => Step::Call {
                call: ConductorCall::EnableCloneCell { app, payload },
                pending: PendingRequest::EnableCloneCell,
            },
            AppRequest::DumpOpTimings { dna_hash, cursor, limit } => Step::Call {
                call: ConductorCall::DumpOpTimings { app, dna_hash, cursor, limit },
                pending: PendingRequest::DumpOpTimings,
            },
            AppRequest::DumpNetworkMetrics { dna_hash, include_dht_summary } => Step::Call {
                call: ConductorCall::DumpNetworkMetrics { app, dna_hash, include_dht_summary },
                pending: PendingRequest::DumpNetworkMetrics,
            },
            AppRequest::DumpNetworkStats => Step::Call {
                call: ConductorCall::DumpNetworkStats { app },
                pending: PendingRequest::DumpNetworkStats,
            },
            AppRequest::ListWasmHostFunctions => Step::Call {
                call: ConductorCall::ListWasmHostFunctions,
                pending: PendingRequest::ListWasmHostFunctions,
            },
            AppRequest::ProvideMemproofs(memproofs) => Step::Call {
                call: ConductorCall::ProvideMemproofs { app, memproofs },
                pending: PendingRequest::ProvideMemproofs,
            },
            AppRequest::EnableApp => Step::Call {
                call: ConductorCall::GetAppInfo { app: app.clone() },
                pending: PendingRequest::StatusToEnable { app },
            },
            AppRequest::SendDirectSignal { dna_hash, agents, signal } => Step::Call {
                call: ConductorCall::SendDirectSignal { app, dna_hash, agents, signal },
                pending: PendingRequest::SendDirectSignal,
            },
        }
    }

    /// Admit or refuse a zome call. An admitted call holds a slot until it is answered.
    pub fn handle_call_zome(&mut self, call: ZomeCallParamsSigned, declared: Option<Duration>) -> (step:
        Step)
        requires
            old(self)@.wf(),
            old(self)@.decision(declared) is Admit ==> old(self)@.next_ticket < u64::MAX,
        ensures
            final(self)@.wf(),
            step == old(self)@.zome_call_step(call, declared),
            final(self)@ == old(self)@.after_zome_call(declared),
    {
        match self.admission.decide(declared, self.in_flight.len()) {
            ZomeCallAdmissionDecision::Admit(deadline) => {
                let ticket: u64 = self.next_ticket;
                self.in_flight.insert(ticket);
                self.next_ticket = ticket + 1;
                Step::Call {
                    call: ConductorCall::HandleExternalZomeCall { call, deadline },
                    pending: PendingRequest::CallZome { ticket, deadline },
                }
            },
            ZomeCallAdmissionDecision::Refuse { in_flight, max_in_flight } => Step::Respond(
                AppResponse::Error(
                    ExternalApiWireError::ZomeCallRefused(
                        ZomeCallRefusal { in_flight, max_in_flight },
                    ),
                ),
            ),
        }
    }

    /// Take the next step of a request whose call has got its reply. An error is answered too.
    pub fn resume(&mut self, pending: PendingRequest, reply: ConductorReply) -> (step: Step)
        requires
            old(self)@.wf(),
            answers(reply, pending),
        ensures
            final(self)@.wf(),
            final(self)@ == old(self)@.after_reply(pending),
            exists|next: Result<Step, ConductorApiError>|
                #[trigger] follows(next, pending, reply) && step == match next {
                    Ok(s) => s,
                    Err(e) => Step::Respond(AppResponse::Error(ExternalApiWireError::Conductor(e))),
                },
    {
        let next = self.resume_inner(pending, reply);
        assert(follows(next, pending, reply));
        match next {
            Ok(step) => step,
            Err(e) => Step::Respond(AppResponse::Error(ExternalApiWireError::Conductor(e))),
        }
    }

    /// Take the next step of a request whose call has got its reply, or fail.
    pub fn resume_inner(&mut self, pending: PendingRequest, reply: ConductorReply) -> (next: Result<
        Step,
        ConductorApiError,
    >)
        requires
            old(self)@.wf(),
            answers(reply, pending),
        ensures
            final(self)@.wf(),
            final(self)@ == old(self)@.after_reply(pending),
            follows(next, pending, reply),
    {
        // Whatever came of it, a zome call that is answered no longer holds its slot.
        if let PendingRequest::CallZome { ticket, .. } = &pending {
            self.in_flight.remove(ticket);
        }
        let response = match (pending, reply) {
            (_, ConductorReply::Failed(e)) => {
                return Err(e);
            },
            (PendingRequest::AppInfo, ConductorReply::AppInfo(info)) => AppResponse::AppInfo(info),
            (PendingRequest::AgentInfo, ConductorReply::AgentInfos(results)) => match collect_results(
                results,
            ) {
                Ok(items) => AppResponse::AgentInfo(items),
                Err(e) => {
                    return Err(e);
                },
            },
            (PendingRequest::PeerMetaInfo, ConductorReply::Value(value)) => AppResponse::PeerMetaInfo(
                value,
            ),
            (PendingRequest::CallZome { .. }, ConductorReply::ZomeCall(outcome)) => {
                zome_call_response(outcome)
            },
            (
                PendingRequest::CallZome { deadline: Some(deadline), .. },
                ConductorReply::DeadlineElapsed,
            ) => AppResponse::Error(ExternalApiWireError::ZomeCallDeadlineExceeded(deadline)),
            (PendingRequest::CountersigningSessionState, ConductorReply::Value(value)) => {
                AppResponse::CountersigningSessionState(value)
            },
            (PendingRequest::AbandonCountersigningSession, _) => {
                AppResponse::CountersigningSessionAbandoned
            },
            (PendingRequest::PublishCountersigningSession, _) => {
                AppResponse::PublishCountersigningSessionTriggered
            },
            (PendingRequest::CreateCloneCell, ConductorReply::Value(value)) => {
                AppResponse::CloneCellCreated(value)
            },
            (PendingRequest::DisableCloneCell, _) => AppResponse::CloneCellDisabled,
            (PendingRequest::EnableCloneCell, ConductorReply::Value(value)) => {
                AppResponse::CloneCellEnabled(value)
            },
            (PendingRequest::DumpOpTimings, ConductorReply::Value(value)) => {
                AppResponse::OpTimingsDumped(value)
            },
            (PendingRequest::DumpNetworkMetrics, ConductorReply::Value(value)) => {
                AppResponse::NetworkMetricsDumped(value)
            },
            (PendingRequest::DumpNetworkStats, ConductorReply::Value(value)) => {
                AppResponse::NetworkStatsDumped(value)
            },
            (PendingRequest::ListWasmHostFunctions, ConductorReply::Names(names)) => {
                AppResponse::ListWasmHostFunctions(names)
            },
            (PendingRequest::StatusToEnable { app }, ConductorReply::AppInfo(info)) => {
                return enable_if_allowed(app, info);
            },
            _ => AppResponse::Completed,
        };
        Ok(Step::Respond(response))
    }
}

/// Go on to enable an app, if it is installed and its status allows it.
fn enable_if_allowed(app: InstalledAppId, info: Option<AppInfo>) -> (next: Result<
    Step,
    ConductorApiError,
>)
    ensures
        follows(next, PendingRequest::StatusToEnable { app }, ConductorReply::AppInfo(info)),
{
    match info {
        None => Err(ConductorApiError::Other("app not found".to_owned())),
        Some(info) => match info.status {
            AppStatus::Enabled
            | AppStatus::Disabled(DisabledAppReason::NotStartedAfterProvidingMemproofs) => Ok(
                Step::Call {
                    call: ConductorCall::EnableApp { app },
                    pending: PendingRequest::EnableApp,
                },
            ),
            _ => Err(ConductorApiError::Other("app not in correct state to enable".to_owned())),
        },
    }
}

} // verus!
