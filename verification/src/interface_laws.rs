//! What holds of admission and of app interfaces as a whole.

use crate::app_api::{
    AppRequest, AppResponse, ConductorApiError, ConductorCall, ConductorReply, ExternalApiWireError,
    InstalledAppId, PendingRequest, Step, ZomeCallParamsSigned, ZomeCallRefusal,
};
use crate::app_interface::{answers, follows, millis, InterfaceState};
use crate::time::{Duration, NANOS_PER_SEC};
use crate::zome_call_admission::{
    AdmissionPolicy, ConductorConfig, ZomeCallAdmissionDecision, DEFAULT_MAX_DEADLINE_SECS,
};
use vstd::prelude::*;

verus! {

/// A call is refused exactly if the limit has been reached and the call has a deadline.
pub proof fn law_refused_exactly_at_the_limit_with_a_deadline(
    policy: AdmissionPolicy,
    declared: Option<Duration>,
    in_flight: usize,
)
    ensures
        policy.decision(declared, in_flight) is Refuse <==> (policy.max_in_flight matches Some(max)
            && in_flight >= max) && policy.effective(declared) is Some,
        policy.decision(declared, in_flight) matches ZomeCallAdmissionDecision::Refuse {
            in_flight: n,
            max_in_flight: m,
        } ==> n == in_flight && policy.max_in_flight == Some(m),
        policy.decision(declared, in_flight) matches ZomeCallAdmissionDecision::Admit(deadline)
            ==> deadline == policy.effective(declared),
{
}

/// Without a limit no call is refused, and neither is a call without a deadline.
pub proof fn law_what_is_never_refused(
    policy: AdmissionPolicy,
    declared: Option<Duration>,
    in_flight: usize,
)
    requires
        policy.max_in_flight is None || policy.effective(declared) is None,
    ensures
        policy.decision(declared, in_flight) == ZomeCallAdmissionDecision::Admit(
            policy.effective(declared),
        ),
{
}

/// A conductor on which nothing is configured runs every call that declares no deadline unbounded,
/// however many calls are running, and clamps declared deadlines to five minutes.
pub proof fn law_unconfigured_conductors_admit_every_call(
    config: ConductorConfig,
    declared: Duration,
    in_flight: usize,
)
    requires
        config.tuning_params is None,
    ensures
        AdmissionPolicy::of(config).decision(None, in_flight) == ZomeCallAdmissionDecision::Admit(
            None,
        ),
        AdmissionPolicy::of(config).decision(Some(declared), in_flight) matches
            ZomeCallAdmissionDecision::Admit(Some(d)) && d@ == if declared@
            <= DEFAULT_MAX_DEADLINE_SECS * NANOS_PER_SEC {
            declared@
        } else {
            (DEFAULT_MAX_DEADLINE_SECS * NANOS_PER_SEC) as nat
        },
{
}

/// A declared deadline wins over the default one. It is never lengthened, and never longer than the
/// configured maximum.
pub proof fn law_declared_deadlines_are_clamped(policy: AdmissionPolicy, declared: Duration)
    ensures
        policy.effective(Some(declared)) matches Some(d) && {
            &&& d@ <= declared@
            &&& d@ <= policy.max_deadline@
            &&& declared@ <= policy.max_deadline@ ==> d == declared
            &&& declared@ > policy.max_deadline@ ==> d == policy.max_deadline
        },
        policy.effective(None) == policy.default_deadline,
{
}

/// A call that is refused is refused all the more when more calls are running.
pub proof fn law_refusal_is_monotone(
    policy: AdmissionPolicy,
    declared: Option<Duration>,
    fewer: usize,
    more: usize,
)
    requires
        fewer <= more,
        policy.decision(declared, fewer) is Refuse,
    ensures
        policy.decision(declared, more) is Refuse,
{
}

/// A zome call is refused at the limit if it has a deadline: it is answered at once, with the
/// number of calls that are running and the limit, and it leaves no trace on the interface.
pub proof fn law_a_refused_call_is_answered_at_once(
    state: InterfaceState,
    app: InstalledAppId,
    call: ZomeCallParamsSigned,
    deadline_ms: u32,
    max: usize,
)
    requires
        state.wf(),
        state.in_flight.len() <= usize::MAX,
        state.policy.max_in_flight == Some(max),
        state.in_flight.len() >= max,
    ensures
        ({
            let request = AppRequest::CallZomeWithDeadline { call, deadline_ms };
            &&& state.first_step(app, request) == Step::Respond(
                AppResponse::Error(
                    ExternalApiWireError::ZomeCallRefused(
                        ZomeCallRefusal {
                            in_flight: state.in_flight.len() as usize,
                            max_in_flight: max,
                        },
                    ),
                ),
            )
            &&& state.after_first_step(request) == state
        }),
{
}

/// At the limit, a zome call that gets no deadline is made all the same, and waited for as long as
/// it takes.
pub proof fn law_the_limit_is_invisible_without_a_deadline(
    state: InterfaceState,
    app: InstalledAppId,
    call: ZomeCallParamsSigned,
)
    requires
        state.wf(),
        state.policy.default_deadline is None,
    ensures
        state.first_step(app, AppRequest::CallZome(call)) == (Step::Call {
            call: ConductorCall::HandleExternalZomeCall { call, deadline: None },
            pending: PendingRequest::CallZome { ticket: state.next_ticket as u64, deadline: None },
        }),
{
}

/// A call that declares a deadline and is admitted is waited for no longer than that; once the
/// deadline has passed, it is answered with that, and nothing else.
pub proof fn law_a_declared_deadline_bounds_the_response(
    state: InterfaceState,
    app: InstalledAppId,
    call: ZomeCallParamsSigned,
    deadline_ms: u32,
    next: Result<Step, ConductorApiError>,
)
    requires
        state.wf(),
        state.in_flight.len() <= usize::MAX,
        state.policy.max_in_flight matches Some(max) ==> state.in_flight.len() < max,
    ensures
        ({
            let deadline = state.policy.clamp(millis(deadline_ms));
            let pending = PendingRequest::CallZome {
                ticket: state.next_ticket as u64,
                deadline: Some(deadline),
            };
            &&& deadline@ <= millis(deadline_ms)@
            &&& state.first_step(app, AppRequest::CallZomeWithDeadline { call, deadline_ms }) == (
            Step::Call {
                call: ConductorCall::HandleExternalZomeCall { call, deadline: Some(deadline) },
                pending,
            })
            &&& answers(ConductorReply::DeadlineElapsed, pending)
            &&& follows(next, pending, ConductorReply::DeadlineElapsed) ==> next == Ok::<
                _,
                ConductorApiError,
            >(
                Step::Respond(
                    AppResponse::Error(ExternalApiWireError::ZomeCallDeadlineExceeded(deadline)),
                ),
            )
        }),
{
}

/// An admitted call takes one slot, which no other call holds, and whatever is the answer gives
/// exactly that slot back.
pub proof fn law_a_call_gives_back_the_slot_it_took(
    state: InterfaceState,
    declared: Option<Duration>,
    deadline: Option<Duration>,
)
    requires
        state.wf(),
        state.next_ticket <= u64::MAX,
        state.decision(declared) == ZomeCallAdmissionDecision::Admit(deadline),
    ensures
        ({
            let ticket = state.next_ticket as u64;
            let admitted = state.after_zome_call(declared);
            let answered = admitted.after_reply(PendingRequest::CallZome { ticket, deadline });
            &&& admitted.wf()
            &&& !state.in_flight.contains(ticket)
            &&& admitted.in_flight.contains(ticket)
            &&& admitted.in_flight.len() == state.in_flight.len() + 1
            &&& answered.in_flight == state.in_flight
        }),
{
    let ticket = state.next_ticket as u64;
    let admitted = state.after_zome_call(declared);
    assert(!state.in_flight.contains(ticket));
    assert(admitted.in_flight.remove(ticket) =~= state.in_flight);
}

/// A call that is given up when its deadline passes frees its slot at that moment: at the limit, the
/// next call that declares a deadline is admitted.
pub proof fn law_an_abandoned_call_makes_room(
    state: InterfaceState,
    ticket: u64,
    deadline: Option<Duration>,
    declared: Option<Duration>,
)
    requires
        state.wf(),
        state.in_flight.contains(ticket),
        state.in_flight.len() <= usize::MAX,
        state.policy.max_in_flight matches Some(max) ==> state.in_flight.len() <= max,
    ensures
        state.after_reply(PendingRequest::CallZome { ticket, deadline }).in_flight.len()
            == state.in_flight.len() - 1,
        state.after_reply(PendingRequest::CallZome { ticket, deadline }).decision(declared)
            == ZomeCallAdmissionDecision::Admit(state.policy.effective(declared)),
{
}

/// A slot is given back once: a second answer to the same call changes nothing.
pub proof fn law_a_slot_is_given_back_once(state: InterfaceState, pending: PendingRequest)
    ensures
        state.after_reply(pending).after_reply(pending) == state.after_reply(pending),
{
    assert(state.after_reply(pending).after_reply(pending).in_flight =~= state.after_reply(
        pending,
    ).in_flight);
}

/// Calls with a deadline never take the interface over its limit.
pub proof fn law_deadlined_calls_respect_the_limit(
    state: InterfaceState,
    declared: Option<Duration>,
    max: usize,
)
    requires
        state.wf(),
        state.in_flight.len() <= max,
        state.policy.max_in_flight == Some(max),
        state.policy.effective(declared) is Some,
    ensures
        state.after_zome_call(declared).in_flight.len() <= max,
{
}

/// Only zome calls take or free slots.
pub proof fn law_other_requests_leave_the_slots_alone(
    state: InterfaceState,
    request: AppRequest,
    pending: PendingRequest,
)
    ensures
        !(request is CallZome || request is CallZomeWithDeadline) ==> state.after_first_step(request)
            == state,
        !(pending is CallZome) ==> state.after_reply(pending) == state,
{
}

/// Something that happens on an interface.
pub enum Event {
    /// The first step of a request is taken.
    Request(AppRequest),
    /// A pending request gets its reply.
    Reply(PendingRequest),
}

/// What an interface becomes by an event.
pub open spec fn step(state: InterfaceState, event: Event) -> InterfaceState {
    match event {
        Event::Request(request) => state.after_first_step(request),
        Event::Reply(pending) => state.after_reply(pending),
    }
}

/// What an interface becomes by a sequence of events.
pub open spec fn run(state: InterfaceState, events: Seq<Event>) -> InterfaceState
    decreases events.len(),
{
    if events.len() == 0 {
        state
    } else {
        step(run(state, events.drop_last()), events.last())
    }
}

/// The zome call with this ticket has got its reply.
pub open spec fn replied(events: Seq<Event>, ticket: u64) -> bool {
    exists|i: int|
        0 <= i < events.len() && (#[trigger] events[i] matches Event::Reply(
            PendingRequest::CallZome { ticket: t, .. },
        ) && t == ticket)
}

/// Only calls that have been made get replies.
pub open spec fn causal(state: InterfaceState, events: Seq<Event>) -> bool {
    forall|i: int|
        0 <= i < events.len() ==> (#[trigger] events[i] matches Event::Reply(
            PendingRequest::CallZome { ticket, .. },
        ) ==> ticket < run(state, events.take(i)).next_ticket)
}

/// On an interface that starts with nothing running, the calls that hold a slot are at all times
/// exactly those that have been admitted and have not got a reply.
pub proof fn law_slots_are_held_from_admission_to_reply(
    start: InterfaceState,
    events: Seq<Event>,
    ticket: u64,
)
    requires
        start.in_flight == Set::<u64>::empty(),
        start.next_ticket == 0,
        causal(start, events),
        run(start, events).next_ticket <= u64::MAX,
    ensures
        run(start, events).wf(),
        run(start, events).in_flight.contains(ticket) <==> ticket < run(start, events).next_ticket
            && !replied(events, ticket),
    decreases events.len(),
{
    if events.len() > 0 {
        let earlier = events.drop_last();
        let before = run(start, earlier);
        let last = events.last();
        assert(causal(start, earlier)) by {
            assert forall|i: int| 0 <= i < earlier.len() implies (
            #[trigger] earlier[i] matches Event::Reply(PendingRequest::CallZome { ticket: t, .. })
                ==> t < run(start, earlier.take(i)).next_ticket) by {
                assert(earlier[i] == events[i]);
                assert(earlier.take(i) == events.take(i));
            }
        }
        law_slots_are_held_from_admission_to_reply(start, earlier, ticket);
        assert(events.take(events.len() - 1) == earlier);
        assert(replied(events, ticket) <==> replied(earlier, ticket) || (last matches Event::Reply(
            PendingRequest::CallZome { ticket: t, .. },
        ) && t == ticket)) by {
            if replied(earlier, ticket) {
                let i = choose|i: int|
                    0 <= i < earlier.len() && (#[trigger] earlier[i] matches Event::Reply(
                        PendingRequest::CallZome { ticket: t, .. },
                    ) && t == ticket);
                assert(events[i] == earlier[i]);
            }
            if replied(events, ticket) {
                let i = choose|i: int|
                    0 <= i < events.len() && (#[trigger] events[i] matches Event::Reply(
                        PendingRequest::CallZome { ticket: t, .. },
                    ) && t == ticket);
                if i < earlier.len() {
                    assert(earlier[i] == events[i]);
                } else {
                    assert(events[i] == last);
                }
            }
            assert(events[events.len() - 1] == last);
        }
        if ticket == before.next_ticket {
            lemma_no_reply_before_admission(start, earlier, ticket);
        }
    }
}

proof fn lemma_tickets_grow(state: InterfaceState, events: Seq<Event>, i: int)
    requires
        0 <= i <= events.len(),
    ensures
        run(state, events.take(i)).next_ticket <= run(state, events).next_ticket,
    decreases events.len() - i,
{
    if i < events.len() {
        lemma_tickets_grow(state, events, i + 1);
        assert(events.take(i + 1).drop_last() == events.take(i));
    } else {
        assert(events.take(i) == events);
    }
}

proof fn lemma_no_reply_before_admission(state: InterfaceState, events: Seq<Event>, ticket: u64)
    requires
        causal(state, events),
        ticket >= run(state, events).next_ticket,
    ensures
        !replied(events, ticket),
{
    if replied(events, ticket) {
        let i = choose|i: int|
            0 <= i < events.len() && (#[trigger] events[i] matches Event::Reply(
                PendingRequest::CallZome { ticket: t, .. },
            ) && t == ticket);
        lemma_tickets_grow(state, events, i);
        assert(events[i] is Reply);
    }
}

} // verus!
