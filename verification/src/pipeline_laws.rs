//! What holds of every run of the request pipeline, whatever the caller
//! reports: how often a request is sent, which token it carries, and how
//! often the user interface is notified.
use vstd::prelude::*;
use vstd::string::*;
use crate::error::{ErrorKind, TransportFailure};
use crate::models::{text_of, ErrorNotificationView};
use crate::transport::{
    authorization_spec, classify_response_spec, failure_message, is_client_error, is_success,
    next_machine, next_step, BackendClient, Event, Machine, NextView, PipelineState, Step,
    StepView, MAX_PROBES, REQUEST_TIMEOUT_SECONDS,
};

verus! {

/// The machine of a fresh request on a client whose armed token is `pending`.
pub open spec fn start(pending: Option<Seq<char>>) -> Machine {
    Machine { state: PipelineState::Probing { failures: 0 }, pending }
}

/// The machine after a sequence of events.
pub open spec fn machine_after(m0: Machine, events: Seq<Event>) -> Machine
    decreases events.len(),
{
    if events.len() == 0 {
        m0
    } else {
        next_machine(machine_after(m0, events.drop_last()), events.last())
    }
}

/// The moves that a sequence of events causes, one for each event.
pub open spec fn steps_of(m0: Machine, events: Seq<Event>) -> Seq<StepView>
    decreases events.len(),
{
    if events.len() == 0 {
        Seq::empty()
    } else {
        steps_of(m0, events.drop_last()).push(
            next_step(machine_after(m0, events.drop_last()), events.last()),
        )
    }
}

pub open spec fn is_send(s: StepView) -> bool {
    s.next is Send
}

pub open spec fn is_server_notice(s: StepView) -> bool {
    s.notice matches Some(ErrorNotificationView::ServerError { .. })
}

pub open spec fn is_network_notice(s: StepView) -> bool {
    s.notice matches Some(ErrorNotificationView::NetworkError { .. })
}

/// How many of the moves send the request.
pub open spec fn sends(steps: Seq<StepView>) -> nat
    decreases steps.len(),
{
    if steps.len() == 0 {
        0
    } else {
        sends(steps.drop_last()) + if is_send(steps.last()) {
            1nat
        } else {
            0nat
        }
    }
}

/// How many of the moves emit a server-error notification.
pub open spec fn server_notices(steps: Seq<StepView>) -> nat
    decreases steps.len(),
{
    if steps.len() == 0 {
        0
    } else {
        server_notices(steps.drop_last()) + if is_server_notice(steps.last()) {
            1nat
        } else {
            0nat
        }
    }
}

/// How many of the moves emit a network-error notification.
pub open spec fn network_notices(steps: Seq<StepView>) -> nat
    decreases steps.len(),
{
    if steps.len() == 0 {
        0
    } else {
        network_notices(steps.drop_last()) + if is_network_notice(steps.last()) {
            1nat
        } else {
            0nat
        }
    }
}

/// `n` failed probes in a row.
pub open spec fn failed_probes(n: nat) -> Seq<Event> {
    Seq::new(n, |i: int| Event::ProbeFailed)
}

/// What the counts are in each state of a request that started fresh.
pub open spec fn run_invariant(pending: Option<Seq<char>>, m: Machine, steps: Seq<StepView>) -> bool {
    match m.state {
        PipelineState::Probing { failures } => {
            &&& failures < MAX_PROBES
            &&& sends(steps) == 0
            &&& server_notices(steps) == 0
            &&& network_notices(steps) == if failures > 0 {
                1nat
            } else {
                0nat
            }
            &&& m.pending == pending
        },
        PipelineState::Dispatched => {
            &&& sends(steps) == 1
            &&& server_notices(steps) == 0
            &&& network_notices(steps) <= 1
            &&& m.pending is None
        },
        PipelineState::Finished => {
            &&& sends(steps) <= 1
            &&& server_notices(steps) <= 1
            &&& network_notices(steps) <= 1
            &&& sends(steps) == 1 ==> m.pending is None
            &&& sends(steps) == 0 ==> m.pending == pending
        },
    }
}

proof fn lemma_unfold(m0: Machine, events: Seq<Event>)
    requires
        events.len() > 0,
    ensures
        steps_of(m0, events).len() == events.len(),
        steps_of(m0, events).drop_last() == steps_of(m0, events.drop_last()),
        steps_of(m0, events).last() == next_step(
            machine_after(m0, events.drop_last()),
            events.last(),
        ),
    decreases events.len(),
{
    lemma_len(m0, events.drop_last());
    let prev = steps_of(m0, events.drop_last());
    let step = next_step(machine_after(m0, events.drop_last()), events.last());
    assert(prev.push(step).drop_last() =~= prev);
}

proof fn lemma_len(m0: Machine, events: Seq<Event>)
    ensures
        steps_of(m0, events).len() == events.len(),
    decreases events.len(),
{
    if events.len() > 0 {
        lemma_len(m0, events.drop_last());
    }
}

proof fn lemma_run(pending: Option<Seq<char>>, events: Seq<Event>)
    ensures
        run_invariant(
            pending,
            machine_after(start(pending), events),
            steps_of(start(pending), events),
        ),
    decreases events.len(),
{
    if events.len() > 0 {
        lemma_run(pending, events.drop_last());
        lemma_unfold(start(pending), events);
    }
}

proof fn lemma_step_at(m0: Machine, events: Seq<Event>, i: int)
    requires
        0 <= i < events.len(),
    ensures
        steps_of(m0, events).len() == events.len(),
        steps_of(m0, events)[i] == next_step(machine_after(m0, events.take(i)), events[i]),
    decreases events.len(),
{
    lemma_unfold(m0, events);
    if i == events.len() - 1 {
        assert(events.take(i) =~= events.drop_last());
    } else {
        lemma_step_at(m0, events.drop_last(), i);
        assert(events.drop_last().take(i) =~= events.take(i));
    }
}

proof fn lemma_finished_stays(m0: Machine, done: Seq<Event>, later: Seq<Event>)
    requires
        machine_after(m0, done).state == PipelineState::Finished,
    ensures
        machine_after(m0, done + later) == machine_after(m0, done),
        sends(steps_of(m0, done + later)) == sends(steps_of(m0, done)),
        server_notices(steps_of(m0, done + later)) == server_notices(steps_of(m0, done)),
        network_notices(steps_of(m0, done + later)) == network_notices(steps_of(m0, done)),
    decreases later.len(),
{
    if later.len() == 0 {
        assert(done + later =~= done);
    } else {
        lemma_finished_stays(m0, done, later.drop_last());
        assert((done + later).drop_last() =~= done + later.drop_last());
        assert((done + later).last() == later.last());
        lemma_unfold(m0, done + later);
    }
}

proof fn lemma_failed_probes(pending: Option<Seq<char>>, n: nat)
    requires
        n <= MAX_PROBES,
    ensures
        machine_after(start(pending), failed_probes(n)).state == if n < MAX_PROBES {
            PipelineState::Probing { failures: n as u32 }
        } else {
            PipelineState::Finished
        },
        n >= 1 ==> network_notices(steps_of(start(pending), failed_probes(n))) == 1,
        n == MAX_PROBES ==> steps_of(start(pending), failed_probes(n)).last().next
            == NextView::Finish(
            Err((ErrorKind::Network, "No internet connection after maximum retries"@)),
        ),
    decreases n,
{
    if n > 0 {
        let events = failed_probes(n);
        lemma_failed_probes(pending, (n - 1) as nat);
        assert(events.drop_last() =~= failed_probes((n - 1) as nat));
        assert(events.last() == Event::ProbeFailed);
        lemma_unfold(start(pending), events);
        lemma_run(pending, events.drop_last());
    }
}

/// The views of a list of moves.
pub open spec fn steps_view(v: Seq<Step>) -> Seq<StepView> {
    Seq::new(v.len(), |i: int| v[i]@)
}

/// A copy of an event.
pub fn copy_event(e: &Event) -> (r: Event)
    ensures
        r == *e,
{
    match e {
        Event::ProbeOk { session } => Event::ProbeOk {
            session: match session {
                Some(s) => Some(s.clone()),
                None => None,
            },
        },
        Event::ProbeFailed => Event::ProbeFailed,
        Event::Response { status, body } => Event::Response { status: *status, body: body.clone() },
        Event::Failed(f) => Event::Failed(
            match f {
                TransportFailure::Timeout => TransportFailure::Timeout,
                TransportFailure::Connect => TransportFailure::Connect,
                TransportFailure::Other(text) => TransportFailure::Other(text.clone()),
            },
        ),
    }
}

/// Runs a fresh request of `client` through a recorded sequence of events
/// and hands out the state it ends in and the move that each event caused.
pub fn replay(client: &mut BackendClient, events: &Vec<Event>) -> (r: (PipelineState, Vec<Step>))
    ensures
        final(client).machine(r.0) == machine_after(start(old(client).pending()), events@),
        steps_view(r.1@) == steps_of(start(old(client).pending()), events@),
        final(client).base() == old(client).base(),
{
    let ghost pending = client.pending();
    let ghost base = client.base();
    let (first, _) = BackendClient::begin();
    let mut state = first;
    let mut steps: Vec<Step> = Vec::new();
    let mut i: usize = 0;
    proof {
        assert(events@.take(0) =~= Seq::empty());
        assert(steps_view(steps@) =~= Seq::empty());
    }
    while i < events.len()
        invariant
            i <= events.len(),
            client.base() == base,
            client.machine(state) == machine_after(start(pending), events@.take(i as int)),
            steps_view(steps@) == steps_of(start(pending), events@.take(i as int)),
        decreases events.len() - i,
    {
        let ghost before = steps_view(steps@);
        let ghost m = client.machine(state);
        let (next_state, step) = client.send_request(state, copy_event(&events[i]));
        proof {
            assert(events@.take(i + 1).drop_last() =~= events@.take(i as int));
            assert(events@.take(i + 1).last() == events@[i as int]);
        }
        steps.push(step);
        state = next_state;
        proof {
            assert(steps_view(steps@) =~= before.push(next_step(m, events@[i as int])));
        }
        i += 1;
    }
    proof {
        assert(events@.take(i as int) =~= events@);
    }
    (state, steps)
}

/// A request is sent at most once, so it carries at most one `Authorization`
/// header; and when it is sent, the header is made from the token that was
/// armed when the request began, or else from the session token read when the
/// probe succeeded.
pub proof fn law_single_authorization(pending: Option<Seq<char>>, events: Seq<Event>, i: int)
    requires
        0 <= i < events.len(),
    ensures
        sends(steps_of(start(pending), events)) <= 1,
        steps_of(start(pending), events).len() == events.len(),
        is_send(steps_of(start(pending), events)[i]) ==> (events[i] matches Event::ProbeOk {
            session,
        } && steps_of(start(pending), events)[i].next == (NextView::Send {
            authorization: authorization_spec(pending, text_of(session)),
            timeout_seconds: REQUEST_TIMEOUT_SECONDS,
        })),
{
    lemma_run(pending, events);
    lemma_step_at(start(pending), events, i);
    lemma_run(pending, events.take(i));
}

/// A token armed before a request that is sent is gone afterwards: the slot
/// is empty, and a send of the following request carries the session token
/// read for it, or no header.
pub proof fn law_override_consumed_once(
    pending: Option<Seq<char>>,
    first: Seq<Event>,
    second: Seq<Event>,
    i: int,
)
    requires
        sends(steps_of(start(pending), first)) == 1,
        0 <= i < second.len(),
    ensures
        machine_after(start(pending), first).pending is None,
        ({
            let left = machine_after(start(pending), first).pending;
            let steps = steps_of(start(left), second);
            &&& steps.len() == second.len()
            &&& is_send(steps[i]) ==> (second[i] matches Event::ProbeOk { session } && steps[i].next
                == (NextView::Send {
                authorization: match session {
                    Some(s) => Some("Bearer "@ + s@),
                    None => None,
                },
                timeout_seconds: REQUEST_TIMEOUT_SECONDS,
            }))
        }),
{
    lemma_run(pending, first);
    law_single_authorization(None, second, i);
}

/// While a request is probing, the armed token stays armed: it is consumed
/// when the request is sent, not before.
pub proof fn law_token_kept_while_probing(pending: Option<Seq<char>>, events: Seq<Event>)
    requires
        sends(steps_of(start(pending), events)) == 0,
    ensures
        machine_after(start(pending), events).pending == pending,
{
    lemma_run(pending, events);
}

/// A response with a client-error status to a sent request emits exactly one
/// server-error notification over the whole request, whatever is reported
/// afterwards, and the request fails as a backend failure with the response's
/// message.
pub proof fn law_client_error_notified_once(
    pending: Option<Seq<char>>,
    before: Seq<Event>,
    status: u16,
    body: String,
    after: Seq<Event>,
)
    requires
        machine_after(start(pending), before).state == PipelineState::Dispatched,
        is_client_error(status),
    ensures
        ({
            let events = before.push(Event::Response { status, body });
            &&& server_notices(steps_of(start(pending), events + after)) == 1
            &&& steps_of(start(pending), events).last() == classify_response_spec(status, body@)
            &&& steps_of(start(pending), events).last().next == NextView::Finish(
                Err((ErrorKind::Backend, failure_message(status, body@))),
            )
        }),
{
    let events = before.push(Event::Response { status, body });
    assert(events.drop_last() =~= before);
    lemma_run(pending, before);
    lemma_unfold(start(pending), events);
    lemma_finished_stays(start(pending), events, after);
}

/// A response to a sent request with a status that is neither a success nor
/// a client error also emits exactly one server-error notification over the
/// whole request, and the request fails as an internal failure.
pub proof fn law_server_failure_notified_once(
    pending: Option<Seq<char>>,
    before: Seq<Event>,
    status: u16,
    body: String,
    after: Seq<Event>,
)
    requires
        machine_after(start(pending), before).state == PipelineState::Dispatched,
        !is_success(status),
        !is_client_error(status),
    ensures
        ({
            let events = before.push(Event::Response { status, body });
            &&& server_notices(steps_of(start(pending), events + after)) == 1
            &&& steps_of(start(pending), events).last().next == NextView::Finish(
                Err((ErrorKind::Internal, failure_message(status, body@))),
            )
        }),
{
    let events = before.push(Event::Response { status, body });
    assert(events.drop_last() =~= before);
    lemma_run(pending, before);
    lemma_unfold(start(pending), events);
    lemma_finished_stays(start(pending), events, after);
}

/// A request that is answered with a success status emits no server-error
/// notification at all, and the response is handed out as it came.
pub proof fn law_success_is_silent(
    pending: Option<Seq<char>>,
    before: Seq<Event>,
    status: u16,
    body: String,
    after: Seq<Event>,
)
    requires
        machine_after(start(pending), before).state == PipelineState::Dispatched,
        is_success(status),
    ensures
        ({
            let events = before.push(Event::Response { status, body });
            &&& server_notices(steps_of(start(pending), events + after)) == 0
            &&& steps_of(start(pending), events).last().next == NextView::Finish(
                Ok((status, body@)),
            )
        }),
{
    let events = before.push(Event::Response { status, body });
    assert(events.drop_last() =~= before);
    lemma_run(pending, before);
    lemma_unfold(start(pending), events);
    lemma_finished_stays(start(pending), events, after);
}

/// No request, whatever happens to it, emits more than one server-error
/// notification or more than one network-error notification.
pub proof fn law_notices_bounded(pending: Option<Seq<char>>, events: Seq<Event>)
    ensures
        server_notices(steps_of(start(pending), events)) <= 1,
        network_notices(steps_of(start(pending), events)) <= 1,
{
    lemma_run(pending, events);
}

/// Without connectivity, one network-error notification is emitted, on the
/// first failed probe. If a probe succeeds before the last allowed one has
/// failed, the request is sent; once the last allowed probe has failed, the
/// request ends with a network failure.
pub proof fn law_no_internet(pending: Option<Seq<char>>, n: nat, session: Option<String>)
    requires
        1 <= n <= MAX_PROBES,
    ensures
        ({
            let steps = steps_of(start(pending), failed_probes(n));
            let m = machine_after(start(pending), failed_probes(n));
            &&& network_notices(steps) == 1
            &&& steps[0].notice == Some(
                ErrorNotificationView::NetworkError { message: "No internet connection"@ },
            )
            &&& n < MAX_PROBES ==> m.state == (PipelineState::Probing { failures: n as u32 })
                && next_machine(m, Event::ProbeOk { session }).state == PipelineState::Dispatched
                && is_send(next_step(m, Event::ProbeOk { session }))
            &&& n == MAX_PROBES ==> m.state == PipelineState::Finished && steps.last().next
                == NextView::Finish(
                Err((ErrorKind::Network, "No internet connection after maximum retries"@)),
            )
        }),
{
    lemma_failed_probes(pending, n);
    lemma_step_at(start(pending), failed_probes(n), 0);
    assert(failed_probes(n).take(0) =~= Seq::<Event>::empty());
}

} // verus!
