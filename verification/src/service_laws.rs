use crate::fido::Packet;
use crate::service::{step, ServiceEvent, ServiceState};
use vstd::prelude::*;

verus! {

/// The state after a sequence of events, the first of the sequence first.
pub open spec fn run(s: ServiceState, events: Seq<ServiceEvent>) -> ServiceState
    decreases events.len(),
{
    if events.len() == 0 {
        s
    } else {
        step(run(s, events.drop_last()), events.last())
    }
}

/// The request that an event answers with `Hangup`.
pub open spec fn hangs_up(s: ServiceState, event: ServiceEvent) -> Option<u64> {
    match event {
        ServiceEvent::Pump(_, fido, suspended) => s.pump_hung_up(fido, suspended),
        _ => None,
    }
}

/// Whether an event is answered with `Denied`.
pub open spec fn denied(s: ServiceState, event: ServiceEvent) -> bool {
    match event {
        ServiceEvent::Listen(caller, _) => s.arbiter.listen_outcome(caller) is Denied,
        ServiceEvent::Send(caller) => s.arbiter.send_code(caller) is Denied,
        _ => false,
    }
}

/// The process that makes a request on the FIDO channel.
pub open spec fn fido_caller(event: ServiceEvent) -> Option<u8> {
    match event {
        ServiceEvent::Listen(caller, _) => Some(caller),
        ServiceEvent::Send(caller) => Some(caller),
        _ => None,
    }
}

/// An event under which the link does not leave the suspended state: any
/// event but a pass of the pump that sees the link not suspended.
pub open spec fn keeps_suspended(event: ServiceEvent) -> bool {
    match event {
        ServiceEvent::Pump(_, _, suspended) => suspended,
        _ => true,
    }
}

/// Every event keeps the FIDO channel well-formed.
pub proof fn lemma_run_keeps_wf(s: ServiceState, events: Seq<ServiceEvent>)
    requires
        s.arbiter.wf(),
    ensures
        run(s, events).arbiter.wf(),
    decreases events.len(),
{
    if events.len() > 0 {
        lemma_run_keeps_wf(s, events.drop_last());
    }
}

/// Lock on first use: once the FIDO channel has an owner, no request and no
/// bus event changes it.
pub proof fn lemma_owner_survives(s: ServiceState, events: Seq<ServiceEvent>)
    requires
        s.arbiter.owner is Some,
    ensures
        run(s, events).arbiter.owner == s.arbiter.owner,
    decreases events.len(),
{
    if events.len() > 0 {
        lemma_owner_survives(s, events.drop_last());
    }
}

/// Single owner: once a process owns the FIDO channel, every request of
/// another process to listen or to send is denied, whatever was served in
/// between.
pub proof fn lemma_others_are_denied(s: ServiceState, events: Seq<ServiceEvent>, i: int)
    requires
        s.arbiter.owner is Some,
        0 <= i < events.len(),
        fido_caller(events[i]) is Some,
        fido_caller(events[i]) != s.arbiter.owner,
    ensures
        denied(run(s, events.take(i)), events[i]),
{
    lemma_owner_survives(s, events.take(i));
}

/// Only the two requests for a personality change the view; a suspend and
/// resume changes neither the view nor anything on the FIDO channel.
pub proof fn lemma_view_changes_only_on_request(s: ServiceState, event: ServiceEvent, token: usize)
    ensures
        !(event is Switch || event is Ensure) ==> step(s, event).view == s.view,
        step(s, ServiceEvent::SuspendResume(token)).view == s.view,
        step(s, ServiceEvent::SuspendResume(token)).arbiter == s.arbiter,
        step(s, ServiceEvent::SuspendResume(token)).force_status_update,
{
}

/// A listener that is parked when the link goes from not suspended to
/// suspended is hung up by that pass, and is parked no more after it.
pub proof fn lemma_hangup_on_suspend_edge(s: ServiceState, leds: Option<u8>)
    requires
        !s.was_suspended,
    ensures
        hangs_up(s, ServiceEvent::Pump(leds, None, true)) == s.arbiter.pending,
        step(s, ServiceEvent::Pump(leds, None, true)).arbiter.pending is None,
        step(s, ServiceEvent::Pump(leds, None, true)).was_suspended,
{
}

/// While the link stays suspended, the observation that it is suspended is
/// kept by every event.
pub proof fn lemma_suspension_is_remembered(s: ServiceState, events: Seq<ServiceEvent>)
    requires
        s.was_suspended,
        forall|j: int| 0 <= j < events.len() ==> keeps_suspended(#[trigger] events[j]),
    ensures
        run(s, events).was_suspended,
    decreases events.len(),
{
    if events.len() > 0 {
        let front = events.drop_last();
        assert forall|j: int| 0 <= j < front.len() implies keeps_suspended(#[trigger] front[j]) by {
            assert(front[j] == events[j]);
        }
        lemma_suspension_is_remembered(s, front);
    }
}

/// Once per edge: after the link has been seen suspended, nobody is hung up
/// for as long as it stays suspended. A listener that registers after the
/// edge therefore gets no hangup that it did not ask for.
pub proof fn lemma_no_hangup_while_suspended(s: ServiceState, events: Seq<ServiceEvent>, i: int)
    requires
        s.was_suspended,
        forall|j: int| 0 <= j < events.len() ==> keeps_suspended(#[trigger] events[j]),
        0 <= i < events.len(),
    ensures
        hangs_up(run(s, events.take(i)), events[i]) is None,
{
    let before = events.take(i);
    assert forall|j: int| 0 <= j < before.len() implies keeps_suspended(#[trigger] before[j]) by {
        assert(before[j] == events[j]);
    }
    lemma_suspension_is_remembered(s, before);
}

/// A pass of the pump that sees the link not suspended hangs up nobody.
pub proof fn lemma_no_hangup_on_active_link(s: ServiceState, leds: Option<u8>, fido: Option<Packet>)
    ensures
        hangs_up(s, ServiceEvent::Pump(leds, fido, false)) is None,
{
}

} // verus!
