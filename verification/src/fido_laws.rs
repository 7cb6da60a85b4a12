use crate::fido::{ArbiterState, ListenOutcome, Packet, U2fCode};
use vstd::prelude::*;

verus! {

/// One event in the life of the arbiter.
pub enum ArbiterCall {
    /// A caller asks to listen, under a request handle.
    Register(u8, u64),
    /// A caller asks to send.
    Send(u8),
    /// The hardware produced a packet.
    Inbound(Packet),
    /// The link was lost.
    LinkLost,
}

/// The state after one event.
pub open spec fn apply(s: ArbiterState, call: ArbiterCall) -> ArbiterState {
    match call {
        ArbiterCall::Register(caller, request) => s.listen(caller, request),
        ArbiterCall::Send(caller) => s.claim(caller),
        ArbiterCall::Inbound(packet) => s.inbound(packet),
        ArbiterCall::LinkLost => s.link_lost(),
    }
}

/// The state after a sequence of events, the first of the sequence first.
pub open spec fn run(s: ArbiterState, calls: Seq<ArbiterCall>) -> ArbiterState
    decreases calls.len(),
{
    if calls.len() == 0 {
        s
    } else {
        apply(run(s, calls.drop_last()), calls.last())
    }
}

/// The process that makes a call, where a process makes it.
pub open spec fn caller_of(call: ArbiterCall) -> Option<u8> {
    match call {
        ArbiterCall::Register(caller, _) => Some(caller),
        ArbiterCall::Send(caller) => Some(caller),
        ArbiterCall::Inbound(_) => None,
        ArbiterCall::LinkLost => None,
    }
}

/// Whether a call made in state `s` is answered with `Denied`.
pub open spec fn denied(s: ArbiterState, call: ArbiterCall) -> bool {
    match call {
        ArbiterCall::Register(caller, _) => s.listen_outcome(caller) is Denied,
        ArbiterCall::Send(caller) => s.send_code(caller) is Denied,
        ArbiterCall::Inbound(_) => false,
        ArbiterCall::LinkLost => false,
    }
}

/// The state after a run of inbound packets.
pub open spec fn deliver_all(s: ArbiterState, packets: Seq<Packet>) -> ArbiterState
    decreases packets.len(),
{
    if packets.len() == 0 {
        s
    } else {
        deliver_all(s, packets.drop_last()).inbound(packets.last())
    }
}

/// The state after one caller has asked to listen once for each handle.
pub open spec fn listen_all(s: ArbiterState, caller: u8, requests: Seq<u64>) -> ArbiterState
    decreases requests.len(),
{
    if requests.len() == 0 {
        s
    } else {
        listen_all(s, caller, requests.drop_last()).listen(caller, requests.last())
    }
}

/// Every event keeps the arbiter well-formed.
pub proof fn lemma_run_keeps_wf(s: ArbiterState, calls: Seq<ArbiterCall>)
    requires
        s.wf(),
    ensures
        run(s, calls).wf(),
    decreases calls.len(),
{
    if calls.len() > 0 {
        lemma_run_keeps_wf(s, calls.drop_last());
    }
}

/// Ownership is permanent: once there is an owner, no sequence of events
/// changes it.
pub proof fn lemma_owner_is_permanent(s: ArbiterState, calls: Seq<ArbiterCall>)
    requires
        s.owner is Some,
    ensures
        run(s, calls).owner == s.owner,
    decreases calls.len(),
{
    if calls.len() > 0 {
        lemma_owner_is_permanent(s, calls.drop_last());
    }
}

/// Single owner: the first process to listen or send on a channel without
/// owner is admitted and becomes the owner; whatever events follow, in
/// whatever order, every later call of another process is denied.
pub proof fn lemma_single_owner(
    s: ArbiterState,
    first: ArbiterCall,
    calls: Seq<ArbiterCall>,
    i: int,
)
    requires
        s.owner is None,
        caller_of(first) is Some,
        0 <= i < calls.len(),
        caller_of(calls[i]) is Some,
        caller_of(calls[i]) != caller_of(first),
    ensures
        !denied(s, first),
        apply(s, first).owner == caller_of(first),
        denied(run(apply(s, first), calls.take(i)), calls[i]),
{
    lemma_owner_is_permanent(apply(s, first), calls.take(i));
}

/// Inbound packets that find no parked listener join the backlog in the order
/// of their arrival, and change nothing else.
pub proof fn lemma_deliver_all_queues(s: ArbiterState, packets: Seq<Packet>)
    requires
        s.pending is None,
    ensures
        deliver_all(s, packets) == (ArbiterState { queue: s.queue + packets, ..s }),
    decreases packets.len(),
{
    if packets.len() == 0 {
        assert(s.queue + packets =~= s.queue);
    } else {
        lemma_deliver_all_queues(s, packets.drop_last());
        assert((s.queue + packets.drop_last()).push(packets.last()) =~= s.queue + packets);
    }
}

/// As long as the backlog lasts, each request of an admitted caller takes its
/// oldest packet away and leaves the rest in order.
pub proof fn lemma_listen_all_drains(s: ArbiterState, caller: u8, requests: Seq<u64>)
    requires
        s.admits(caller),
        requests.len() <= s.queue.len(),
    ensures
        listen_all(s, caller, requests) == (ArbiterState {
            owner: if requests.len() == 0 { s.owner } else { Some(caller) },
            queue: s.queue.skip(requests.len() as int),
            ..s
        }),
    decreases requests.len(),
{
    if requests.len() == 0 {
        assert(s.queue.skip(0) =~= s.queue);
    } else {
        lemma_listen_all_drains(s, caller, requests.drop_last());
        let before = listen_all(s, caller, requests.drop_last());
        assert(before.queue.len() > 0);
        assert(before.queue.drop_first() =~= s.queue.skip(requests.len() as int));
    }
}

/// First in, first out: after packets have arrived with no listener parked,
/// the listen request that follows the served ones is answered at once with
/// the packet whose position in the backlog, oldest first, is their number.
pub proof fn lemma_queue_fifo(
    s: ArbiterState,
    packets: Seq<Packet>,
    caller: u8,
    served: Seq<u64>,
)
    requires
        s.pending is None,
        s.admits(caller),
        served.len() < s.queue.len() + packets.len(),
    ensures
        listen_all(deliver_all(s, packets), caller, served).listen_outcome(caller)
            == ListenOutcome::Delivered((s.queue + packets)[served.len() as int]),
{
    lemma_deliver_all_queues(s, packets);
    let filled = deliver_all(s, packets);
    lemma_listen_all_drains(filled, caller, served);
}

/// A listener that is parked when the link is lost is parked no more, so no
/// later event can answer it a second time; the backlog is kept for the next
/// listener.
pub proof fn lemma_link_lost_clears_listener(s: ArbiterState)
    ensures
        s.link_lost().pending is None,
        s.link_lost().link_lost() == s.link_lost(),
        s.link_lost().queue == s.queue,
        s.link_lost().owner == s.owner,
{
}

} // verus!
