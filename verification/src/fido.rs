use std::collections::VecDeque;
use vstd::prelude::*;

verus! {

/// One raw FIDO report: always 64 bytes.
pub type Packet = [u8; 64];

/// Status codes carried on the FIDO channel.
#[derive(Clone, Copy, Debug, PartialEq, Eq, Structural)]
pub enum U2fCode {
    /// Set by a sender before it hands a packet over.
    Tx,
    /// Set by a listener before it asks for a packet; a request that is never
    /// answered stays in this state.
    RxWait,
    /// The outbound packet was accepted.
    TxAck,
    /// A packet was delivered.
    RxAck,
    /// The link dropped while a listen was outstanding.
    Hangup,
    /// The caller is not the owner of the channel.
    Denied,
}

/// What becomes of a request to listen.
#[derive(Clone, Copy, Debug, PartialEq, Eq)]
pub enum ListenOutcome {
    /// Answer at once with this packet, the oldest of the backlog.
    Delivered(Packet),
    /// Answer at once: the caller does not own the channel.
    Denied,
    /// The request is parked and answered by a later event.
    Parked,
    /// The owner already has a request parked. The new request gets no answer
    /// and the parked one is left as it was.
    Conflict,
}

/// The arbiter as a mathematical value.
pub struct ArbiterState {
    /// The process that owns the channel, once there is one.
    pub owner: Option<u8>,
    /// The handle of the parked listen request, if any.
    pub pending: Option<u64>,
    /// Inbound packets that nobody has claimed yet, oldest first.
    pub queue: Seq<Packet>,
}

impl ArbiterState {
    /// A listener is parked only by the owner, and only while no packet waits.
    pub open spec fn wf(self) -> bool {
        self.pending is Some ==> self.queue.len() == 0 && self.owner is Some
    }

    /// The state at service start.
    pub open spec fn fresh() -> ArbiterState {
        ArbiterState { owner: None, pending: None, queue: Seq::<Packet>::empty() }
    }

    /// First contact makes the caller the owner; later contacts change nothing.
    pub open spec fn claim(self, caller: u8) -> ArbiterState {
        if self.owner is None {
            ArbiterState { owner: Some(caller), ..self }
        } else {
            self
        }
    }

    /// Whether `caller` owns the channel once its contact has been counted.
    pub open spec fn admits(self, caller: u8) -> bool {
        self.owner is None || self.owner == Some(caller)
    }

    /// The answer to a request to listen.
    pub open spec fn listen_outcome(self, caller: u8) -> ListenOutcome {
        if !self.admits(caller) {
            ListenOutcome::Denied
        } else if self.queue.len() > 0 {
            ListenOutcome::Delivered(self.queue[0])
        } else if self.pending is Some {
            ListenOutcome::Conflict
        } else {
            ListenOutcome::Parked
        }
    }

    /// The state after a request to listen.
    pub open spec fn listen(self, caller: u8, request: u64) -> ArbiterState {
        let claimed = self.claim(caller);
        match self.listen_outcome(caller) {
            ListenOutcome::Delivered(_) => ArbiterState { queue: self.queue.drop_first(), ..claimed },
            ListenOutcome::Parked => ArbiterState { pending: Some(request), ..claimed },
            ListenOutcome::Denied => claimed,
            ListenOutcome::Conflict => claimed,
        }
    }

    /// The answer to a request to send.
    pub open spec fn send_code(self, caller: u8) -> U2fCode {
        if self.admits(caller) {
            U2fCode::TxAck
        } else {
            U2fCode::Denied
        }
    }

    /// The state after an inbound packet: it answers the parked listener, or
    /// joins the tail of the backlog.
    pub open spec fn inbound(self, packet: Packet) -> ArbiterState {
        if self.pending is Some {
            ArbiterState { pending: None, ..self }
        } else {
            ArbiterState { queue: self.queue.push(packet), ..self }
        }
    }

    /// The state after the link was lost: nobody is parked, the backlog stays.
    pub open spec fn link_lost(self) -> ArbiterState {
        ArbiterState { pending: None, ..self }
    }
}

/// Arbitrates the FIDO channel: one owner, at most one parked listener, and a
/// backlog of the packets that arrived while nobody listened.
pub struct FidoArbiter {
    owner: Option<u8>,
    pending: Option<u64>,
    rx_queue: VecDeque<Packet>,
}

impl FidoArbiter {
    /// The state that the arbiter holds.
    pub closed spec fn view(&self) -> ArbiterState {
        ArbiterState { owner: self.owner, pending: self.pending, queue: self.rx_queue@ }
    }

    /// The invariant that `new` establishes and every method keeps.
    pub open spec fn wf(&self) -> bool {
        self@.wf()
    }

    /// An arbiter without owner, listener or backlog.
    pub fn new() -> (r: Self)
        ensures
            r@ == ArbiterState::fresh(),
            r.wf(),
    {
        FidoArbiter { owner: None, pending: None, rx_queue: VecDeque::new() }
    }

    /// The owner of the channel, once a first caller has made contact.
    pub fn owner(&self) -> (r: Option<u8>)
        ensures
            r == self@.owner,
    {
        self.owner
    }

    /// The handle of the parked listen request, if there is one.
    pub fn pending(&self) -> (r: Option<u64>)
        ensures
            r == self@.pending,
    {
        self.pending
    }

    /// The number of packets in the backlog.
    pub fn queued(&self) -> (r: usize)
        ensures
            r == self@.queue.len(),
    {
        self.rx_queue.len()
    }

    fn claim(&mut self, caller: u8) -> (admitted: bool)
        ensures
            final(self)@ == old(self)@.claim(caller),
            admitted == old(self)@.admits(caller),
    {
        match self.owner {
            None => {
                self.owner = Some(caller);
                true
            },
            Some(owner) => owner == caller,
        }
    }

    /// A caller asks for the next inbound packet; `request` is the handle by
    /// which its deferred answer is known. The first caller ever becomes the
    /// owner. Anyone else is denied. The owner gets the oldest packet of the
    /// backlog at once, or is parked until one arrives; while a request of
    /// its is parked already, a further one is a conflict and changes nothing.
    pub fn register_listener(&mut self, caller: u8, request: u64) -> (r: ListenOutcome)
        requires
            old(self).wf(),
        ensures
            final(self).wf(),
            final(self)@ == old(self)@.listen(caller, request),
            r == old(self)@.listen_outcome(caller),
    {
        if !self.claim(caller) {
            return ListenOutcome::Denied;
        }
        match self.rx_queue.pop_front() {
            Some(packet) => ListenOutcome::Delivered(packet),
            None => {
                if self.pending.is_some() {
                    ListenOutcome::Conflict
                } else {
                    self.pending = Some(request);
                    ListenOutcome::Parked
                }
            },
        }
    }

    /// A caller asks to send a packet. The first caller ever becomes the
    /// owner; the owner is told `TxAck` and the packet is to be written out,
    /// anyone else is told `Denied` and nothing is to be written.
    pub fn send(&mut self, caller: u8) -> (r: U2fCode)
        requires
            old(self).wf(),
        ensures
            final(self).wf(),
            final(self)@ == old(self)@.claim(caller),
            r == old(self)@.send_code(caller),
    {
        if self.claim(caller) {
            U2fCode::TxAck
        } else {
            U2fCode::Denied
        }
    }

    /// The hardware produced a packet. Returns the handle of the parked
    /// request that it answers (with `RxAck`), which is then parked no more;
    /// without a parked request the packet joins the tail of the backlog.
    pub fn deliver_inbound(&mut self, packet: Packet) -> (r: Option<u64>)
        requires
            old(self).wf(),
        ensures
            final(self).wf(),
            final(self)@ == old(self)@.inbound(packet),
            r == old(self)@.pending,
    {
        match self.pending {
            Some(request) => {
                self.pending = None;
                Some(request)
            },
            None => {
                self.rx_queue.push_back(packet);
                None
            },
        }
    }

    /// The link was lost. Returns the handle of the parked request, which is
    /// to be answered with `Hangup` and is parked no more. The backlog stays.
    pub fn notify_link_lost(&mut self) -> (r: Option<u64>)
        requires
            old(self).wf(),
        ensures
            final(self).wf(),
            final(self)@ == old(self)@.link_lost(),
            r == old(self)@.pending,
    {
        let parked = self.pending;
        self.pending = None;
        parked
    }
}

/// The status code that a listener reads once `outcome` has been acted on.
pub fn listen_code(outcome: &ListenOutcome) -> (r: U2fCode)
    ensures
        r == (match *outcome {
            ListenOutcome::Delivered(_) => U2fCode::RxAck,
            ListenOutcome::Denied => U2fCode::Denied,
            ListenOutcome::Parked => U2fCode::RxWait,
            ListenOutcome::Conflict => U2fCode::RxWait,
        }),
{
    match outcome {
        ListenOutcome::Delivered(_) => U2fCode::RxAck,
        ListenOutcome::Denied => U2fCode::Denied,
        ListenOutcome::Parked => U2fCode::RxWait,
        ListenOutcome::Conflict => U2fCode::RxWait,
    }
}

} // verus!
