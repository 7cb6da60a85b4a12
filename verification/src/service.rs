use crate::core_select::{
    ensure_core, ensure_core_spec, switch_core, switch_core_spec, which_core, active_core,
    CoreAction, DeviceCoreType, Views,
};
use crate::fido::{ArbiterState, FidoArbiter, ListenOutcome, Packet, U2fCode};
use crate::keyboard::{
    key_codes, keyboard_ready, send_key_code, string_keystrokes, stroke_steps_spec, KeySend,
};
use vstd::prelude::*;

verus! {

/// The whole state of the service as a mathematical value.
pub struct ServiceState {
    /// The interface set that is exposed while the device core is attached.
    pub view: Views,
    /// The FIDO channel.
    pub arbiter: ArbiterState,
    /// The keyboard LED bitmap that the host sent last, packed in one byte.
    pub led_state: u8,
    /// Whether the link was suspended when it was last observed.
    pub was_suspended: bool,
    /// Whether the next status read has to report an update.
    pub force_status_update: bool,
}

/// One step of going through a suspend and the resume that follows it.
#[derive(Clone, Copy, Debug, PartialEq, Eq, Structural)]
pub enum ResumeStep {
    /// Stop driving the bus.
    PrepareSuspend,
    /// Block until the host resumes, handing this token on unchanged.
    WaitForResume(usize),
    /// Bring the hardware to a minimally initialised state.
    Resume1,
    /// Force a bus reset on the device object of this view; a failure is
    /// logged and the steps go on.
    ForceReset(Views),
    /// Restore the full application state of the hardware.
    Resume2,
}

/// Which reports to read after a poll of the bus.
#[derive(Clone, Copy, Debug, PartialEq, Eq, Structural)]
pub struct ReadPlan {
    pub keyboard: bool,
    pub fido: bool,
}

/// Whom to answer after one pass of the event pump.
#[derive(Clone, Copy, Debug, PartialEq, Eq)]
pub struct PumpOutcome {
    /// The request to answer with `RxAck`, and the packet to answer it with.
    pub answered: Option<(u64, Packet)>,
    /// The request to answer with `Hangup`.
    pub hung_up: Option<u64>,
}

/// The answer to a request to send a FIDO packet.
#[derive(Clone, Copy, Debug, PartialEq, Eq)]
pub struct SendOutcome {
    pub code: U2fCode,
    /// The view whose FIDO interface the packet is to be written to; `None`
    /// where nothing is to be written.
    pub interface: Option<Views>,
}

/// The answer to a status query.
#[derive(Clone, Copy, Debug, PartialEq, Eq, Structural)]
pub struct LockStatus {
    /// 1 where the debug core is locked out, else 0.
    pub locked: usize,
    /// 1 where the status is to be redrawn though it may not have changed.
    pub force_update: usize,
}

/// The steps of a suspend/resume cycle under a view, in order.
pub open spec fn resume_steps(view: Views, token: usize) -> Seq<ResumeStep> {
    seq![
        ResumeStep::PrepareSuspend,
        ResumeStep::WaitForResume(token),
        ResumeStep::Resume1,
        ResumeStep::ForceReset(view),
        ResumeStep::Resume2,
    ]
}

impl ServiceState {
    /// The state at service start: the view with a keyboard, nothing on the
    /// FIDO channel, the link taken as suspended, a status update owed.
    pub open spec fn initial() -> ServiceState {
        ServiceState {
            view: Views::FidoWithKbd,
            arbiter: ArbiterState::fresh(),
            led_state: 0,
            was_suspended: true,
            force_status_update: true,
        }
    }

    /// The state after an unconditional switch to `target`.
    pub open spec fn switch_core(self, target: DeviceCoreType) -> ServiceState {
        ServiceState { view: switch_core_spec(self.view, target).view, ..self }
    }

    /// The state after `target` has been ensured, given the connection flag.
    pub open spec fn ensure_core(self, connected: bool, target: DeviceCoreType) -> ServiceState {
        ServiceState { view: ensure_core_spec(self.view, connected, target).view, ..self }
    }

    /// The state after a request to listen.
    pub open spec fn listen(self, caller: u8, request: u64) -> ServiceState {
        ServiceState { arbiter: self.arbiter.listen(caller, request), ..self }
    }

    /// The state after a request to send.
    pub open spec fn send(self, caller: u8) -> ServiceState {
        ServiceState { arbiter: self.arbiter.claim(caller), ..self }
    }

    /// The answer to a request to send: the owner is acknowledged and its
    /// packet goes to the FIDO interface of the active view.
    pub open spec fn send_outcome(self, caller: u8) -> SendOutcome {
        SendOutcome {
            code: self.arbiter.send_code(caller),
            interface: if self.arbiter.admits(caller) {
                Some(self.view)
            } else {
                None
            },
        }
    }

    /// The answer to a status read.
    pub open spec fn lock_status(self, locked: bool) -> LockStatus {
        LockStatus {
            locked: if locked { 1 } else { 0 },
            force_update: if self.force_status_update { 1 } else { 0 },
        }
    }

    /// The state after a suspend and resume: a status update is owed.
    pub open spec fn resumed(self) -> ServiceState {
        ServiceState { force_status_update: true, ..self }
    }

    /// The state after a status read: no status update is owed.
    pub open spec fn status_read(self) -> ServiceState {
        ServiceState { force_status_update: false, ..self }
    }

    /// The FIDO channel once the packet read in a pass, if any, is delivered.
    pub open spec fn after_inbound(self, fido: Option<Packet>) -> ArbiterState {
        match fido {
            Some(packet) => self.arbiter.inbound(packet),
            None => self.arbiter,
        }
    }

    /// A pass sees a suspend edge where the link is suspended now and was not
    /// when it was last observed.
    pub open spec fn suspend_edge(self, suspended: bool) -> bool {
        suspended && !self.was_suspended
    }

    /// The request that a pass answers, with the packet it read.
    pub open spec fn pump_answered(self, fido: Option<Packet>) -> Option<(u64, Packet)> {
        match (self.arbiter.pending, fido) {
            (Some(request), Some(packet)) => Some((request, packet)),
            _ => None,
        }
    }

    /// The request that a pass answers with `Hangup`: the one still parked
    /// when a suspend edge is seen.
    pub open spec fn pump_hung_up(self, fido: Option<Packet>, suspended: bool) -> Option<u64> {
        if self.suspend_edge(suspended) {
            self.after_inbound(fido).pending
        } else {
            None
        }
    }

    /// The state after one pass of the event pump.
    pub open spec fn pump(self, leds: Option<u8>, fido: Option<Packet>, suspended: bool) -> ServiceState {
        ServiceState {
            arbiter: if self.suspend_edge(suspended) {
                self.after_inbound(fido).link_lost()
            } else {
                self.after_inbound(fido)
            },
            led_state: if self.view is FidoWithKbd && leds is Some {
                leds->Some_0
            } else {
                self.led_state
            },
            was_suspended: suspended,
            ..self
        }
    }
}

/// One request or bus event that changes the state of the service.
#[derive(Clone, Copy, Debug, PartialEq, Eq)]
pub enum ServiceEvent {
    /// An unconditional switch to a personality.
    Switch(DeviceCoreType),
    /// An idempotent request for a personality, with the connection flag
    /// observed when it is served.
    Ensure(bool, DeviceCoreType),
    /// A caller asks to listen, under a request handle.
    Listen(u8, u64),
    /// A caller asks to send.
    Send(u8),
    /// One pass of the event pump: the LED report, the FIDO packet, and
    /// whether the link is suspended.
    Pump(Option<u8>, Option<Packet>, bool),
    /// A suspend and the resume that follows it, with the token to hand on.
    SuspendResume(usize),
    /// A status read, with the lock state read back from the hardware.
    StatusRead(bool),
}

/// The state after one event.
pub open spec fn step(s: ServiceState, event: ServiceEvent) -> ServiceState {
    match event {
        ServiceEvent::Switch(target) => s.switch_core(target),
        ServiceEvent::Ensure(connected, target) => s.ensure_core(connected, target),
        ServiceEvent::Listen(caller, request) => s.listen(caller, request),
        ServiceEvent::Send(caller) => s.send(caller),
        ServiceEvent::Pump(leds, fido, suspended) => s.pump(leds, fido, suspended),
        ServiceEvent::SuspendResume(_) => s.resumed(),
        ServiceEvent::StatusRead(_) => s.status_read(),
    }
}

/// What the service asks of its surroundings in answer to an event.
#[derive(Debug, PartialEq, Eq)]
pub enum Reaction {
    /// Carry out this hardware action, then acknowledge.
    Core(CoreAction),
    /// Treat the request to listen so.
    Listen(ListenOutcome),
    /// Answer the request to send so.
    Send(SendOutcome),
    /// Answer these parked requests.
    Pump(PumpOutcome),
    /// Run these steps, in order.
    Resume(Vec<ResumeStep>),
    /// Answer the status read so.
    Status(LockStatus),
}

/// Whether `reaction` is the answer to `event` in state `s`.
pub open spec fn reacts(s: ServiceState, event: ServiceEvent, reaction: Reaction) -> bool {
    match event {
        ServiceEvent::Switch(target) => reaction == Reaction::Core(
            switch_core_spec(s.view, target).action,
        ),
        ServiceEvent::Ensure(connected, target) => reaction == Reaction::Core(
            ensure_core_spec(s.view, connected, target).action,
        ),
        ServiceEvent::Listen(caller, _) => reaction == Reaction::Listen(
            s.arbiter.listen_outcome(caller),
        ),
        ServiceEvent::Send(caller) => reaction == Reaction::Send(s.send_outcome(caller)),
        ServiceEvent::Pump(_, fido, suspended) => reaction == Reaction::Pump(
            PumpOutcome { answered: s.pump_answered(fido), hung_up: s.pump_hung_up(fido, suspended) },
        ),
        ServiceEvent::SuspendResume(token) => reaction matches Reaction::Resume(steps) && steps@
            == resume_steps(s.view, token),
        ServiceEvent::StatusRead(locked) => reaction == Reaction::Status(s.lock_status(locked)),
    }
}

/// The service: the view, the FIDO channel, the LED bitmap and the two
/// trackers of the suspend cycle, owned by the one loop that serves requests.
pub struct UsbService {
    view: Views,
    arbiter: FidoArbiter,
    led_state: u8,
    was_suspended: bool,
    force_status_update: bool,
}

impl UsbService {
    /// The state that the service holds.
    pub closed spec fn view(&self) -> ServiceState {
        ServiceState {
            view: self.view,
            arbiter: self.arbiter@,
            led_state: self.led_state,
            was_suspended: self.was_suspended,
            force_status_update: self.force_status_update,
        }
    }

    /// The FIDO channel is well-formed.
    pub open spec fn wf(&self) -> bool {
        self@.arbiter.wf()
    }

    /// The service at start.
    pub fn new() -> (r: Self)
        ensures
            r@ == ServiceState::initial(),
            r.wf(),
    {
        UsbService {
            view: Views::FidoWithKbd,
            arbiter: FidoArbiter::new(),
            led_state: 0,
            was_suspended: true,
            force_status_update: true,
        }
    }

    /// The view that is active.
    pub fn active_view(&self) -> (r: Views)
        ensures
            r == self@.view,
    {
        self.view
    }

    /// The owner of the FIDO channel, once there is one.
    pub fn fido_owner(&self) -> (r: Option<u8>)
        ensures
            r == self@.arbiter.owner,
    {
        self.arbiter.owner()
    }

    /// The handle of the parked listen request, if there is one.
    pub fn pending_listener(&self) -> (r: Option<u64>)
        ensures
            r == self@.arbiter.pending,
    {
        self.arbiter.pending()
    }

    /// The number of inbound packets that wait for a listener.
    pub fn queued_packets(&self) -> (r: usize)
        ensures
            r == self@.arbiter.queue.len(),
    {
        self.arbiter.queued()
    }

    /// The keyboard LED bitmap that the host sent last, packed in one byte.
    pub fn get_led_state(&self) -> (r: u8)
        ensures
            r == self@.led_state,
    {
        self.led_state
    }

    /// Switches to `target` unconditionally and returns the hardware action
    /// to carry out, which is never `Nothing`.
    pub fn switch_core(&mut self, target: DeviceCoreType) -> (r: CoreAction)
        ensures
            r == switch_core_spec(old(self)@.view, target).action,
            r != CoreAction::Nothing,
            final(self)@ == old(self)@.switch_core(target),
    {
        let change = switch_core(self.view, target);
        self.view = change.view;
        change.action
    }

    /// Makes `target` the active personality and returns the hardware action
    /// to carry out: `Nothing` exactly where `target` is active already.
    /// `connected` tells whether the device core is attached now.
    pub fn ensure_core(&mut self, connected: bool, target: DeviceCoreType) -> (r: CoreAction)
        ensures
            r == ensure_core_spec(old(self)@.view, connected, target).action,
            (r == CoreAction::Nothing) == (active_core(old(self)@.view, connected) == target),
            final(self)@ == old(self)@.ensure_core(connected, target),
    {
        let change = ensure_core(self.view, connected, target);
        self.view = change.view;
        change.action
    }

    /// The personality that is active, given whether the device core is
    /// attached.
    pub fn which_core(&self, connected: bool) -> (r: DeviceCoreType)
        ensures
            r == active_core(self@.view, connected),
    {
        which_core(self.view, connected)
    }

    /// A caller asks for the next inbound FIDO packet.
    pub fn register_listener(&mut self, caller: u8, request: u64) -> (r: ListenOutcome)
        requires
            old(self).wf(),
        ensures
            final(self).wf(),
            r == old(self)@.arbiter.listen_outcome(caller),
            final(self)@ == old(self)@.listen(caller, request),
    {
        self.arbiter.register_listener(caller, request)
    }

    /// A caller asks to send a FIDO packet. The owner is told `TxAck`, and
    /// the packet goes to the FIDO interface of the active view; anyone else
    /// is told `Denied`, and nothing is written.
    pub fn send_fido(&mut self, caller: u8) -> (r: SendOutcome)
        requires
            old(self).wf(),
        ensures
            final(self).wf(),
            r == old(self)@.send_outcome(caller),
            final(self)@ == old(self)@.send(caller),
    {
        match self.arbiter.send(caller) {
            U2fCode::TxAck => SendOutcome { code: U2fCode::TxAck, interface: Some(self.view) },
            code => SendOutcome { code, interface: None },
        }
    }

    /// Which reports to read once the device object of the active view has
    /// been polled: none where the poll found nothing; else the FIDO report,
    /// and the keyboard report under the view that has a keyboard.
    pub fn read_plan(&self, polled: bool) -> (r: ReadPlan)
        ensures
            r.fido == polled,
            r.keyboard == (polled && self@.view is FidoWithKbd),
    {
        match self.view {
            Views::FidoWithKbd => ReadPlan { keyboard: polled, fido: polled },
            Views::FidoOnly => ReadPlan { keyboard: false, fido: polled },
        }
    }

    /// One pass of the event pump, on what was read after the poll: the LED
    /// report of the keyboard, the FIDO packet, and whether the link is
    /// suspended. The packet answers the parked listener or joins the
    /// backlog. Then, on a suspend edge only, the listener that is still
    /// parked is hung up.
    pub fn pump(&mut self, leds: Option<u8>, fido: Option<Packet>, suspended: bool) -> (r: PumpOutcome)
        requires
            old(self).wf(),
        ensures
            final(self).wf(),
            final(self)@ == old(self)@.pump(leds, fido, suspended),
            r.answered == old(self)@.pump_answered(fido),
            r.hung_up == old(self)@.pump_hung_up(fido, suspended),
    {
        match (self.view, leds) {
            (Views::FidoWithKbd, Some(bitmap)) => {
                self.led_state = bitmap;
            },
            _ => {},
        }
        let answered = match fido {
            Some(packet) => match self.arbiter.deliver_inbound(packet) {
                Some(request) => Some((request, packet)),
                None => None,
            },
            None => None,
        };
        let hung_up = if suspended && !self.was_suspended {
            self.arbiter.notify_link_lost()
        } else {
            None
        };
        self.was_suspended = suspended;
        PumpOutcome { answered, hung_up }
    }

    /// Goes through a suspend and the resume that follows: returns the steps
    /// to run, in order, and owes the status display one update. The view
    /// and the FIDO channel stay as they are.
    pub fn suspend_resume(&mut self, token: usize) -> (r: Vec<ResumeStep>)
        ensures
            r@ == resume_steps(old(self)@.view, token),
            final(self)@ == old(self)@.resumed(),
    {
        let mut steps: Vec<ResumeStep> = Vec::new();
        steps.push(ResumeStep::PrepareSuspend);
        steps.push(ResumeStep::WaitForResume(token));
        steps.push(ResumeStep::Resume1);
        steps.push(ResumeStep::ForceReset(self.view));
        steps.push(ResumeStep::Resume2);
        assert(steps@ =~= resume_steps(self.view, token));
        self.force_status_update = true;
        steps
    }

    /// Answers a status query with the lock state that was read back from
    /// the hardware, and with the update that is owed, which is then owed no
    /// more.
    pub fn lock_status(&mut self, locked: bool) -> (r: LockStatus)
        ensures
            r == old(self)@.lock_status(locked),
            final(self)@ == old(self)@.status_read(),
    {
        let status = LockStatus {
            locked: if locked { 1 } else { 0 },
            force_update: if self.force_status_update { 1 } else { 0 },
        };
        self.force_status_update = false;
        status
    }

    /// Serves one event: the state moves as `step` says, and the reaction is
    /// the one that `reacts` describes.
    pub fn handle(&mut self, event: ServiceEvent) -> (r: Reaction)
        requires
            old(self).wf(),
        ensures
            final(self).wf(),
            final(self)@ == step(old(self)@, event),
            reacts(old(self)@, event, r),
    {
        match event {
            ServiceEvent::Switch(target) => Reaction::Core(self.switch_core(target)),
            ServiceEvent::Ensure(connected, target) => Reaction::Core(
                self.ensure_core(connected, target),
            ),
            ServiceEvent::Listen(caller, request) => Reaction::Listen(
                self.register_listener(caller, request),
            ),
            ServiceEvent::Send(caller) => Reaction::Send(self.send_fido(caller)),
            ServiceEvent::Pump(leds, fido, suspended) => Reaction::Pump(
                self.pump(leds, fido, suspended),
            ),
            ServiceEvent::SuspendResume(token) => Reaction::Resume(self.suspend_resume(token)),
            ServiceEvent::StatusRead(locked) => Reaction::Status(self.lock_status(locked)),
        }
    }

    /// Decides a request to press up to three keys under the active view;
    /// `configured` tells whether the host has the device configured.
    pub fn send_key_code(
        &self,
        configured: bool,
        code0: usize,
        code1: usize,
        code2: usize,
        autoup: usize,
    ) -> (r: KeySend)
        ensures
            r.status == (if keyboard_ready(self@.view, configured) { 0usize } else { 1usize }),
            keyboard_ready(self@.view, configured) ==> r.codes@ == key_codes(code0, code1, code2)
                && r.steps@ == stroke_steps_spec(autoup == 1),
            !keyboard_ready(self@.view, configured) ==> r.codes@.len() == 0 && r.steps@.len() == 0,
            self@.view is FidoOnly ==> r.status == 1 && r.codes@.len() == 0 && r.steps@.len() == 0,
    {
        send_key_code(self.view, configured, code0, code1, code2, autoup)
    }

    /// Decides a request to type a text under the active view: the
    /// characters to type, which are all of them under the view with a
    /// keyboard and none under the other.
    pub fn send_string(&self, chars: Vec<char>) -> (r: Vec<char>)
        ensures
            r@ == (if self@.view is FidoWithKbd { chars@ } else { Seq::<char>::empty() }),
            self@.view is FidoOnly ==> r@.len() == 0,
    {
        string_keystrokes(self.view, chars)
    }
}

/// What a status query asks of the debug lock before it reads it back:
/// nothing where `update_req` is zero, else to lock where `new_state` is not
/// zero and to unlock where it is.
pub fn debug_lock_request(update_req: usize, new_state: usize) -> (r: Option<bool>)
    ensures
        r == (if update_req != 0 { Some(new_state != 0) } else { None }),
{
    if update_req != 0 {
        Some(new_state != 0)
    } else {
        None
    }
}

/// Whether a request to restrict debug access asks to lock the debug core.
pub fn restrict_request(restrict: usize) -> (r: bool)
    ensures
        r == (restrict != 0),
{
    restrict != 0
}

/// The answer to the query whether debug access is restricted.
pub fn restricted_reply(locked: bool) -> (r: usize)
    ensures
        r == (if locked { 1usize } else { 0usize }),
{
    if locked {
        1
    } else {
        0
    }
}

} // verus!
