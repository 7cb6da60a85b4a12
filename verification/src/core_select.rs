use vstd::prelude::*;

verus! {

/// Settle time, in milliseconds, between asserting reset and reconnecting.
pub const RESET_SETTLE_MS: u64 = 1000;

/// Time allowed for a switch between views. It is long because some hosts get
/// confused when one vendor/product pair shows up with another set of endpoints.
pub const EXTENDED_CORE_RESET_MS: u64 = 4000;

/// The electrical personality a caller asks for.
#[derive(Clone, Copy, Debug, PartialEq, Eq, Structural)]
pub enum DeviceCoreType {
    Debug,
    Fido,
    FidoKbd,
}

/// The set of HID interfaces exposed while the device core is attached.
#[derive(Clone, Copy, Debug, PartialEq, Eq, Structural)]
pub enum Views {
    FidoWithKbd,
    FidoOnly,
}

/// What the hardware has to do to honour a request for a core.
#[derive(Clone, Copy, Debug, PartialEq, Eq, Structural)]
pub enum CoreAction {
    /// The requested personality is already active.
    Nothing,
    /// Attach the device core (`true`) or the debug core (`false`).
    ConnectDeviceCore(bool),
    /// Re-enumerate under the other view: the steps of `hard_switch_steps`.
    HardSwitch,
}

/// One primitive of the hardware-control collaborator.
#[derive(Clone, Copy, Debug, PartialEq, Eq, Structural)]
pub enum HwStep {
    /// Attach the device core or the debug core, with the collaborator's own reset.
    ConnectDeviceCore(bool),
    /// Drive (`true`) or release (`false`) the reset line.
    Reset(bool),
    /// Select the device core at low level, without touching reset.
    LowLevelConnect(bool),
    /// Sleep for the given number of milliseconds.
    Sleep(u64),
}

/// The outcome of a request for a core: the view to hold from now on, and the
/// hardware action to carry out.
#[derive(Clone, Copy, Debug, PartialEq, Eq, Structural)]
pub struct CoreChange {
    pub view: Views,
    pub action: CoreAction,
}

/// The view that a device-mode target stands for; `Debug` stands for none.
pub open spec fn target_view(target: DeviceCoreType) -> Option<Views> {
    match target {
        DeviceCoreType::Debug => None,
        DeviceCoreType::Fido => Some(Views::FidoOnly),
        DeviceCoreType::FidoKbd => Some(Views::FidoWithKbd),
    }
}

/// The personality that is active under a view and a connection flag.
pub open spec fn active_core(view: Views, connected: bool) -> DeviceCoreType {
    if !connected {
        DeviceCoreType::Debug
    } else {
        match view {
            Views::FidoWithKbd => DeviceCoreType::FidoKbd,
            Views::FidoOnly => DeviceCoreType::Fido,
        }
    }
}

/// The result of an unconditional switch.
pub open spec fn switch_core_spec(view: Views, target: DeviceCoreType) -> CoreChange {
    match target_view(target) {
        None => CoreChange { view, action: CoreAction::ConnectDeviceCore(false) },
        Some(wanted) => if wanted == view {
            CoreChange { view, action: CoreAction::ConnectDeviceCore(true) }
        } else {
            CoreChange { view: wanted, action: CoreAction::HardSwitch }
        },
    }
}

/// The result of an idempotent "make it so" request.
pub open spec fn ensure_core_spec(view: Views, connected: bool, target: DeviceCoreType) -> CoreChange {
    match target_view(target) {
        None => if connected {
            CoreChange { view, action: CoreAction::ConnectDeviceCore(false) }
        } else {
            CoreChange { view, action: CoreAction::Nothing }
        },
        Some(wanted) => if !connected {
            CoreChange { view: wanted, action: CoreAction::ConnectDeviceCore(true) }
        } else if wanted != view {
            CoreChange { view: wanted, action: CoreAction::HardSwitch }
        } else {
            CoreChange { view, action: CoreAction::Nothing }
        },
    }
}

/// The connection flag once an action has been carried out.
pub open spec fn connected_after(connected: bool, action: CoreAction) -> bool {
    match action {
        CoreAction::Nothing => connected,
        CoreAction::ConnectDeviceCore(device) => device,
        CoreAction::HardSwitch => true,
    }
}

/// The number of reset sequences that the host sees when an action attaches
/// the device core. Attaching the debug core needs none.
pub open spec fn reset_sequences(action: CoreAction) -> nat {
    match action {
        CoreAction::Nothing => 0,
        CoreAction::ConnectDeviceCore(device) => if device { 1 } else { 0 },
        CoreAction::HardSwitch => 1,
    }
}

/// The steps of a hard view switch, in order.
pub open spec fn hard_switch_spec() -> Seq<HwStep> {
    seq![
        HwStep::Reset(true),
        HwStep::Sleep(RESET_SETTLE_MS),
        HwStep::LowLevelConnect(true),
        HwStep::Sleep(EXTENDED_CORE_RESET_MS),
        HwStep::Reset(false),
    ]
}

/// The primitives that carry out an action, in order.
pub open spec fn action_steps_spec(action: CoreAction) -> Seq<HwStep> {
    match action {
        CoreAction::Nothing => Seq::<HwStep>::empty(),
        CoreAction::ConnectDeviceCore(device) => seq![HwStep::ConnectDeviceCore(device)],
        CoreAction::HardSwitch => hard_switch_spec(),
    }
}

fn same_view(a: Views, b: Views) -> (r: bool)
    ensures
        r == (a == b),
{
    match (a, b) {
        (Views::FidoWithKbd, Views::FidoWithKbd) => true,
        (Views::FidoOnly, Views::FidoOnly) => true,
        _ => false,
    }
}

/// Switches to `target` unconditionally: some hardware action is always taken,
/// even when the personality asked for is the current one.
pub fn switch_core(view: Views, target: DeviceCoreType) -> (r: CoreChange)
    ensures
        r == switch_core_spec(view, target),
        r.action != CoreAction::Nothing,
        target_view(target) is Some ==> target_view(target) == Some(r.view),
        target_view(target) is None ==> r.view == view,
{
    match target {
        DeviceCoreType::Debug => CoreChange { view, action: CoreAction::ConnectDeviceCore(false) },
        DeviceCoreType::FidoKbd => match view {
            Views::FidoWithKbd => CoreChange { view, action: CoreAction::ConnectDeviceCore(true) },
            Views::FidoOnly => CoreChange { view: Views::FidoWithKbd, action: CoreAction::HardSwitch },
        },
        DeviceCoreType::Fido => match view {
            Views::FidoOnly => CoreChange { view, action: CoreAction::ConnectDeviceCore(true) },
            Views::FidoWithKbd => CoreChange { view: Views::FidoOnly, action: CoreAction::HardSwitch },
        },
    }
}

/// Makes `target` the active personality, and does nothing where it already is.
pub fn ensure_core(view: Views, connected: bool, target: DeviceCoreType) -> (r: CoreChange)
    ensures
        r == ensure_core_spec(view, connected, target),
        active_core(r.view, connected_after(connected, r.action)) == target,
        (r.action == CoreAction::Nothing) == (active_core(view, connected) == target),
        r.action == CoreAction::Nothing ==> r.view == view,
{
    match target {
        DeviceCoreType::Debug => {
            if connected {
                CoreChange { view, action: CoreAction::ConnectDeviceCore(false) }
            } else {
                CoreChange { view, action: CoreAction::Nothing }
            }
        },
        DeviceCoreType::FidoKbd => {
            if !connected {
                CoreChange { view: Views::FidoWithKbd, action: CoreAction::ConnectDeviceCore(true) }
            } else if !same_view(view, Views::FidoWithKbd) {
                CoreChange { view: Views::FidoWithKbd, action: CoreAction::HardSwitch }
            } else {
                CoreChange { view, action: CoreAction::Nothing }
            }
        },
        DeviceCoreType::Fido => {
            if !connected {
                CoreChange { view: Views::FidoOnly, action: CoreAction::ConnectDeviceCore(true) }
            } else if !same_view(view, Views::FidoOnly) {
                CoreChange { view: Views::FidoOnly, action: CoreAction::HardSwitch }
            } else {
                CoreChange { view, action: CoreAction::Nothing }
            }
        },
    }
}

/// The personality that is active now.
pub fn which_core(view: Views, connected: bool) -> (r: DeviceCoreType)
    ensures
        r == active_core(view, connected),
{
    if connected {
        match view {
            Views::FidoWithKbd => DeviceCoreType::FidoKbd,
            Views::FidoOnly => DeviceCoreType::Fido,
        }
    } else {
        DeviceCoreType::Debug
    }
}

/// The steps of a hard view switch: assert reset, let it settle, select the
/// device core, wait the extended time, release reset.
pub fn hard_switch_steps() -> (r: Vec<HwStep>)
    ensures
        r@ == hard_switch_spec(),
{
    let mut steps: Vec<HwStep> = Vec::new();
    steps.push(HwStep::Reset(true));
    steps.push(HwStep::Sleep(RESET_SETTLE_MS));
    steps.push(HwStep::LowLevelConnect(true));
    steps.push(HwStep::Sleep(EXTENDED_CORE_RESET_MS));
    steps.push(HwStep::Reset(false));
    assert(steps@ =~= hard_switch_spec());
    steps
}

/// The hardware primitives that carry out `action`, in the order to run them.
pub fn action_steps(action: CoreAction) -> (r: Vec<HwStep>)
    ensures
        r@ == action_steps_spec(action),
{
    match action {
        CoreAction::Nothing => {
            let steps: Vec<HwStep> = Vec::new();
            assert(steps@ =~= Seq::<HwStep>::empty());
            steps
        },
        CoreAction::ConnectDeviceCore(device) => {
            let mut steps: Vec<HwStep> = Vec::new();
            steps.push(HwStep::ConnectDeviceCore(device));
            assert(steps@ =~= seq![HwStep::ConnectDeviceCore(device)]);
            steps
        },
        CoreAction::HardSwitch => hard_switch_steps(),
    }
}

/// Ensuring a personality twice in a row, with the first action carried out in
/// between, does nothing the second time: at most one reset sequence in all.
pub proof fn lemma_ensure_core_idempotent(view: Views, connected: bool, target: DeviceCoreType)
    ensures
        ({
            let first = ensure_core_spec(view, connected, target);
            let second = ensure_core_spec(first.view, connected_after(connected, first.action), target);
            &&& second.action == CoreAction::Nothing
            &&& second.view == first.view
            &&& reset_sequences(first.action) + reset_sequences(second.action) <= 1
            &&& target_view(target) is Some && active_core(view, connected) != target
                ==> reset_sequences(first.action) + reset_sequences(second.action) == 1
        }),
{
}

/// Switching to a device-mode personality always costs one reset sequence, so
/// two switches in a row cost two, whatever the state before them.
pub proof fn lemma_switch_core_always_resets(view: Views, target: DeviceCoreType)
    requires
        target_view(target) is Some,
    ensures
        ({
            let first = switch_core_spec(view, target);
            let second = switch_core_spec(first.view, target);
            &&& reset_sequences(first.action) == 1
            &&& reset_sequences(second.action) == 1
            &&& second.view == first.view
            &&& target_view(target) == Some(first.view)
        }),
{
}

} // verus!
