use usb_device_xous::core_select::{CoreAction, DeviceCoreType, Views};
use usb_device_xous::fido::{ListenOutcome, U2fCode};
use usb_device_xous::keyboard::{stroke_steps, KeySend};
use usb_device_xous::service::{
    debug_lock_request, restrict_request, restricted_reply, LockStatus, PumpOutcome, Reaction,
    ReadPlan, ResumeStep, SendOutcome, ServiceEvent, UsbService,
};

fn frame(tag: u8) -> [u8; 64] {
    [tag; 64]
}

#[test]
fn service_starts_with_keyboard_view_and_nothing_else() {
    let s = UsbService::new();
    assert_eq!(s.active_view(), Views::FidoWithKbd);
    assert_eq!(s.fido_owner(), None);
    assert_eq!(s.pending_listener(), None);
    assert_eq!(s.queued_packets(), 0);
    assert_eq!(s.get_led_state(), 0);
}

#[test]
fn first_status_read_forces_an_update_once() {
    let mut s = UsbService::new();
    assert_eq!(s.lock_status(false), LockStatus { locked: 0, force_update: 1 });
    assert_eq!(s.lock_status(true), LockStatus { locked: 1, force_update: 0 });
}

#[test]
fn resume_runs_its_steps_and_forces_an_update() {
    let mut s = UsbService::new();
    s.lock_status(false);
    assert_eq!(
        s.suspend_resume(0x1234),
        vec![
            ResumeStep::PrepareSuspend,
            ResumeStep::WaitForResume(0x1234),
            ResumeStep::Resume1,
            ResumeStep::ForceReset(Views::FidoWithKbd),
            ResumeStep::Resume2,
        ]
    );
    assert_eq!(s.lock_status(false), LockStatus { locked: 0, force_update: 1 });
    assert_eq!(s.lock_status(false), LockStatus { locked: 0, force_update: 0 });
}

#[test]
fn resume_resets_the_device_of_the_active_view() {
    let mut s = UsbService::new();
    assert_eq!(s.switch_core(DeviceCoreType::Fido), CoreAction::HardSwitch);
    assert_eq!(s.register_listener(2, 9), ListenOutcome::Parked);
    let steps = s.suspend_resume(7);
    assert_eq!(steps[3], ResumeStep::ForceReset(Views::FidoOnly));
    assert_eq!(s.active_view(), Views::FidoOnly);
    assert_eq!(s.fido_owner(), Some(2));
    assert_eq!(s.pending_listener(), Some(9));
}

#[test]
fn ensure_core_twice_resets_once_and_switch_twice_resets_twice() {
    let mut s = UsbService::new();
    assert_eq!(s.ensure_core(true, DeviceCoreType::Fido), CoreAction::HardSwitch);
    assert_eq!(s.ensure_core(true, DeviceCoreType::Fido), CoreAction::Nothing);
    assert_eq!(s.switch_core(DeviceCoreType::FidoKbd), CoreAction::HardSwitch);
    assert_eq!(s.switch_core(DeviceCoreType::FidoKbd), CoreAction::ConnectDeviceCore(true));
    assert_eq!(s.which_core(true), DeviceCoreType::FidoKbd);
    assert_eq!(s.which_core(false), DeviceCoreType::Debug);
}

#[test]
fn read_plan_follows_poll_and_view() {
    let mut s = UsbService::new();
    assert_eq!(s.read_plan(true), ReadPlan { keyboard: true, fido: true });
    assert_eq!(s.read_plan(false), ReadPlan { keyboard: false, fido: false });
    s.switch_core(DeviceCoreType::Fido);
    assert_eq!(s.read_plan(true), ReadPlan { keyboard: false, fido: true });
    assert_eq!(s.read_plan(false), ReadPlan { keyboard: false, fido: false });
}

#[test]
fn led_report_is_kept_under_the_keyboard_view_only() {
    let mut s = UsbService::new();
    s.pump(Some(0b101), None, false);
    assert_eq!(s.get_led_state(), 0b101);
    s.pump(None, None, false);
    assert_eq!(s.get_led_state(), 0b101);
    s.switch_core(DeviceCoreType::Fido);
    s.pump(Some(0b010), None, false);
    assert_eq!(s.get_led_state(), 0b101);
}

#[test]
fn pump_queues_then_serves_in_order() {
    let mut s = UsbService::new();
    for tag in 1..=3u8 {
        assert_eq!(s.pump(None, Some(frame(tag)), false), PumpOutcome { answered: None, hung_up: None });
    }
    assert_eq!(s.queued_packets(), 3);
    assert_eq!(s.register_listener(6, 1), ListenOutcome::Delivered(frame(1)));
    assert_eq!(s.register_listener(6, 2), ListenOutcome::Delivered(frame(2)));
    assert_eq!(s.register_listener(6, 3), ListenOutcome::Delivered(frame(3)));
    assert_eq!(s.register_listener(6, 4), ListenOutcome::Parked);
    assert_eq!(s.pump(None, Some(frame(4)), false), PumpOutcome { answered: Some((4, frame(4))), hung_up: None });
    assert_eq!(s.pending_listener(), None);
}

#[test]
fn listener_is_hung_up_on_the_suspend_edge_only() {
    let mut s = UsbService::new();
    // the link counts as suspended at start: no edge yet
    assert_eq!(s.register_listener(6, 1), ListenOutcome::Parked);
    assert_eq!(s.pump(None, None, true), PumpOutcome { answered: None, hung_up: None });
    assert_eq!(s.pump(None, None, false), PumpOutcome { answered: None, hung_up: None });
    // not suspended -> suspended: the edge
    assert_eq!(s.pump(None, None, true), PumpOutcome { answered: None, hung_up: Some(1) });
    assert_eq!(s.pending_listener(), None);
    // a listener that comes after the edge is left alone while the link stays suspended
    assert_eq!(s.register_listener(6, 2), ListenOutcome::Parked);
    assert_eq!(s.pump(None, None, true), PumpOutcome { answered: None, hung_up: None });
    assert_eq!(s.pump(None, None, true), PumpOutcome { answered: None, hung_up: None });
    assert_eq!(s.pending_listener(), Some(2));
}

#[test]
fn packet_read_on_the_edge_answers_before_the_hangup() {
    let mut s = UsbService::new();
    s.pump(None, None, false);
    assert_eq!(s.register_listener(6, 1), ListenOutcome::Parked);
    assert_eq!(s.pump(None, Some(frame(9)), true), PumpOutcome { answered: Some((1, frame(9))), hung_up: None });
    assert_eq!(s.queued_packets(), 0);
}

#[test]
fn backlog_survives_a_suspend() {
    let mut s = UsbService::new();
    s.pump(None, Some(frame(1)), false);
    s.pump(None, None, true);
    s.pump(None, None, false);
    assert_eq!(s.register_listener(6, 1), ListenOutcome::Delivered(frame(1)));
}

#[test]
fn send_goes_to_the_interface_of_the_active_view() {
    let mut s = UsbService::new();
    assert_eq!(s.send_fido(3), SendOutcome { code: U2fCode::TxAck, interface: Some(Views::FidoWithKbd) });
    assert_eq!(s.send_fido(4), SendOutcome { code: U2fCode::Denied, interface: None });
    s.switch_core(DeviceCoreType::Fido);
    assert_eq!(s.send_fido(3), SendOutcome { code: U2fCode::TxAck, interface: Some(Views::FidoOnly) });
    assert_eq!(s.register_listener(4, 1), ListenOutcome::Denied);
}

#[test]
fn keys_and_text_need_the_keyboard_view() {
    let mut s = UsbService::new();
    assert_eq!(s.send_key_code(true, 4, 0, 0, 1), KeySend { status: 0, codes: vec![4], steps: stroke_steps(true) });
    assert_eq!(s.send_string(vec!['o', 'k']), vec!['o', 'k']);
    s.ensure_core(true, DeviceCoreType::Fido);
    assert_eq!(s.send_key_code(true, 4, 0, 0, 1), KeySend { status: 1, codes: vec![], steps: vec![] });
    assert_eq!(s.send_string(vec!['o', 'k']), Vec::<char>::new());
}

#[test]
fn debug_lock_requests() {
    assert_eq!(debug_lock_request(0, 0), None);
    assert_eq!(debug_lock_request(0, 1), None);
    assert_eq!(debug_lock_request(1, 0), Some(false));
    assert_eq!(debug_lock_request(1, 5), Some(true));
    assert!(!restrict_request(0));
    assert!(restrict_request(1));
    assert!(restrict_request(17));
    assert_eq!(restricted_reply(true), 1);
    assert_eq!(restricted_reply(false), 0);
}

#[test]
fn handle_serves_each_kind_of_event() {
    let mut s = UsbService::new();
    assert_eq!(
        s.handle(ServiceEvent::Ensure(false, DeviceCoreType::Fido)),
        Reaction::Core(CoreAction::ConnectDeviceCore(true))
    );
    assert_eq!(s.active_view(), Views::FidoOnly);
    assert_eq!(s.handle(ServiceEvent::Ensure(true, DeviceCoreType::Fido)), Reaction::Core(CoreAction::Nothing));
    assert_eq!(s.handle(ServiceEvent::Switch(DeviceCoreType::Debug)), Reaction::Core(CoreAction::ConnectDeviceCore(false)));
    assert_eq!(s.handle(ServiceEvent::Listen(5, 1)), Reaction::Listen(ListenOutcome::Parked));
    assert_eq!(s.handle(ServiceEvent::Listen(6, 2)), Reaction::Listen(ListenOutcome::Denied));
    assert_eq!(
        s.handle(ServiceEvent::Send(5)),
        Reaction::Send(SendOutcome { code: U2fCode::TxAck, interface: Some(Views::FidoOnly) })
    );
    assert_eq!(
        s.handle(ServiceEvent::Send(6)),
        Reaction::Send(SendOutcome { code: U2fCode::Denied, interface: None })
    );
    assert_eq!(
        s.handle(ServiceEvent::Pump(None, Some(frame(7)), false)),
        Reaction::Pump(PumpOutcome { answered: Some((1, frame(7))), hung_up: None })
    );
    assert_eq!(s.handle(ServiceEvent::Listen(5, 3)), Reaction::Listen(ListenOutcome::Parked));
    assert_eq!(
        s.handle(ServiceEvent::Pump(None, None, true)),
        Reaction::Pump(PumpOutcome { answered: None, hung_up: Some(3) })
    );
    assert_eq!(
        s.handle(ServiceEvent::StatusRead(true)),
        Reaction::Status(LockStatus { locked: 1, force_update: 1 })
    );
    assert_eq!(
        s.handle(ServiceEvent::StatusRead(false)),
        Reaction::Status(LockStatus { locked: 0, force_update: 0 })
    );
    assert_eq!(
        s.handle(ServiceEvent::SuspendResume(42)),
        Reaction::Resume(vec![
            ResumeStep::PrepareSuspend,
            ResumeStep::WaitForResume(42),
            ResumeStep::Resume1,
            ResumeStep::ForceReset(Views::FidoOnly),
            ResumeStep::Resume2,
        ])
    );
    assert_eq!(
        s.handle(ServiceEvent::StatusRead(false)),
        Reaction::Status(LockStatus { locked: 0, force_update: 1 })
    );
    assert_eq!(s.fido_owner(), Some(5));
}

#[test]
fn owner_survives_switches_suspends_and_bus_events() {
    let mut s = UsbService::new();
    s.handle(ServiceEvent::Send(11));
    s.handle(ServiceEvent::Switch(DeviceCoreType::Fido));
    s.handle(ServiceEvent::SuspendResume(1));
    s.handle(ServiceEvent::Pump(Some(1), Some(frame(1)), false));
    s.handle(ServiceEvent::Pump(None, None, true));
    s.handle(ServiceEvent::Ensure(true, DeviceCoreType::FidoKbd));
    assert_eq!(s.fido_owner(), Some(11));
    assert_eq!(s.handle(ServiceEvent::Listen(12, 1)), Reaction::Listen(ListenOutcome::Denied));
    assert_eq!(s.handle(ServiceEvent::Listen(11, 2)), Reaction::Listen(ListenOutcome::Delivered(frame(1))));
}
