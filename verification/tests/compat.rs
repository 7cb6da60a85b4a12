use usb_device_xous::compat::{
    compatibility_reply, degraded_reply, is_compatible, minimum_version, startup, DegradedReply,
    RequestKind, Startup, Version,
};

fn version(maj: u16, min: u16, rev: u16, extra: u16) -> Version {
    Version { maj, min, rev, extra, commit: None }
}

#[test]
fn minimum_is_0_9_8_20() {
    assert_eq!(minimum_version(), version(0, 9, 8, 20));
}

#[test]
fn minimum_itself_is_compatible() {
    assert!(is_compatible(&version(0, 9, 8, 20)));
    assert_eq!(startup(&version(0, 9, 8, 20)), Startup::Serve);
}

#[test]
fn each_number_orders_in_turn() {
    assert!(!is_compatible(&version(0, 9, 8, 19)));
    assert!(!is_compatible(&version(0, 9, 7, 500)));
    assert!(!is_compatible(&version(0, 8, 99, 500)));
    assert!(is_compatible(&version(0, 9, 8, 21)));
    assert!(is_compatible(&version(0, 9, 9, 0)));
    assert!(is_compatible(&version(0, 10, 0, 0)));
    assert!(is_compatible(&version(1, 0, 0, 0)));
}

#[test]
fn commit_does_not_order() {
    let with_commit = Version { maj: 0, min: 9, rev: 8, extra: 20, commit: Some(0xabcd1234) };
    assert!(is_compatible(&with_commit));
    let old_with_commit = Version { maj: 0, min: 9, rev: 8, extra: 19, commit: Some(0xffff_ffff) };
    assert!(!is_compatible(&old_with_commit));
}

#[test]
fn old_hardware_starts_degraded_and_tells_the_user() {
    assert_eq!(startup(&version(0, 9, 8, 19)), Startup::Degraded { notify: true });
    assert_eq!(startup(&version(0, 1, 0, 0)), Startup::Degraded { notify: true });
}

#[test]
fn hosted_build_starts_degraded_in_silence() {
    assert_eq!(startup(&version(0, 0, 0, 0)), Startup::Degraded { notify: false });
}

#[test]
fn degraded_holds_listeners_and_quits() {
    for blocking in [false, true] {
        assert_eq!(degraded_reply(Some(RequestKind::U2fRxDeferred), blocking), DegradedReply::Hold);
        assert_eq!(degraded_reply(Some(RequestKind::Quit), blocking), DegradedReply::Quit);
    }
}

#[test]
fn degraded_status_query_reads_unlocked_and_redraw() {
    assert_eq!(degraded_reply(Some(RequestKind::DebugUsbOp), true), DegradedReply::Scalar2(0, 1));
    assert_eq!(degraded_reply(Some(RequestKind::DebugUsbOp), false), DegradedReply::Ignore);
}

#[test]
fn degraded_answers_every_other_request_with_zero() {
    let kinds = [
        RequestKind::SuspendResume,
        RequestKind::IsSocCompatible,
        RequestKind::U2fTx,
        RequestKind::UsbIrqHandler,
        RequestKind::SwitchCores,
        RequestKind::EnsureCore,
        RequestKind::WhichCore,
        RequestKind::RestrictDebugAccess,
        RequestKind::IsRestricted,
        RequestKind::LinkStatus,
        RequestKind::SendKeyCode,
        RequestKind::SendString,
        RequestKind::GetLedState,
    ];
    for kind in kinds {
        assert_eq!(degraded_reply(Some(kind), true), DegradedReply::Scalar(0));
        assert_eq!(degraded_reply(Some(kind), false), DegradedReply::Ignore);
    }
    assert_eq!(degraded_reply(None, true), DegradedReply::Scalar(0));
    assert_eq!(degraded_reply(None, false), DegradedReply::Ignore);
}

#[test]
fn compatibility_query_answers() {
    assert_eq!(compatibility_reply(Startup::Serve), 1);
    assert_eq!(compatibility_reply(Startup::Degraded { notify: true }), 0);
    assert_eq!(compatibility_reply(Startup::Degraded { notify: false }), 0);
}
