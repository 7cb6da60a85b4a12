use usb_device_xous::fido::{listen_code, FidoArbiter, ListenOutcome, U2fCode};

fn packet(tag: u8) -> [u8; 64] {
    let mut p = [0u8; 64];
    p[0] = tag;
    p[63] = tag;
    p
}

#[test]
fn new_arbiter_is_empty() {
    let a = FidoArbiter::new();
    assert_eq!(a.owner(), None);
    assert_eq!(a.pending(), None);
    assert_eq!(a.queued(), 0);
}

#[test]
fn first_listener_becomes_owner_and_is_parked() {
    let mut a = FidoArbiter::new();
    assert_eq!(a.register_listener(3, 10), ListenOutcome::Parked);
    assert_eq!(a.owner(), Some(3));
    assert_eq!(a.pending(), Some(10));
}

#[test]
fn first_sender_becomes_owner() {
    let mut a = FidoArbiter::new();
    assert_eq!(a.send(5), U2fCode::TxAck);
    assert_eq!(a.owner(), Some(5));
    assert_eq!(a.send(5), U2fCode::TxAck);
    assert_eq!(a.send(6), U2fCode::Denied);
    assert_eq!(a.owner(), Some(5));
}

#[test]
fn other_process_is_denied_whatever_the_interleaving() {
    let mut a = FidoArbiter::new();
    assert_eq!(a.register_listener(1, 100), ListenOutcome::Parked);
    assert_eq!(a.register_listener(2, 200), ListenOutcome::Denied);
    assert_eq!(a.send(2), U2fCode::Denied);
    assert_eq!(a.deliver_inbound(packet(1)), Some(100));
    assert_eq!(a.deliver_inbound(packet(2)), None);
    assert_eq!(a.register_listener(2, 201), ListenOutcome::Denied);
    assert_eq!(a.queued(), 1);
    assert_eq!(a.send(1), U2fCode::TxAck);
    assert_eq!(a.notify_link_lost(), None);
    assert_eq!(a.send(2), U2fCode::Denied);
    assert_eq!(a.register_listener(1, 101), ListenOutcome::Delivered(packet(2)));
    assert_eq!(a.register_listener(2, 202), ListenOutcome::Denied);
    assert_eq!(a.owner(), Some(1));
}

#[test]
fn denied_listener_leaves_the_parked_one() {
    let mut a = FidoArbiter::new();
    assert_eq!(a.register_listener(1, 100), ListenOutcome::Parked);
    assert_eq!(a.register_listener(2, 200), ListenOutcome::Denied);
    assert_eq!(a.pending(), Some(100));
}

#[test]
fn backlog_is_served_oldest_first() {
    let mut a = FidoArbiter::new();
    for tag in 1..=5u8 {
        assert_eq!(a.deliver_inbound(packet(tag)), None);
    }
    assert_eq!(a.queued(), 5);
    for tag in 1..=5u8 {
        assert_eq!(a.register_listener(9, 40 + tag as u64), ListenOutcome::Delivered(packet(tag)));
        assert_eq!(a.pending(), None);
    }
    assert_eq!(a.queued(), 0);
    assert_eq!(a.register_listener(9, 50), ListenOutcome::Parked);
}

#[test]
fn inbound_packet_answers_the_parked_listener() {
    let mut a = FidoArbiter::new();
    assert_eq!(a.register_listener(4, 77), ListenOutcome::Parked);
    assert_eq!(a.deliver_inbound(packet(8)), Some(77));
    assert_eq!(a.pending(), None);
    assert_eq!(a.queued(), 0);
    assert_eq!(a.deliver_inbound(packet(9)), None);
    assert_eq!(a.queued(), 1);
}

#[test]
fn second_listen_of_the_owner_is_a_conflict() {
    let mut a = FidoArbiter::new();
    assert_eq!(a.register_listener(4, 77), ListenOutcome::Parked);
    assert_eq!(a.register_listener(4, 78), ListenOutcome::Conflict);
    assert_eq!(a.pending(), Some(77));
    assert_eq!(a.deliver_inbound(packet(1)), Some(77));
}

#[test]
fn link_loss_hangs_up_once_and_keeps_the_backlog() {
    let mut a = FidoArbiter::new();
    assert_eq!(a.register_listener(4, 77), ListenOutcome::Parked);
    assert_eq!(a.notify_link_lost(), Some(77));
    assert_eq!(a.notify_link_lost(), None);
    assert_eq!(a.pending(), None);
    assert_eq!(a.deliver_inbound(packet(3)), None);
    assert_eq!(a.notify_link_lost(), None);
    assert_eq!(a.queued(), 1);
    assert_eq!(a.register_listener(4, 78), ListenOutcome::Delivered(packet(3)));
}

#[test]
fn listen_codes() {
    assert_eq!(listen_code(&ListenOutcome::Delivered(packet(1))), U2fCode::RxAck);
    assert_eq!(listen_code(&ListenOutcome::Denied), U2fCode::Denied);
    assert_eq!(listen_code(&ListenOutcome::Parked), U2fCode::RxWait);
    assert_eq!(listen_code(&ListenOutcome::Conflict), U2fCode::RxWait);
}
