use remote_trait_object::multiplexer::Multiplexer;
use remote_trait_object::packet::Packet;
use remote_trait_object::PortError;

#[test]
fn slots_count_up_from_zero() {
    let mut mux = Multiplexer::new();
    assert_eq!(mux.next_slot(), 0);
    assert_eq!(mux.pending(), 0);
    assert!(mux.has_free_slot());
    let (first, _r1) = mux.install_waiter();
    let (second, _r2) = mux.install_waiter();
    let (third, _r3) = mux.install_waiter();
    assert_eq!((first, second, third), (0, 1, 2));
    assert_eq!(mux.next_slot(), 3);
    assert_eq!(mux.pending(), 3);
    assert!(mux.is_waiting(1));
    assert!(!mux.is_waiting(3));
}

#[test]
fn a_response_reaches_the_call_that_waits_on_its_slot() {
    let mut mux = Multiplexer::new();
    let (a, receiver_a) = mux.install_waiter();
    let (b, receiver_b) = mux.install_waiter();
    let (c, receiver_c) = mux.install_waiter();
    assert_eq!(mux.resolve(b, Packet::new_response(b, b"for b")), Ok(true));
    assert_eq!(mux.resolve(c, Packet::new_response(c, b"for c")), Ok(true));
    assert_eq!(mux.resolve(a, Packet::new_response(a, b"for a")), Ok(true));
    assert_eq!(receiver_a.try_recv().unwrap().data(), b"for a");
    assert_eq!(receiver_b.try_recv().unwrap().data(), b"for b");
    assert_eq!(receiver_c.try_recv().unwrap().data(), b"for c");
    assert!(receiver_a.try_recv().is_err());
    assert_eq!(mux.pending(), 0);
    assert_eq!(mux.next_slot(), 3);
}

#[test]
fn a_slot_is_resolved_once() {
    let mut mux = Multiplexer::new();
    let (slot, receiver) = mux.install_waiter();
    assert_eq!(mux.resolve(slot, Packet::new_response(slot, b"one")), Ok(true));
    assert_eq!(
        mux.resolve(slot, Packet::new_response(slot, b"two")),
        Err(PortError::UnknownSlotId)
    );
    assert_eq!(receiver.try_recv().unwrap().data(), b"one");
    assert!(receiver.try_recv().is_err());
}

#[test]
fn nobody_waits_on_a_slot_that_was_never_given_out() {
    let mut mux = Multiplexer::new();
    let (_slot, _receiver) = mux.install_waiter();
    assert_eq!(mux.resolve(5, Packet::new_response(5, &[])), Err(PortError::UnknownSlotId));
    assert_eq!(mux.pending(), 1);
    assert!(mux.take_waiter(5).is_none());
}

#[test]
fn a_caller_that_is_gone_does_not_get_its_response() {
    let mut mux = Multiplexer::new();
    let (slot, receiver) = mux.install_waiter();
    drop(receiver);
    assert_eq!(mux.resolve(slot, Packet::new_response(slot, &[])), Ok(false));
    assert_eq!(mux.pending(), 0);
}

#[test]
fn taking_a_waiter_out_forgets_the_slot() {
    let mut mux = Multiplexer::new();
    let (slot, receiver) = mux.install_waiter();
    let sender = mux.take_waiter(slot).unwrap();
    assert!(!mux.is_waiting(slot));
    assert!(mux.take_waiter(slot).is_none());
    sender.send(Packet::new_response(slot, b"late")).unwrap();
    assert_eq!(receiver.recv().unwrap().data(), b"late");
}

#[test]
fn cancelling_disconnects_every_waiting_call() {
    let mut mux = Multiplexer::new();
    let (_a, receiver_a) = mux.install_waiter();
    let (b, receiver_b) = mux.install_waiter();
    let (_c, receiver_c) = mux.install_waiter();
    mux.resolve(b, Packet::new_response(b, b"in time")).unwrap();
    assert_eq!(mux.cancel_all(), 2);
    assert_eq!(mux.pending(), 0);
    assert!(receiver_a.recv().is_err());
    assert!(receiver_c.recv().is_err());
    assert_eq!(receiver_b.recv().unwrap().data(), b"in time");
    assert_eq!(mux.cancel_all(), 0);
    let (next, _receiver) = mux.install_waiter();
    assert_eq!(next, 3);
}
