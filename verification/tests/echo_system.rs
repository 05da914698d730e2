use serial_echo::system::EchoSystem;
use serial_echo::transfer::DmaChannel;
use serial_echo::transfer::RxHalf;
use serial_echo::transfer::TxHalf;
use serial_echo::BUF_SIZE;
use serial_echo::QUEUE_CAPACITY;

fn filled(fill: u8) -> Vec<u8> {
    let mut v = Vec::new();
    for _ in 0..BUF_SIZE {
        v.push(fill);
    }
    v
}

fn fresh_system() -> EchoSystem {
    EchoSystem::new(
        filled(0),
        DmaChannel { id: 4 },
        TxHalf {},
        filled(0),
        DmaChannel { id: 5 },
        RxHalf {},
    )
}

#[test]
fn single_payload_echoed_with_matching_logs() {
    // Buffer size 12; one payload received while the dispatcher is idle.
    let mut s = fresh_system();
    let payload: Vec<u8> = (1..=BUF_SIZE as u8).collect();
    assert_eq!(payload.len(), 12);

    s.on_rx(&payload);
    assert!(s.dispatch_next());
    assert!(s.is_transmitting());
    s.on_tx();

    assert_eq!(s.wire, vec![payload.clone()]);
    assert_eq!(s.received_log.len(), 1);
    assert_eq!(s.sent_log.len(), 1);
    assert_eq!(s.received_log[0], payload);
    assert_eq!(s.sent_log[0], payload);
    assert!(!s.is_transmitting());
}

#[test]
fn back_to_back_payloads_transmitted_in_order() {
    // B arrives while A is still being transmitted; the second transmission
    // starts only once the first has been retired, and the wire order is
    // A then B.
    let mut s = fresh_system();
    let a = filled(0xaa);
    let b = filled(0xbb);

    s.on_rx(&a);
    assert!(s.dispatch_next());
    assert!(s.is_transmitting());
    assert_eq!(s.wire.len(), 0);

    s.on_rx(&b);
    assert!(s.dispatch_next());
    // Dispatching B had to finish A's transfer first.
    assert_eq!(s.wire, vec![a.clone()]);
    assert!(s.is_transmitting());

    s.on_tx();
    assert_eq!(s.wire, vec![a, b]);
    assert!(!s.is_transmitting());
}

#[test]
fn fifo_order_within_capacity() {
    let mut s = fresh_system();
    let payloads: Vec<Vec<u8>> = (1..=QUEUE_CAPACITY as u8).map(filled).collect();
    for p in &payloads {
        s.on_rx(p);
    }
    while s.dispatch_next() {
        s.on_tx();
    }
    assert_eq!(s.wire, payloads);
}

#[test]
fn overflow_drops_fifth_and_later_payloads() {
    // Six completions before any is drained: the queue keeps the first four,
    // which are still transmitted intact and in order.
    let mut s = fresh_system();
    for fill in 1..=6u8 {
        s.on_rx(&filled(fill));
    }
    assert_eq!(s.pending.len(), QUEUE_CAPACITY);
    while s.dispatch_next() {
        s.on_tx();
    }
    let kept: Vec<Vec<u8>> = (1..=QUEUE_CAPACITY as u8).map(filled).collect();
    assert_eq!(s.wire, kept);
    assert_eq!(s.pending.len(), 0);
}

#[test]
fn idle_reuse_leaves_no_residue() {
    // The transmit buffer is reused after a completion; a later request with
    // the same input reproduces identical transmitted bytes, with no residual
    // bytes from the payload sent in between.
    let mut s = fresh_system();
    let p = filled(0x11);
    let other = filled(0xff);

    s.on_rx(&p);
    assert!(s.dispatch_next());
    s.on_tx();

    s.on_rx(&other);
    assert!(s.dispatch_next());
    s.on_tx();

    s.on_rx(&p);
    assert!(s.dispatch_next());
    s.on_tx();

    assert_eq!(s.wire, vec![p.clone(), other, p.clone()]);
    assert_eq!(s.wire[0], s.wire[2]);
}

#[test]
fn dispatch_on_empty_queue_does_nothing() {
    let mut s = fresh_system();
    assert!(!s.dispatch_next());
    assert_eq!(s.wire.len(), 0);
    assert_eq!(s.received_log.len(), 0);
    assert!(!s.is_transmitting());
}

#[test]
fn receive_never_blocks_on_full_queue() {
    // Completions keep being handled and re-armed even while the queue stays
    // full; the extra payloads are simply dropped.
    let mut s = fresh_system();
    for fill in 1..=20u8 {
        s.on_rx(&filled(fill));
        assert!(s.pending.len() <= QUEUE_CAPACITY);
    }
    assert_eq!(s.pending.len(), QUEUE_CAPACITY);
}
