use serial_echo::queue::EchoQueue;
use serial_echo::BUF_SIZE;
use serial_echo::QUEUE_CAPACITY;

fn filled(fill: u8) -> Vec<u8> {
    let mut v = Vec::new();
    for _ in 0..BUF_SIZE {
        v.push(fill);
    }
    v
}

#[test]
fn queue_is_fifo() {
    let mut q = EchoQueue::new();
    assert_eq!(q.len(), 0);
    assert!(q.submit(filled(1)));
    assert!(q.submit(filled(2)));
    assert!(q.submit(filled(3)));
    assert_eq!(q.len(), 3);
    assert_eq!(q.next(), Some(filled(1)));
    assert_eq!(q.next(), Some(filled(2)));
    assert_eq!(q.next(), Some(filled(3)));
    assert_eq!(q.next(), None);
}

#[test]
fn queue_drops_when_full() {
    let mut q = EchoQueue::new();
    for fill in 1..=QUEUE_CAPACITY as u8 {
        assert!(q.submit(filled(fill)));
    }
    assert_eq!(q.len(), QUEUE_CAPACITY);
    // A submission on a full queue is dropped silently.
    assert!(!q.submit(filled(0x99)));
    assert_eq!(q.len(), QUEUE_CAPACITY);
    // Draining one frees one slot again.
    assert_eq!(q.next(), Some(filled(1)));
    assert!(q.submit(filled(0x99)));
    assert_eq!(q.next(), Some(filled(2)));
    assert_eq!(q.next(), Some(filled(3)));
    assert_eq!(q.next(), Some(filled(4)));
    assert_eq!(q.next(), Some(filled(0x99)));
    assert_eq!(q.next(), None);
}

#[test]
fn next_on_empty_queue_is_none() {
    let mut q = EchoQueue::new();
    assert_eq!(q.next(), None);
    assert_eq!(q.len(), 0);
}
