use serial_echo::governor::Governor;
use serial_echo::transfer::DmaChannel;
use serial_echo::transfer::RxHalf;
use serial_echo::transfer::RxTransferHandle;
use serial_echo::transfer::TxHalf;
use serial_echo::transfer::TxTransfer;
use serial_echo::transfer::TxTransferHandle;
use serial_echo::BUF_SIZE;

fn filled(fill: u8) -> Vec<u8> {
    let mut v = Vec::new();
    for _ in 0..BUF_SIZE {
        v.push(fill);
    }
    v
}

#[test]
fn governor_take_returns_what_was_put() {
    let mut g = Governor::new(TxTransfer::Idle(filled(3), DmaChannel { id: 4 }, TxHalf {}));
    assert!(!g.holds_running());
    match g.take() {
        TxTransfer::Idle(buf, channel, _) => {
            assert_eq!(buf, filled(3));
            assert_eq!(channel.id, 4);
            g.put(TxTransfer::Running(TxTransferHandle::start(buf, channel, TxHalf {})));
        },
        TxTransfer::Running(_) => panic!("the slot held an idle state"),
    }
    assert!(g.holds_running());
    match g.take() {
        TxTransfer::Running(transfer) => {
            let (buf, channel, tx) = transfer.wait();
            assert_eq!(buf, filled(3));
            g.put(TxTransfer::Idle(buf, channel, tx));
        },
        TxTransfer::Idle(_, _, _) => panic!("the slot held a running state"),
    }
    assert!(!g.holds_running());
}

#[test]
fn tx_wait_returns_the_payload_unchanged() {
    let payload = filled(0x5a);
    let t = TxTransferHandle::start(payload.clone(), DmaChannel { id: 4 }, TxHalf {});
    let (buf, channel, _) = t.wait();
    assert_eq!(buf, payload);
    assert_eq!(channel.id, 4);
}

#[test]
fn rx_complete_yields_the_received_bytes() {
    let t = RxTransferHandle::start(filled(0), DmaChannel { id: 5 }, RxHalf {});
    let received: Vec<u8> = (1..=BUF_SIZE as u8).collect();
    let (buf, channel, _) = t.complete(&received);
    assert_eq!(buf, received);
    assert_eq!(channel.id, 5);
}
