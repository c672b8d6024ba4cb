use puppet_viewer::error::ViewerError;
use puppet_viewer::render_loop::{AwaitStep, RenderLoop, POLL_INTERVAL_MS};
use puppet_viewer::slot::{Polled, SendError, TransferSlot};

#[test]
fn send_then_receive_returns_value_once() {
    let mut slot: TransferSlot<u32> = TransferSlot::new();
    assert!(slot.send(42).is_ok());
    assert_eq!(slot.try_receive(), Some(42));
    for _ in 0..5 {
        assert_eq!(slot.try_receive(), None);
    }
}

#[test]
fn send_after_receive_is_accepted_again() {
    let mut slot: TransferSlot<u32> = TransferSlot::new();
    assert!(slot.send(1).is_ok());
    assert_eq!(slot.try_receive(), Some(1));
    assert!(slot.send(2).is_ok());
    assert_eq!(slot.try_receive(), Some(2));
    assert_eq!(slot.try_receive(), None);
}

#[test]
fn second_send_is_refused_and_keeps_first() {
    let mut slot: TransferSlot<&str> = TransferSlot::new();
    assert_eq!(slot.send("first"), Ok(()));
    assert_eq!(slot.send("second"), Err(SendError::Occupied("second")));
    assert_eq!(slot.try_receive(), Some("first"));
    assert_eq!(slot.try_receive(), None);
}

#[test]
fn send_into_closed_slot_is_refused() {
    let mut slot: TransferSlot<u8> = TransferSlot::new();
    slot.close();
    assert!(slot.is_closed());
    assert_eq!(slot.send(3), Err(SendError::Closed(3)));
    assert!(slot.is_empty());
}

#[test]
fn poll_reports_empty_ready_and_closed() {
    let mut slot: TransferSlot<u8> = TransferSlot::new();
    assert_eq!(slot.poll(), Polled::Empty);
    slot.send(9).unwrap();
    slot.close();
    assert_eq!(slot.poll(), Polled::Ready(9));
    assert_eq!(slot.poll(), Polled::Closed);
}

#[test]
fn awaiting_retries_after_poll_interval_until_sent() {
    let mut lp = RenderLoop::new(640, 480);
    lp.start(Ok(()));
    let mut slot: TransferSlot<Result<u32, ViewerError>> = TransferSlot::new();
    // Reads at 0, 100, 200 ms; the value is sent at 150 ms and comes at 200 ms.
    let mut now: u64 = 0;
    let sent_at: u64 = 150;
    let received_at = loop {
        if now >= sent_at && slot.is_empty() && !slot.is_closed() {
            slot.send(Ok(77)).unwrap();
            slot.close();
        }
        match lp.await_model(&mut slot) {
            AwaitStep::Retry(ms) => {
                assert_eq!(ms, POLL_INTERVAL_MS);
                assert!(now < sent_at);
                now += ms;
            }
            AwaitStep::Start(m, _) => {
                assert_eq!(m, 77);
                break now;
            }
            other => panic!("unexpected step {:?}", other),
        }
    };
    assert_eq!(received_at, 200);
    assert!(received_at >= sent_at && received_at < sent_at + POLL_INTERVAL_MS);
}

#[test]
fn poll_interval_is_one_hundred_ms() {
    assert_eq!(POLL_INTERVAL_MS, 100);
}
