use coconut_bot::channel::{IntentQueue, RecvOutcome};
use coconut_bot::event::TradeSignal;

fn signal(mint: &str, at: u64) -> TradeSignal {
    TradeSignal {
        mint_identifier: mint.to_string(),
        detected_at: at,
        source_transaction_id: format!("tx-{mint}"),
    }
}

#[test]
fn fifo_order_is_kept() {
    let mut q = IntentQueue::new(3);
    q.try_send(signal("A", 1)).unwrap();
    q.try_send(signal("B", 2)).unwrap();
    q.try_send(signal("C", 3)).unwrap();
    match q.try_recv() {
        RecvOutcome::Received(s) => assert_eq!(s.mint_identifier, "A"),
        _ => panic!("expected an intent"),
    }
    match q.try_recv() {
        RecvOutcome::Received(s) => assert_eq!(s.mint_identifier, "B"),
        _ => panic!("expected an intent"),
    }
    match q.try_recv() {
        RecvOutcome::Received(s) => assert_eq!(s.mint_identifier, "C"),
        _ => panic!("expected an intent"),
    }
    assert!(matches!(q.try_recv(), RecvOutcome::Empty));
}

#[test]
fn full_queue_hands_signal_back() {
    // The consumer is paused: nothing is received while the producer fills
    // the queue to its bound.
    let mut q = IntentQueue::new(2);
    q.try_send(signal("A", 1)).unwrap();
    q.try_send(signal("B", 2)).unwrap();
    assert_eq!(q.len(), 2);
    // The enqueue does not go through and does not drop: the very signal
    // comes back, the queue is unchanged.
    let back = q.try_send(signal("C", 3)).unwrap_err();
    assert_eq!(back.mint_identifier, "C");
    assert_eq!(q.len(), 2);
    // The consumer resumes and makes room: the retried send now succeeds.
    assert!(matches!(q.try_recv(), RecvOutcome::Received(_)));
    q.try_send(back).unwrap();
    assert_eq!(q.len(), 2);
}

#[test]
fn closed_queue_drains_then_disconnects() {
    let mut q = IntentQueue::new(2);
    q.try_send(signal("A", 1)).unwrap();
    q.close();
    // No new intents after close.
    assert!(q.try_send(signal("B", 2)).is_err());
    // In-flight intents still drain.
    assert!(matches!(q.try_recv(), RecvOutcome::Received(_)));
    // Only then does the consumer see the end.
    assert!(matches!(q.try_recv(), RecvOutcome::Disconnected));
}

#[test]
fn empty_open_queue_reports_empty() {
    let mut q = IntentQueue::new(1);
    assert!(matches!(q.try_recv(), RecvOutcome::Empty));
}
