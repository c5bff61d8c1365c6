use coconut_bot::detector::SignalDetector;
use coconut_bot::event::{Payload, RawEvent};

const PROGRAM: &str = "6EF8rrecthR5Dkzon8Nwu78hRvfCKubJ14M5uBEwF6P";

fn detector() -> SignalDetector {
    SignalDetector::new(PROGRAM.to_string(), "MintTo".to_string())
}

fn event(mint: &str, sig: &str, logs: &[&str], at: u64) -> RawEvent {
    RawEvent {
        sequence: 0,
        received_at: at,
        payload: Payload {
            signature: sig.to_string(),
            mint: mint.to_string(),
            logs: logs.iter().map(|s| s.to_string()).collect(),
        },
    }
}

fn signal_log() -> String {
    format!("Program {PROGRAM} log: Instruction: MintTo")
}

#[test]
fn emits_signal_on_program_and_marker() {
    let mut det = detector();
    let log = signal_log();
    let ev = event("M1", "sig1", &[log.as_str()], 7);
    let sig = det.classify(&ev).expect("program + marker must emit");
    assert_eq!(sig.mint_identifier, "M1");
    assert_eq!(sig.source_transaction_id, "sig1");
    assert_eq!(sig.detected_at, 7);
}

#[test]
fn no_signal_without_marker() {
    let mut det = detector();
    let log = format!("Program {PROGRAM} log: Instruction: Transfer");
    let ev = event("M1", "sig1", &[log.as_str()], 1);
    assert!(det.classify(&ev).is_none());
}

#[test]
fn no_signal_without_program_identifier() {
    // The marker alone is not enough: the entry must also match the target
    // program identifier.
    let mut det = detector();
    let ev = event("M1", "sig1", &["Program log: Instruction: MintTo"], 1);
    assert!(det.classify(&ev).is_none());
}

#[test]
fn program_and_marker_must_share_an_entry() {
    // One entry names the program, another carries the marker: no signal.
    let mut det = detector();
    let program_only = format!("Program {PROGRAM} invoke [1]");
    let ev = event("M1", "sig1", &[program_only.as_str(), "MintTo elsewhere"], 1);
    assert!(det.classify(&ev).is_none());
}

#[test]
fn marker_found_in_later_log_line() {
    let mut det = detector();
    let log = signal_log();
    let ev = event("M2", "sig2", &["noise", log.as_str()], 2);
    assert!(det.classify(&ev).is_some());
}

#[test]
fn empty_logs_are_noise() {
    let mut det = detector();
    let ev = event("M1", "sig1", &[], 1);
    assert!(det.classify(&ev).is_none());
}

#[test]
fn dedup_one_signal_per_mint() {
    let mut det = detector();
    let log = signal_log();
    let first = event("M1", "sig1", &[log.as_str()], 1);
    let second = event("M1", "sig9", &[log.as_str()], 9);
    assert!(det.classify(&first).is_some());
    assert!(det.classify(&second).is_none());
    // A different mint is still fresh.
    let other = event("M2", "sig3", &[log.as_str()], 3);
    assert!(det.classify(&other).is_some());
}

#[test]
fn redelivered_event_is_idempotent() {
    let mut det = detector();
    let log = signal_log();
    let ev = event("M1", "sig1", &[log.as_str()], 1);
    assert!(det.classify(&ev).is_some());
    // At-least-once delivery: the identical event again yields nothing.
    assert!(det.classify(&ev).is_none());
}
