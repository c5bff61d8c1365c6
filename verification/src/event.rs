//! The data carried through the pipeline: raw stream events, their parsed
//! payloads, and the trade signals the detector emits.

use vstd::prelude::*;

verus! {

/// The structured payload of a stream notification: the transaction
/// signature, the mint identifier of the asset the transaction touched, and
/// the program log lines.
#[derive(Debug, Clone)]
pub struct Payload {
    pub signature: String,
    pub mint: String,
    pub logs: Vec<String>,
}

/// The mathematical model of a payload: every string as a character sequence.
pub struct PayloadModel {
    pub signature: Seq<char>,
    pub mint: Seq<char>,
    pub logs: Seq<Seq<char>>,
}

impl View for Payload {
    type V = PayloadModel;

    open spec fn view(&self) -> PayloadModel {
        PayloadModel {
            signature: self.signature@,
            mint: self.mint@,
            logs: self.logs@.map_values(|s: String| s@),
        }
    }
}

/// A timestamped event received from the stream; discarded after
/// classification.
#[derive(Debug, Clone)]
pub struct RawEvent {
    /// Best-effort, stream-assigned sequence number.
    pub sequence: u64,
    /// Milliseconds since some fixed epoch, assigned on receipt.
    pub received_at: u64,
    pub payload: Payload,
}

/// The classified output of detection; consumed exactly once by the position
/// manager, never mutated.
#[derive(Debug, Clone)]
pub struct TradeSignal {
    pub mint_identifier: String,
    pub detected_at: u64,
    pub source_transaction_id: String,
}

} // verus!
