//! One step of the ingestion task: raw message text in, at most one trade
//! intent handed to the channel. Malformed messages are skipped without
//! touching any state — a bad message never aborts the stream.

use vstd::prelude::*;
use crate::channel::IntentQueue;
use crate::detector::{step_emits, step_seen, SignalDetector};
use crate::event::{PayloadModel, RawEvent, TradeSignal};
use crate::parse::{extract_payload, notif_payload};

verus! {

/// What one raw message amounted to.
pub enum IngestOutcome {
    /// Not JSON, or not the notification shape: logged and skipped.
    Malformed,
    /// Parsed, but no signal: no log entry with the program identifier and
    /// the marker, or the mint was seen before.
    Noise,
    /// A fresh signal, accepted by the intent channel.
    Enqueued,
    /// A fresh signal, but the channel is full or closed: the signal comes
    /// back so the producer can block and retry — it is never dropped.
    ChannelFull(TradeSignal),
}

/// `sig` is the signal that classifying payload `p`, received at
/// `received_at`, emits.
pub open spec fn signal_of(sig: TradeSignal, p: PayloadModel, received_at: u64) -> bool {
    &&& sig.mint_identifier@ == p.mint
    &&& sig.source_transaction_id@ == p.signature
    &&& sig.detected_at == received_at
}

/// Classify one raw message and hand a fresh signal to the intent channel.
/// The outcome is decided by the text and the prior state: `Malformed`
/// exactly on texts without the notification shape (nothing touched),
/// `Noise` exactly when the named payload emits nothing, and otherwise the
/// emitted signal — with the fields of the named payload, never fabricated
/// — is enqueued when the channel has room and handed back when it has
/// none.
pub fn ingest_text(
    det: &mut SignalDetector,
    q: &mut IntentQueue,
    text: &str,
    sequence: u64,
    received_at: u64,
) -> (r: IngestOutcome)
    requires
        old(q).wf(),
    ensures
        final(q).wf(),
        final(q).capacity == old(q).capacity,
        final(q).closed == old(q).closed,
        final(det).program_id@ == old(det).program_id@,
        final(det).marker@ == old(det).marker@,
        r is Malformed <==> notif_payload(text@) is None,
        r is Malformed ==> *final(det) == *old(det) && final(q).contents() == old(q).contents(),
        notif_payload(text@) matches Some(p) ==> {
            &&& final(det).seen_mints() == step_seen(
                old(det).seen_mints(),
                old(det).program_id@,
                old(det).marker@,
                p,
            )
            &&& (r is Noise <==> !step_emits(
                old(det).seen_mints(),
                old(det).program_id@,
                old(det).marker@,
                p,
            ))
            &&& (r is Noise ==> final(q).contents() == old(q).contents())
            &&& (r is Enqueued ==> exists|sig: TradeSignal|
                final(q).contents() == #[trigger] old(q).contents().push(sig) && signal_of(
                    sig,
                    p,
                    received_at,
                ))
            &&& (r is Enqueued ==> !old(q).closed && old(q).contents().len() < old(q).capacity)
            &&& (r matches IngestOutcome::ChannelFull(sig) ==> signal_of(sig, p, received_at)
                && final(q).contents() == old(q).contents() && (old(q).closed || old(
                q,
            ).contents().len() == old(q).capacity))
        },
{
    let payload = match extract_payload(text) {
        Some(p) => p,
        None => {
            return IngestOutcome::Malformed;
        },
    };
    let event = RawEvent { sequence, received_at, payload };
    let sig = match det.classify(&event) {
        Some(s) => s,
        None => {
            return IngestOutcome::Noise;
        },
    };
    match q.try_send(sig) {
        Ok(_) => IngestOutcome::Enqueued,
        Err(back) => IngestOutcome::ChannelFull(back),
    }
}

} // verus!
