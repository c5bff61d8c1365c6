//! The trusted boundary to serde_json, and the extraction of a
//! notification payload from the raw text of a stream message.
//!
//! The stream delivers JSON-RPC notifications; the fields the pipeline
//! reads sit under `params.result.value`: the transaction `signature`, the
//! `mint` identifier of the touched asset, and the program `logs` (an array
//! of strings). A message without this shape is malformed and skipped — it
//! never aborts the stream.

use vstd::prelude::*;
use crate::event::{Payload, PayloadModel};

verus! {

/// The payload a notification text carries, or `None` when the text is not
/// JSON or lacks the shape above. The name stands for what the serde_json
/// extraction in `extract_raw` computes; it depends on the characters of
/// the text alone.
pub uninterp spec fn notif_payload(s: Seq<char>) -> Option<PayloadModel>;

/// Relies on serde_json: `from_str` parses the text (an error, never a
/// panic, on any input), `Value::get`/`as_str` walk the object shape, and
/// `from_value::<Vec<String>>` reads the log array. The result is a
/// function of the text alone, named `notif_payload`.
#[verifier::external_body]
pub(crate) fn extract_raw(text: &str) -> (r: Option<Payload>)
    ensures
        r is Some <==> notif_payload(text@) is Some,
        r matches Some(p) ==> Some(p@) == notif_payload(text@),
{
    let v: serde_json::Value = serde_json::from_str(text).ok()?;
    let value = v.get("params")?.get("result")?.get("value")?;
    let signature = value.get("signature")?.as_str()?.to_owned();
    let mint = value.get("mint")?.as_str()?.to_owned();
    let logs: Vec<String> = serde_json::from_value(value.get("logs")?.clone()).ok()?;
    Some(Payload { signature, mint, logs })
}

/// Extract the payload of a stream notification from its raw text:
/// `params.result.value.{signature, mint, logs}`. `None` exactly when the
/// text does not carry that shape.
pub fn extract_payload(text: &str) -> (r: Option<Payload>)
    ensures
        r is Some <==> notif_payload(text@) is Some,
        r matches Some(p) ==> Some(p@) == notif_payload(text@),
{
    extract_raw(text)
}

} // verus!
