//! The signal detector: classifies each raw event as noise or a trade
//! signal, and deduplicates signals per mint for the life of the process.
//!
//! A payload is a signal candidate exactly when some log entry matches the
//! target program identifier and contains the configured
//! mint-initialization marker.

use vstd::prelude::*;
use crate::event::{PayloadModel, RawEvent, TradeSignal};
use crate::text::{contains_seq, str_contains};

verus! {

/// Some log entry matches the target program identifier (the identifier
/// occurs in the entry) and contains the marker.
pub open spec fn has_signal_entry(
    logs: Seq<Seq<char>>,
    program: Seq<char>,
    marker: Seq<char>,
) -> bool {
    exists|i: int|
        0 <= i < logs.len() && contains_seq(#[trigger] logs[i], program) && contains_seq(
            logs[i],
            marker,
        )
}

/// A payload is a signal candidate when one of its log entries matches the
/// target program identifier and contains the mint-initialization marker.
pub open spec fn is_signal(p: PayloadModel, program: Seq<char>, marker: Seq<char>) -> bool {
    has_signal_entry(p.logs, program, marker)
}

/// The detector emits a signal for a payload exactly when the payload is a
/// signal candidate and its mint has not produced a signal before.
pub open spec fn step_emits(
    seen: Seq<Seq<char>>,
    program: Seq<char>,
    marker: Seq<char>,
    p: PayloadModel,
) -> bool {
    is_signal(p, program, marker) && !seen.contains(p.mint)
}

/// The set of seen mints after classifying one payload: it grows by the
/// payload's mint exactly when a signal is emitted.
pub open spec fn step_seen(
    seen: Seq<Seq<char>>,
    program: Seq<char>,
    marker: Seq<char>,
    p: PayloadModel,
) -> Seq<Seq<char>> {
    if step_emits(seen, program, marker, p) {
        seen.push(p.mint)
    } else {
        seen
    }
}

/// Number of signals emitted for `mint` when the payloads in `events` are
/// classified in order, starting from the seen-set `seen`.
pub open spec fn emit_count(
    seen: Seq<Seq<char>>,
    program: Seq<char>,
    marker: Seq<char>,
    events: Seq<PayloadModel>,
    mint: Seq<char>,
) -> nat
    decreases events.len(),
{
    if events.len() == 0 {
        0
    } else {
        let here: nat = if step_emits(seen, program, marker, events[0]) && events[0].mint
            == mint {
            1
        } else {
            0
        };
        here + emit_count(
            step_seen(seen, program, marker, events[0]),
            program,
            marker,
            events.drop_first(),
            mint,
        )
    }
}

/// Once a mint is in the seen-set it stays there, and no further signal is
/// emitted for it.
proof fn lemma_seen_is_final(
    seen: Seq<Seq<char>>,
    program: Seq<char>,
    marker: Seq<char>,
    events: Seq<PayloadModel>,
    mint: Seq<char>,
)
    requires
        seen.contains(mint),
    ensures
        emit_count(seen, program, marker, events, mint) == 0,
    decreases events.len(),
{
    if events.len() > 0 {
        let seen2 = step_seen(seen, program, marker, events[0]);
        if step_emits(seen, program, marker, events[0]) {
            assert(seen2.contains(mint)) by {
                let i = choose|i: int| 0 <= i < seen.len() && seen[i] == mint;
                assert(seen2[i] == mint);
            }
        }
        lemma_seen_is_final(seen2, program, marker, events.drop_first(), mint);
    }
}

/// Dedup invariant: over any sequence of events, at most one signal is
/// emitted for a given mint; none at all if the mint was already seen.
pub proof fn lemma_at_most_one_signal_per_mint(
    seen: Seq<Seq<char>>,
    program: Seq<char>,
    marker: Seq<char>,
    events: Seq<PayloadModel>,
    mint: Seq<char>,
)
    ensures
        emit_count(seen, program, marker, events, mint) <= 1,
        seen.contains(mint) ==> emit_count(seen, program, marker, events, mint) == 0,
    decreases events.len(),
{
    if seen.contains(mint) {
        lemma_seen_is_final(seen, program, marker, events, mint);
    } else if events.len() > 0 {
        let e = events[0];
        let seen2 = step_seen(seen, program, marker, e);
        if step_emits(seen, program, marker, e) && e.mint == mint {
            assert(seen2 == seen.push(mint));
            assert(seen2[seen.len() as int] == mint);
            assert(seen2.contains(mint));
            lemma_seen_is_final(seen2, program, marker, events.drop_first(), mint);
        } else {
            lemma_at_most_one_signal_per_mint(seen2, program, marker, events.drop_first(), mint);
        }
    }
}

/// Idempotence under re-delivery: classifying the same payload a second
/// time, immediately after the first, never emits a second signal.
pub proof fn lemma_redelivery_emits_nothing(
    seen: Seq<Seq<char>>,
    program: Seq<char>,
    marker: Seq<char>,
    p: PayloadModel,
)
    ensures
        !step_emits(step_seen(seen, program, marker, p), program, marker, p),
{
    if step_emits(seen, program, marker, p) {
        let seen2 = seen.push(p.mint);
        assert(seen2[seen.len() as int] == p.mint);
        assert(seen2.contains(p.mint));
    }
}

/// Process-lifetime signal detector state: the target program identifier,
/// the marker to look for, and the mints that have already produced a
/// signal.
pub struct SignalDetector {
    pub program_id: String,
    pub marker: String,
    pub seen: Vec<String>,
}

impl SignalDetector {
    /// The seen mints as a sequence of character sequences.
    pub open spec fn seen_mints(&self) -> Seq<Seq<char>> {
        self.seen@.map_values(|s: String| s@)
    }

    pub fn new(program_id: String, marker: String) -> (r: SignalDetector)
        ensures
            r.program_id@ == program_id@,
            r.marker@ == marker@,
            r.seen_mints() == Seq::<Seq<char>>::empty(),
    {
        let r = SignalDetector { program_id, marker, seen: Vec::new() };
        proof {
            assert(r.seen_mints() =~= Seq::<Seq<char>>::empty());
        }
        r
    }

    /// Whether `mint` has already produced a signal.
    fn mint_seen(&self, mint: &String) -> (r: bool)
        ensures
            r == self.seen_mints().contains(mint@),
    {
        let n = self.seen.len();
        let mut i: usize = 0;
        while i < n
            invariant
                n == self.seen@.len(),
                i <= n,
                forall|j: int| 0 <= j < i ==> self.seen@[j]@ != mint@,
            decreases n - i,
        {
            if self.seen[i].eq(mint) {
                proof {
                    assert(self.seen_mints()[i as int] == mint@);
                }
                return true;
            }
            i += 1;
        }
        proof {
            assert(forall|j: int| 0 <= j < self.seen_mints().len()
                ==> self.seen_mints()[j] == self.seen@[j]@);
        }
        false
    }

    /// Whether some entry of `logs` matches the program identifier and
    /// contains the marker.
    fn any_signal_entry(&self, logs: &Vec<String>) -> (r: bool)
        ensures
            r == has_signal_entry(
                logs@.map_values(|s: String| s@),
                self.program_id@,
                self.marker@,
            ),
    {
        let n = logs.len();
        let mut i: usize = 0;
        while i < n
            invariant
                n == logs@.len(),
                i <= n,
                forall|j: int| 0 <= j < i
                    ==> !(contains_seq(#[trigger] logs@[j]@, self.program_id@) && contains_seq(
                    logs@[j]@,
                    self.marker@,
                )),
            decreases n - i,
        {
            if str_contains(logs[i].as_str(), self.program_id.as_str()) && str_contains(
                logs[i].as_str(),
                self.marker.as_str(),
            ) {
                proof {
                    assert(logs@.map_values(|s: String| s@)[i as int] == logs@[i as int]@);
                }
                return true;
            }
            i += 1;
        }
        proof {
            let mapped = logs@.map_values(|s: String| s@);
            assert(forall|j: int| 0 <= j < mapped.len() ==> #[trigger] mapped[j] == logs@[j]@);
            assert(!has_signal_entry(mapped, self.program_id@, self.marker@));
        }
        false
    }

    /// Classify one raw event. Emits a signal exactly when some log entry
    /// of the payload matches the target program identifier and contains
    /// the marker, and the payload's mint is new; in that case, and only
    /// then, the mint is recorded as seen.
    pub fn classify(&mut self, event: &RawEvent) -> (r: Option<TradeSignal>)
        ensures
            final(self).program_id@ == old(self).program_id@,
            final(self).marker@ == old(self).marker@,
            final(self).seen_mints() == step_seen(
                old(self).seen_mints(),
                old(self).program_id@,
                old(self).marker@,
                event.payload@,
            ),
            r is Some <==> step_emits(
                old(self).seen_mints(),
                old(self).program_id@,
                old(self).marker@,
                event.payload@,
            ),
            r matches Some(sig) ==> {
                &&& sig.mint_identifier@ == event.payload.mint@
                &&& sig.detected_at == event.received_at
                &&& sig.source_transaction_id@ == event.payload.signature@
            },
    {
        if self.any_signal_entry(&event.payload.logs) && !self.mint_seen(&event.payload.mint) {
            self.seen.push(event.payload.mint.clone());
            proof {
                assert(self.seen_mints() =~= old(self).seen_mints().push(event.payload.mint@));
            }
            Some(
                TradeSignal {
                    mint_identifier: event.payload.mint.clone(),
                    detected_at: event.received_at,
                    source_transaction_id: event.payload.signature.clone(),
                },
            )
        } else {
            None
        }
    }
}

} // verus!
