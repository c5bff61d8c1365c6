//! The intent channel: a bounded FIFO hand-off of trade signals from the
//! detector to the position manager. A full queue refuses the signal and
//! hands it back — nothing is ever dropped; the producer holds on to the
//! signal and applies backpressure by retrying. A closed queue still drains
//! what is in flight before the consumer stops.

use vstd::prelude::*;
use crate::event::TradeSignal;

verus! {

/// What the consumer sees on a receive attempt.
pub enum RecvOutcome {
    /// The oldest queued intent, in FIFO order.
    Received(TradeSignal),
    /// Nothing queued yet; the consumer should wait and retry.
    Empty,
    /// The queue is closed and fully drained; the consumer loop terminates.
    Disconnected,
}

/// A bounded FIFO queue of trade intents.
pub struct IntentQueue {
    pub buf: Vec<TradeSignal>,
    pub capacity: usize,
    pub closed: bool,
}

impl IntentQueue {
    /// Well-formedness: a positive bound that the contents never exceed.
    pub open spec fn wf(&self) -> bool {
        &&& 1 <= self.capacity
        &&& self.buf@.len() <= self.capacity
    }

    pub open spec fn contents(&self) -> Seq<TradeSignal> {
        self.buf@
    }

    pub open spec fn is_full(&self) -> bool {
        self.buf@.len() == self.capacity
    }

    pub fn new(capacity: usize) -> (r: IntentQueue)
        requires
            1 <= capacity,
        ensures
            r.wf(),
            r.capacity == capacity,
            r.contents() == Seq::<TradeSignal>::empty(),
            !r.closed,
    {
        let r = IntentQueue { buf: Vec::new(), capacity, closed: false };
        proof {
            assert(r.contents() =~= Seq::<TradeSignal>::empty());
        }
        r
    }

    pub fn len(&self) -> (r: usize)
        ensures
            r == self.contents().len(),
    {
        self.buf.len()
    }

    /// Enqueue a signal. A signal is accepted exactly when the queue is
    /// open and below capacity; otherwise the very signal comes back in the
    /// error and the queue is unchanged — a detected signal is never
    /// silently discarded.
    pub fn try_send(&mut self, signal: TradeSignal) -> (r: Result<(), TradeSignal>)
        requires
            old(self).wf(),
        ensures
            final(self).wf(),
            final(self).capacity == old(self).capacity,
            final(self).closed == old(self).closed,
            r is Ok <==> (!old(self).closed && !old(self).is_full()),
            r is Ok ==> final(self).contents() == old(self).contents().push(signal),
            r matches Err(back) ==> back == signal && final(self).contents() == old(
                self,
            ).contents(),
    {
        if self.closed || self.buf.len() == self.capacity {
            Err(signal)
        } else {
            self.buf.push(signal);
            Ok(())
        }
    }

    /// Dequeue the oldest intent. Signals come out in the order they were
    /// accepted; a closed queue reports `Disconnected` only once it is
    /// drained.
    pub fn try_recv(&mut self) -> (r: RecvOutcome)
        requires
            old(self).wf(),
        ensures
            final(self).wf(),
            final(self).capacity == old(self).capacity,
            final(self).closed == old(self).closed,
            old(self).contents().len() > 0 ==> (r matches RecvOutcome::Received(sig)
                && sig == old(self).contents()[0] && final(self).contents() == old(
                self,
            ).contents().drop_first()),
            old(self).contents().len() == 0 ==> final(self).contents() == old(self).contents()
                && (r matches RecvOutcome::Disconnected <==> old(self).closed) && (
            r matches RecvOutcome::Empty <==> !old(self).closed),
    {
        if self.buf.len() > 0 {
            let sig = self.buf.remove(0);
            RecvOutcome::Received(sig)
        } else if self.closed {
            RecvOutcome::Disconnected
        } else {
            RecvOutcome::Empty
        }
    }

    /// Stop accepting new intents; what is already queued still drains.
    pub fn close(&mut self)
        requires
            old(self).wf(),
        ensures
            final(self).wf(),
            final(self).capacity == old(self).capacity,
            final(self).contents() == old(self).contents(),
            final(self).closed,
    {
        self.closed = true;
    }
}

/// Backpressure: an open, full queue is never empty, so one receive frees
/// exactly one slot; together with `try_send`'s accept-iff-below-capacity
/// clause, a blocked producer's retry goes through exactly once the
/// consumer has taken an intent, and the held-back signal fills the freed
/// slot. The waiting itself is the caller's scheduling; nothing here can
/// drop a signal.
pub proof fn lemma_full_queue_unblocks_on_recv(q: IntentQueue)
    requires
        q.wf(),
        q.is_full(),
    ensures
        q.contents().len() > 0,
        q.contents().drop_first().len() < q.capacity,
{
}

} // verus!
