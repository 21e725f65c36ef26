//! The sink's batch policy: every record of a batch is attempted, whatever
//! became of the others, and the failures are counted, never propagated.
use vstd::prelude::*;

verus! {

/// Publishes one record; false when the attempt failed (a timeout, a broker
/// rejection, a record that could not be serialized).
pub trait RecordSink<T> {
    /// Every record this sink was asked to publish, in order. An implementation
    /// verified against `send` defines it; the empty default serves those built
    /// without verification.
    open spec fn attempts(&self) -> Seq<T> {
        Seq::empty()
    }

    fn send(&mut self, record: &T) -> (ok: bool)
        ensures
            final(self).attempts() == old(self).attempts().push(*record),
    ;
}

/// The number of failed attempts among `outcomes`.
pub open spec fn failures(outcomes: Seq<bool>) -> nat
    decreases outcomes.len(),
{
    if outcomes.len() == 0 {
        0
    } else {
        failures(outcomes.drop_last()) + if outcomes.last() {
            0nat
        } else {
            1nat
        }
    }
}

proof fn lemma_failures_bound(outcomes: Seq<bool>)
    ensures
        failures(outcomes) <= outcomes.len(),
    decreases outcomes.len(),
{
    if outcomes.len() > 0 {
        lemma_failures_bound(outcomes.drop_last());
    }
}

/// What became of one batch: one outcome per record, in batch order.
#[derive(Debug)]
pub struct BatchReport {
    pub outcomes: Vec<bool>,
    pub failed: usize,
}

/// Counts the failed attempts among `outcomes`.
pub fn count_failures(outcomes: &Vec<bool>) -> (r: usize)
    ensures
        r == failures(outcomes@),
{
    let mut n: usize = 0;
    let mut i: usize = 0;
    while i < outcomes.len()
        invariant
            i <= outcomes@.len(),
            n == failures(outcomes@.subrange(0, i as int)),
        decreases outcomes@.len() - i,
    {
        proof {
            assert(outcomes@.subrange(0, i as int + 1).drop_last() =~= outcomes@.subrange(
                0,
                i as int,
            ));
            lemma_failures_bound(outcomes@.subrange(0, i as int));
        }
        if !outcomes[i] {
            n = n + 1;
        }
        i = i + 1;
    }
    proof {
        assert(outcomes@.subrange(0, i as int) =~= outcomes@);
    }
    n
}

/// Attempts every record of `batch` on `sink`, in order, one attempt each; a
/// failure is recorded and the next record is attempted all the same.
pub fn publish_batch<T, S: RecordSink<T>>(sink: &mut S, batch: &Vec<T>) -> (r: BatchReport)
    ensures
        final(sink).attempts() == old(sink).attempts() + batch@,
        r.outcomes@.len() == batch@.len(),
        r.failed == failures(r.outcomes@),
        r.failed <= batch@.len(),
{
    let mut outcomes: Vec<bool> = Vec::new();
    let mut i: usize = 0;
    while i < batch.len()
        invariant
            i <= batch@.len(),
            outcomes@.len() == i,
            sink.attempts() == old(sink).attempts() + batch@.subrange(0, i as int),
        decreases batch@.len() - i,
    {
        let ok = sink.send(&batch[i]);
        proof {
            assert(batch@.subrange(0, i as int + 1) =~= batch@.subrange(0, i as int).push(
                batch@[i as int],
            ));
        }
        outcomes.push(ok);
        i = i + 1;
    }
    proof {
        assert(batch@.subrange(0, i as int) =~= batch@);
    }
    let failed = count_failures(&outcomes);
    proof {
        lemma_failures_bound(outcomes@);
    }
    BatchReport { outcomes, failed }
}

} // verus!
