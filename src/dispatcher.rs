//! The dispatcher: a single loop that drains the queue into batches.
//!
//! The loop itself (waiting on the queue, the timer and the shutdown signal)
//! runs outside; every decision it takes is `Dispatcher::step`, from the current
//! state and the event that woke it up to the next state and the action to
//! perform. A batch is flushed when it reaches `batch_size` records, or once
//! `flush_interval_ms` has passed since its oldest record arrived, and the
//! remaining records are flushed once more on shutdown or when the queue closes.
use vstd::prelude::*;
use crate::config::DispatchConfig;

verus! {

/// What woke the dispatcher up.
#[derive(Debug)]
pub enum Event<T> {
    /// A record was dequeued.
    Arrived(T),
    /// The wait ran out with no record.
    Tick,
    /// The shutdown notification arrived.
    Shutdown,
    /// Every producer is gone and the queue is empty.
    Disconnected,
}

impl<T> Event<T> {
    /// The records this event brings into the dispatcher.
    pub open spec fn arrivals(&self) -> Seq<T> {
        match self {
            Event::Arrived(x) => seq![*x],
            _ => Seq::empty(),
        }
    }

    /// Whether this event ends collection.
    pub open spec fn ends(&self) -> bool {
        match self {
            Event::Shutdown | Event::Disconnected => true,
            _ => false,
        }
    }
}

/// What the dispatcher asks its driver to do next.
#[derive(Debug)]
pub enum Action<T> {
    /// Keep waiting for the next event.
    Wait,
    /// Publish this batch, then keep waiting.
    Flush(Vec<T>),
    /// Publish this last batch if it is not empty, then stop.
    Finish(Vec<T>),
}

impl<T> Action<T> {
    /// The records the driver is to publish.
    pub open spec fn batch(&self) -> Seq<T> {
        match self {
            Action::Flush(b) => b@,
            Action::Finish(b) => b@,
            Action::Wait => Seq::empty(),
        }
    }
}

/// The dispatcher's state: the records buffered since the last flush, and
/// when the oldest of them arrived.
pub struct Dispatcher<T> {
    batch_size: usize,
    flush_interval_ms: u64,
    buffer: Vec<T>,
    oldest_ms: u64,
    clock_ms: u64,
    done: bool,
    received: Ghost<Seq<T>>,
    flushed: Ghost<Seq<T>>,
}

impl<T> Dispatcher<T> {
    pub closed spec fn batch_size(&self) -> nat {
        self.batch_size as nat
    }

    pub closed spec fn interval(&self) -> nat {
        self.flush_interval_ms as nat
    }

    /// The buffered records, oldest first.
    pub closed spec fn pending(&self) -> Seq<T> {
        self.buffer@
    }

    /// When the oldest buffered record arrived (meaningful while one is buffered).
    pub closed spec fn oldest(&self) -> nat {
        self.oldest_ms as nat
    }

    /// The time of the latest event.
    pub closed spec fn clock(&self) -> nat {
        self.clock_ms as nat
    }

    /// Whether the dispatcher has terminated.
    pub closed spec fn is_done(&self) -> bool {
        self.done
    }

    /// Every record accepted so far, in the order of arrival.
    pub closed spec fn received(&self) -> Seq<T> {
        self.received@
    }

    /// Every record handed out for publishing so far, batch after batch.
    pub closed spec fn flushed(&self) -> Seq<T> {
        self.flushed@
    }

    /// The time by which the buffered records must have been flushed.
    pub open spec fn deadline(&self) -> nat {
        self.oldest() + self.interval()
    }

    /// When the oldest record is after one arrives at `now`.
    pub open spec fn start_at(&self, now: nat) -> nat {
        if self.pending().len() == 0 {
            now
        } else {
            self.oldest()
        }
    }

    /// How long the driver may wait at `now` before it must send a tick.
    pub open spec fn wait_spec(&self, now: nat) -> nat {
        if self.pending().len() == 0 {
            self.interval()
        } else if now >= self.deadline() {
            0
        } else {
            (self.deadline() - now) as nat
        }
    }

    pub closed spec fn wf(&self) -> bool {
        &&& self.batch_size > 0
        &&& self.buffer@.len() < self.batch_size
        &&& self.done ==> self.buffer@.len() == 0
        &&& self.received@ == self.flushed@ + self.buffer@
        &&& self.buffer@.len() > 0 ==> self.oldest_ms <= self.clock_ms
            && self.clock_ms < self.oldest_ms + self.flush_interval_ms
    }

    /// An empty dispatcher, collecting from time `now_ms` on.
    pub fn new(config: &DispatchConfig, now_ms: u64) -> (r: Self)
        requires
            config.batch_size > 0,
        ensures
            r.wf(),
            r.batch_size() == config.batch_size,
            r.interval() == config.flush_interval_ms,
            r.pending() == Seq::<T>::empty(),
            r.received() == Seq::<T>::empty(),
            r.flushed() == Seq::<T>::empty(),
            r.clock() == now_ms,
            !r.is_done(),
    {
        let r = Dispatcher {
            batch_size: config.batch_size,
            flush_interval_ms: config.flush_interval_ms,
            buffer: Vec::new(),
            oldest_ms: now_ms,
            clock_ms: now_ms,
            done: false,
            received: Ghost(Seq::empty()),
            flushed: Ghost(Seq::empty()),
        };
        proof {
            assert(r.received@ =~= r.flushed@ + r.buffer@);
        }
        r
    }

    /// Whether the dispatcher has terminated.
    pub fn done(&self) -> (r: bool)
        ensures
            r == self.is_done(),
    {
        self.done
    }

    /// The time of the latest event.
    pub fn clock_ms(&self) -> (r: u64)
        ensures
            r == self.clock(),
    {
        self.clock_ms
    }

    /// The number of buffered records.
    pub fn pending_len(&self) -> (r: usize)
        ensures
            r == self.pending().len(),
    {
        self.buffer.len()
    }

    /// Whether a flush is owed once `q` is what the buffer would hold at `now`,
    /// its oldest record having arrived at `start`.
    pub open spec fn flush_due(&self, q: Seq<T>, start: nat, now: nat) -> bool {
        q.len() == self.batch_size() || (q.len() > 0 && now >= start + self.interval())
    }

    /// Takes the decision for one event observed at time `now_ms`.
    ///
    /// A record is appended to the buffer; the buffer is flushed whole when it
    /// reaches `batch_size`, or when its oldest record has waited
    /// `flush_interval_ms`. A tick flushes a buffer that is due. Shutdown or a
    /// closed queue hands out what is buffered as the last batch and ends the
    /// dispatcher; once ended, every event is answered with an empty `Finish`
    /// and changes nothing.
    pub fn step(&mut self, event: Event<T>, now_ms: u64) -> (r: Action<T>)
        requires
            old(self).wf(),
            old(self).clock() <= now_ms,
        ensures
            final(self).wf(),
            final(self).pending().len() < final(self).batch_size(),
            final(self).batch_size() == old(self).batch_size(),
            final(self).interval() == old(self).interval(),
            final(self).flushed() == old(self).flushed() + r.batch(),
            // once ended, nothing changes
            old(self).is_done() ==> r is Finish && r.batch().len() == 0
                && final(self).is_done() && final(self).pending() == old(self).pending()
                && final(self).received() == old(self).received(),
            !old(self).is_done() ==> final(self).received() == old(self).received()
                + event.arrivals() && final(self).clock() == now_ms,
            // shutdown or a closed queue: exactly one last batch, of all that was buffered
            !old(self).is_done() && event.ends() ==> r is Finish
                && r.batch() == old(self).pending() && final(self).is_done(),
            r is Finish ==> r.batch().len() < old(self).batch_size(),
            // a record or a tick: flush all that is buffered when a flush is due
            !old(self).is_done() && !event.ends() ==> {
                let q = old(self).pending() + event.arrivals();
                let start = old(self).start_at(now_ms as nat);
                &&& !final(self).is_done()
                &&& old(self).flush_due(q, start, now_ms as nat) ==> r is Flush
                    && r.batch() == q && final(self).pending().len() == 0
                &&& !old(self).flush_due(q, start, now_ms as nat) ==> r is Wait
                    && final(self).pending() == q && (q.len() > 0 ==> final(self).oldest()
                    == start)
            },
            // every batch is full, or was due by time and holds 1 to batch_size records
            r is Flush ==> r.batch().len() == old(self).batch_size() || (1
                <= r.batch().len() <= old(self).batch_size() && now_ms >= old(self).start_at(now_ms as nat) + old(self).interval()),
    {
        if self.done {
            return Action::Finish(Vec::new());
        }
        self.clock_ms = now_ms;
        match event {
            Event::Arrived(x) => {
                if self.buffer.len() == 0 {
                    self.oldest_ms = now_ms;
                }
                self.received = Ghost(self.received@.push(x));
                self.buffer.push(x);
                proof {
                    assert(self.received@ =~= self.flushed@ + self.buffer@);
                    assert(event.arrivals() =~= seq![x]);
                }
                if self.buffer.len() == self.batch_size || now_ms - self.oldest_ms
                    >= self.flush_interval_ms {
                    let b = self.take_buffer();
                    proof {
                        assert(self.received@ =~= self.flushed@ + self.buffer@);
                    }
                    Action::Flush(b)
                } else {
                    Action::Wait
                }
            },
            Event::Tick => {
                proof {
                    assert(old(self).pending() + event.arrivals() =~= old(self).pending());
                }
                if self.buffer.len() > 0 && now_ms - self.oldest_ms >= self.flush_interval_ms {
                    let b = self.take_buffer();
                    proof {
                        assert(self.received@ =~= self.flushed@ + self.buffer@);
                    }
                    Action::Flush(b)
                } else {
                    Action::Wait
                }
            },
            Event::Shutdown | Event::Disconnected => {
                let b = self.take_buffer();
                self.done = true;
                proof {
                    assert(self.received@ =~= self.flushed@ + self.buffer@);
                    assert(old(self).received() + event.arrivals() =~= old(self).received());
                }
                Action::Finish(b)
            },
        }
    }

    /// How long the driver may wait for the next record before it must send a
    /// tick: until the oldest buffered record is due, or a whole interval when
    /// nothing is buffered.
    pub fn wait_ms(&self, now_ms: u64) -> (r: u64)
        requires
            self.wf(),
            self.clock() <= now_ms,
        ensures
            r == self.wait_spec(now_ms as nat),
    {
        if self.buffer.len() == 0 {
            self.flush_interval_ms
        } else if now_ms - self.oldest_ms >= self.flush_interval_ms {
            0
        } else {
            self.flush_interval_ms - (now_ms - self.oldest_ms)
        }
    }

    /// Hands the whole buffer out as a batch and leaves it empty.
    fn take_buffer(&mut self) -> (b: Vec<T>)
        ensures
            b@ == old(self).buffer@,
            final(self).buffer@ == Seq::<T>::empty(),
            final(self).flushed@ == old(self).flushed@ + old(self).buffer@,
            final(self).received@ == old(self).received@,
            final(self).batch_size == old(self).batch_size,
            final(self).flush_interval_ms == old(self).flush_interval_ms,
            final(self).oldest_ms == old(self).oldest_ms,
            final(self).clock_ms == old(self).clock_ms,
            final(self).done == old(self).done,
    {
        let mut b: Vec<T> = Vec::new();
        std::mem::swap(&mut b, &mut self.buffer);
        self.flushed = Ghost(self.flushed@ + b@);
        b
    }
}

/// Every record the dispatcher accepted is either in exactly one flushed batch
/// or still buffered, in the order it arrived: batches neither repeat nor skip
/// a record, and fewer than `batch_size` records wait between events. Once the
/// dispatcher has ended, the batches hold every record.
pub proof fn lemma_batches_partition<T>(d: &Dispatcher<T>)
    requires
        d.wf(),
    ensures
        d.received() == d.flushed() + d.pending(),
        d.pending().len() < d.batch_size(),
        d.is_done() ==> d.received() == d.flushed(),
{
    if d.is_done() {
        assert(d.flushed() + d.pending() =~= d.flushed());
    }
}

/// Between events, no buffered record has waited a whole flush interval: the
/// oldest one arrived at or before the latest event, and its deadline lies
/// after it.
pub proof fn lemma_flush_deadline<T>(d: &Dispatcher<T>)
    requires
        d.wf(),
        d.pending().len() > 0,
    ensures
        d.oldest() <= d.clock() < d.deadline(),
        d.deadline() == d.oldest() + d.interval(),
        !d.is_done(),
{
}

/// A tick sent when `wait_ms` says flushes every buffered record, and that tick
/// comes no later than one flush interval after the oldest of them arrived
/// (or at once, where the driver is already late).
pub proof fn lemma_tick_flushes_in_time<T>(d: &Dispatcher<T>, now: nat)
    requires
        d.wf(),
        d.pending().len() > 0,
        d.clock() <= now,
    ensures
        ({
            let t = now + d.wait_spec(now);
            &&& d.flush_due(d.pending(), d.start_at(t), t)
            &&& t <= if now > d.deadline() { now } else { d.deadline() }
            &&& d.deadline() == d.oldest() + d.interval()
        }),
{
}

} // verus!
