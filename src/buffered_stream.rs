use vstd::prelude::*;

use crate::buffer::{count_batches_reproduce_input, Buffer, CountState, SimpleCountBuffer};
use crate::fuse::Fuse;
use crate::outcome::{Outcome, Step};
use crate::overlapped_buffer::{
    count_windows_ok, overlapped_count_batches_cover_input, OverlappedCountBuffer, OverlappedCountState,
    OverlappedTimeBuffer, OverlappedTimeState,
};
use crate::subseq::is_subseq;
use crate::time_buffer::{new_simple_time_buffer, StreamControlledBuffer};

verus! {

/// Turns an upstream into a sequence of batches, as decided by an accumulation policy.
///
/// While the upstream is live, each turn hands out a ready batch if the policy has one,
/// and otherwise feeds the policy from the upstream until it has one or the upstream
/// pends. Once the upstream is complete, each turn asks the policy for a leftover batch,
/// and the sequence completes when there is none. Before each check of a policy with a
/// control sequence, the engine asks its driver to poll that sequence (`Pull(1)`);
/// `Pull(0)` asks for the upstream.
pub struct BufferedStream<V, B> {
    s: Fuse,
    buffer: B,
    asking: Option<usize>,
    items: core::marker::PhantomData<V>,
}

/// The batch a step hands to the consumer, if any.
pub open spec fn step_batch<V>(r: Step<Vec<V>>) -> Option<Seq<V>> {
    match r {
        Step::Emit(b) => Some(b@),
        _ => None,
    }
}

/// The batches handed out so far, after a step `r`.
pub open spec fn with_step<V>(emitted: Seq<Seq<V>>, r: Step<Vec<V>>) -> Seq<Seq<V>> {
    match r {
        Step::Emit(b) => emitted.push(b@),
        _ => emitted,
    }
}

/// Whether the answer of a control sequence is a tick: anything but `Pending`.
pub open spec fn is_tick<C>(control: Outcome<C>) -> bool {
    !(control is Pending)
}

impl<V, B: Buffer<V>> BufferedStream<V, B> {
    pub closed spec fn wf(&self) -> bool {
        &&& self.buffer.wf()
        &&& self.asking == Some(0usize) ==> !self.s.done()
        &&& self.asking == Some(1usize) ==> B::controlled(self.buffer.state())
        &&& self.asking is Some ==> self.asking->Some_0 < 2
    }

    /// Whether the upstream is complete.
    pub closed spec fn done(&self) -> bool {
        self.s.done()
    }

    pub closed spec fn buffer(&self) -> B {
        self.buffer
    }

    /// Whose answer is awaited: the upstream (0) or the policy's control sequence (1).
    pub closed spec fn asking(&self) -> Option<usize> {
        self.asking
    }

    /// A buffered sequence over a live upstream, with the given policy.
    pub fn with_buffer(buffer: B) -> (r: Self)
        requires
            buffer.wf(),
        ensures
            r.wf(),
            !r.done(),
            r.asking() is None,
            r.buffer() == buffer,
    {
        BufferedStream { s: Fuse::new(), buffer, asking: None, items: core::marker::PhantomData }
    }

    pub fn awaiting(&self) -> (r: Option<usize>)
        ensures
            r == self.asking(),
    {
        self.asking
    }

    /// The policy, for a driver that runs its control sequences.
    pub fn policy(&self) -> (r: &B)
        ensures
            *r == self.buffer(),
    {
        &self.buffer
    }

    /// A drain check, with control answer `tick`.
    fn drain(&mut self, tick: bool) -> (r: Step<Vec<V>>)
        requires
            old(self).wf(),
            old(self).done(),
        ensures
            final(self).wf(),
            final(self).done(),
            final(self).asking() is None,
            r is Emit || r is Finish,
            step_batch(r) == B::drain(old(self).buffer().state(), tick),
            final(self).buffer().state() == B::after_drain(old(self).buffer().state(), tick),
            final(self).buffer().inserted() == old(self).buffer().inserted(),
            final(self).buffer().emitted() == with_step(old(self).buffer().emitted(), r),
            final(self).buffer().lossless() == old(self).buffer().lossless(),
    {
        self.asking = None;
        match self.buffer.poll_buffer_after_done(tick) {
            Some(batch) => Step::Emit(batch),
            None => Step::Finish,
        }
    }

    /// A flush check, with control answer `tick`: the batch, or a request for the upstream.
    fn flush_or_pull(&mut self, tick: bool) -> (r: Step<Vec<V>>)
        requires
            old(self).wf(),
            !old(self).done(),
        ensures
            final(self).wf(),
            !final(self).done(),
            r is Emit || r == Step::<Vec<V>>::Pull(0),
            step_batch(r) == B::flush(old(self).buffer().state(), tick),
            final(self).buffer().state() == B::after_flush(old(self).buffer().state(), tick),
            final(self).buffer().inserted() == old(self).buffer().inserted(),
            final(self).buffer().emitted() == with_step(old(self).buffer().emitted(), r),
            final(self).buffer().lossless() == old(self).buffer().lossless(),
            final(self).asking() == (if r is Pull {
                Some(0usize)
            } else {
                None
            }),
    {
        match self.buffer.poll_buffer(tick) {
            Some(batch) => {
                self.asking = None;
                Step::Emit(batch)
            },
            None => {
                self.asking = Some(0);
                Step::Pull(0)
            },
        }
    }

    /// A check of the policy: asks for its control sequence first if it has one, else
    /// checks at once (a drain check once the upstream is complete, else a flush check).
    fn check(&mut self) -> (r: Step<Vec<V>>)
        requires
            old(self).wf(),
        ensures
            final(self).wf(),
            final(self).done() == old(self).done(),
            final(self).buffer().inserted() == old(self).buffer().inserted(),
            final(self).buffer().emitted() == with_step(old(self).buffer().emitted(), r),
            final(self).buffer().lossless() == old(self).buffer().lossless(),
            B::controlled(old(self).buffer().state()) ==> r == Step::<Vec<V>>::Pull(1)
                && final(self).asking() == Some(1usize) && final(self).buffer()
                == old(self).buffer(),
            !B::controlled(old(self).buffer().state()) && old(self).done() ==> (r is Emit
                || r is Finish) && step_batch(r) == B::drain(old(self).buffer().state(), false)
                && final(self).buffer().state() == B::after_drain(old(self).buffer().state(), false)
                && final(self).asking() is None,
            !B::controlled(old(self).buffer().state()) && !old(self).done() ==> (r is Emit || r
                == Step::<Vec<V>>::Pull(0)) && step_batch(r) == B::flush(
                old(self).buffer().state(),
                false,
            ) && final(self).buffer().state() == B::after_flush(old(self).buffer().state(), false)
                && final(self).asking() == (if r is Pull {
                Some(0usize)
            } else {
                None
            }),
    {
        if self.buffer.is_controlled() {
            self.asking = Some(1);
            Step::Pull(1)
        } else if self.s.is_done() {
            self.drain(false)
        } else {
            self.flush_or_pull(false)
        }
    }

    /// Begins a turn with a check of the policy.
    pub fn start(&mut self) -> (r: Step<Vec<V>>)
        requires
            old(self).wf(),
        ensures
            final(self).wf(),
            final(self).done() == old(self).done(),
            final(self).buffer().inserted() == old(self).buffer().inserted(),
            final(self).buffer().emitted() == with_step(old(self).buffer().emitted(), r),
            final(self).buffer().lossless() == old(self).buffer().lossless(),
            B::controlled(old(self).buffer().state()) ==> r == Step::<Vec<V>>::Pull(1)
                && final(self).asking() == Some(1usize) && final(self).buffer()
                == old(self).buffer(),
            !B::controlled(old(self).buffer().state()) && old(self).done() ==> (r is Emit
                || r is Finish) && step_batch(r) == B::drain(old(self).buffer().state(), false)
                && final(self).buffer().state() == B::after_drain(old(self).buffer().state(), false)
                && final(self).asking() is None,
            !B::controlled(old(self).buffer().state()) && !old(self).done() ==> (r is Emit || r
                == Step::<Vec<V>>::Pull(0)) && step_batch(r) == B::flush(
                old(self).buffer().state(),
                false,
            ) && final(self).buffer().state() == B::after_flush(old(self).buffer().state(), false)
                && final(self).asking() == (if r is Pull {
                Some(0usize)
            } else {
                None
            }),
    {
        self.check()
    }

    /// Takes the upstream's answer at time `now`: an item goes to the policy, which is
    /// then checked; completion turns to draining, with a drain check; `Pending` ends the
    /// turn.
    pub fn feed(&mut self, pulled: Outcome<V>, now: u64) -> (r: Step<Vec<V>>)
        requires
            old(self).wf(),
            old(self).asking() == Some(0usize),
        ensures
            final(self).wf(),
            final(self).done() == pulled is Done,
            final(self).buffer().emitted() == with_step(old(self).buffer().emitted(), r),
            ({
                let s = old(self).buffer().state();
                let s1 = match pulled {
                    Outcome::Ready(x) => B::after_insert(s, x, now),
                    _ => s,
                };
                &&& final(self).buffer().inserted() == (match pulled {
                    Outcome::Ready(x) => old(self).buffer().inserted().push(x),
                    _ => old(self).buffer().inserted(),
                })
                &&& final(self).buffer().lossless() == (old(self).buffer().lossless() && (
                pulled is Ready ==> B::keeps(s)))
                &&& pulled is Pending ==> r is Wait && final(self).buffer() == old(
                    self,
                ).buffer() && final(self).asking() is None
                &&& !(pulled is Pending) && B::controlled(s1) ==> r == Step::<Vec<V>>::Pull(1)
                    && final(self).asking() == Some(1usize) && final(self).buffer().state() == s1
                &&& pulled is Done && !B::controlled(s1) ==> (r is Emit || r is Finish)
                    && step_batch(r) == B::drain(s1, false) && final(self).buffer().state()
                    == B::after_drain(s1, false) && final(self).asking() is None
                &&& pulled is Ready && !B::controlled(s1) ==> (r is Emit || r == Step::<
                    Vec<V>,
                >::Pull(0)) && step_batch(r) == B::flush(s1, false) && final(self).buffer().state()
                    == B::after_flush(s1, false) && final(self).asking() == (if r is Pull {
                    Some(0usize)
                } else {
                    None
                })
            }),
    {
        match self.s.poll(pulled) {
            Outcome::Ready(x) => {
                self.buffer.insert(x, now);
                self.asking = None;
                self.check()
            },
            Outcome::Pending => {
                self.asking = None;
                Step::Wait
            },
            Outcome::Done => {
                self.asking = None;
                self.check()
            },
        }
    }

    /// Takes the answer of the policy's control sequence and makes the check it was
    /// polled for: a drain check once the upstream is complete, else a flush check.
    pub fn feed_control<C>(&mut self, control: Outcome<C>) -> (r: Step<Vec<V>>)
        requires
            old(self).wf(),
            old(self).asking() == Some(1usize),
        ensures
            final(self).wf(),
            final(self).done() == old(self).done(),
            final(self).buffer().inserted() == old(self).buffer().inserted(),
            final(self).buffer().emitted() == with_step(old(self).buffer().emitted(), r),
            final(self).buffer().lossless() == old(self).buffer().lossless(),
            old(self).done() ==> (r is Emit || r is Finish) && step_batch(r) == B::drain(
                old(self).buffer().state(),
                is_tick(control),
            ) && final(self).buffer().state() == B::after_drain(
                old(self).buffer().state(),
                is_tick(control),
            ) && final(self).asking() is None,
            !old(self).done() ==> (r is Emit || r == Step::<Vec<V>>::Pull(0)) && step_batch(r)
                == B::flush(old(self).buffer().state(), is_tick(control))
                && final(self).buffer().state() == B::after_flush(
                old(self).buffer().state(),
                is_tick(control),
            ) && final(self).asking() == (if r is Pull {
                Some(0usize)
            } else {
                None
            }),
    {
        let tick = match control {
            Outcome::Pending => false,
            _ => true,
        };
        if self.s.is_done() {
            self.drain(tick)
        } else {
            self.flush_or_pull(tick)
        }
    }
}

/// Batches of `max_count` items, the last one possibly shorter.
pub type SimpleCountBufferedStream<V> = BufferedStream<V, SimpleCountBuffer<V>>;

impl<V> BufferedStream<V, SimpleCountBuffer<V>> {
    pub fn new(max_count: usize) -> (r: Self)
        ensures
            r.wf(),
            !r.done(),
            r.asking() is None,
            r.buffer().state() == (CountState::<V> { held: Seq::empty(), max_count: max_count as nat }),
            r.buffer().inserted().len() == 0,
            r.buffer().emitted().len() == 0,
    {
        BufferedStream::with_buffer(SimpleCountBuffer::new(max_count))
    }
}

/// A fixed-count buffered sequence whose drain check finds nothing left (as when it
/// reports completion) has handed out every item it received, in order, each once.
pub proof fn count_stream_reproduces_input<V>(s: &SimpleCountBufferedStream<V>)
    requires
        s.wf(),
        SimpleCountBuffer::<V>::drain(s.buffer().state(), false) is None,
    ensures
        s.buffer().emitted().flatten() == s.buffer().inserted(),
{
    count_batches_reproduce_input(&s.buffer);
}

/// Batches of what arrives in each span of time.
pub type SimpleTimeBufferredStream<V> = BufferedStream<V, StreamControlledBuffer<V>>;

/// Batches of what arrives between the ticks of a given control sequence.
pub type SimpleExternalTimeBufferredStream<V> = BufferedStream<V, StreamControlledBuffer<V>>;

impl<V> BufferedStream<V, StreamControlledBuffer<V>> {
    /// Flushed by a timer of period `time_span` milliseconds, which the driver runs.
    pub fn new(time_span: u64) -> (r: Self)
        ensures
            r.wf(),
            !r.done(),
            r.asking() is None,
            r.buffer().state() == Seq::<V>::empty(),
            r.buffer().period() == Some(time_span),
            r.buffer().inserted().len() == 0,
            r.buffer().emitted().len() == 0,
    {
        BufferedStream::with_buffer(new_simple_time_buffer(time_span))
    }

    /// Flushed by a control sequence that the driver was given.
    pub fn new_with_timer_stream() -> (r: Self)
        ensures
            r.wf(),
            !r.done(),
            r.asking() is None,
            r.buffer().state() == Seq::<V>::empty(),
            r.buffer().period() is None,
            r.buffer().inserted().len() == 0,
            r.buffer().emitted().len() == 0,
    {
        BufferedStream::with_buffer(StreamControlledBuffer::new(None))
    }
}

/// Windows of `max_count` items, a new one starting every `skip` items.
pub type OverlappedCountBufferedStream<V> = BufferedStream<V, OverlappedCountBuffer<V>>;

impl<V: Copy> BufferedStream<V, OverlappedCountBuffer<V>> {
    pub fn new(max_count: usize, skip: usize) -> (r: Self)
        ensures
            r.wf(),
            !r.done(),
            r.asking() is None,
            r.buffer().state() == (OverlappedCountState::<V> {
                windows: seq![CountState { held: Seq::empty(), max_count: max_count as nat }],
                skip: skip as nat,
                skip_count: 0,
                max_count: max_count as nat,
            }),
            r.buffer().inserted().len() == 0,
            r.buffer().emitted().len() == 0,
            r.buffer().lossless(),
            1 <= skip <= max_count ==> count_windows_ok(r.buffer().state()),
    {
        BufferedStream::with_buffer(OverlappedCountBuffer::new(max_count, skip))
    }
}

/// An overlapping-count buffered sequence that has lost nothing and whose drain check
/// finds nothing left (as when it reports completion) has handed out every item it
/// received, in order, possibly more than once. Nothing is lost when `1 <= skip <=
/// max_count`: `count_windows_stay_open` keeps a window open while the upstream is live,
/// and `feed` keeps `lossless` exactly when a window is open at each insertion.
pub proof fn overlapped_count_stream_covers_input<V: Copy>(
    s: &OverlappedCountBufferedStream<V>,
)
    requires
        s.wf(),
        s.buffer().lossless(),
        OverlappedCountBuffer::<V>::drain(s.buffer().state(), false) is None,
    ensures
        is_subseq(s.buffer().inserted(), s.buffer().emitted().flatten()),
{
    overlapped_count_batches_cover_input(&s.buffer);
}

/// Windows spanning `time_span` milliseconds, a new one opening every `creation_interval`.
pub type OverlappedTimeBufferedStream<V> = BufferedStream<V, OverlappedTimeBuffer<V>>;

impl<V: Copy> BufferedStream<V, OverlappedTimeBuffer<V>> {
    /// The first window opens at `now`.
    pub fn new(time_span: u64, creation_interval: u64, now: u64) -> (r: Self)
        ensures
            r.wf(),
            !r.done(),
            r.asking() is None,
            r.buffer().state() == (OverlappedTimeState::<V> {
                windows: seq![Seq::empty()],
                period: creation_interval,
                last_check: now,
                time_span,
            }),
            r.buffer().inserted().len() == 0,
            r.buffer().emitted().len() == 0,
    {
        BufferedStream::with_buffer(OverlappedTimeBuffer::new(time_span, creation_interval, now))
    }
}

} // verus!
