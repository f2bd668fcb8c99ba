use vstd::prelude::*;

use crate::buffer::{batch_of, with_batch, Buffer};

verus! {

/// The batch a timer-controlled buffer holding `held` hands out: all it holds, when its
/// control sequence ticked.
pub open spec fn on_tick<V>(held: Seq<V>, tick: bool) -> Option<Seq<V>> {
    if tick {
        Some(held)
    } else {
        None
    }
}

/// What a timer-controlled buffer holding `held` holds after a check: nothing once its
/// control sequence ticked.
pub open spec fn after_tick<V>(held: Seq<V>, tick: bool) -> Seq<V> {
    if tick {
        Seq::empty()
    } else {
        held
    }
}

/// Hands out everything accumulated, possibly nothing, each time its control sequence
/// produces something; a drain check follows the same rule. Its state is what it holds.
///
/// The control sequence itself is run by the driver: a periodic timer of
/// `control_period()` milliseconds, or one the driver was given.
pub struct StreamControlledBuffer<V> {
    vec: Vec<V>,
    period: Option<u64>,
    inserted: Ghost<Seq<V>>,
    emitted: Ghost<Seq<Seq<V>>>,
}

impl<V> StreamControlledBuffer<V> {
    pub closed spec fn period(&self) -> Option<u64> {
        self.period
    }

    /// A buffer flushed by a control sequence: a timer of period `period`, or, with
    /// `None`, one that the driver was given.
    pub fn new(period: Option<u64>) -> (r: Self)
        ensures
            r.wf(),
            r.state() == Seq::<V>::empty(),
            r.period() == period,
            r.inserted().len() == 0,
            r.emitted().len() == 0,
    {
        let r = StreamControlledBuffer {
            vec: Vec::new(),
            period,
            inserted: Ghost(Seq::empty()),
            emitted: Ghost(Seq::empty()),
        };
        assert(r.vec@ =~= Seq::<V>::empty());
        r
    }

    /// The period of the timer that controls this buffer, if it has a timer of its own.
    pub fn control_period(&self) -> (r: Option<u64>)
        ensures
            r == self.period(),
    {
        self.period
    }

    fn check(&mut self, tick: bool) -> (r: Option<Vec<V>>)
        requires
            old(self).wf(),
        ensures
            final(self).wf(),
            batch_of(r) == on_tick(old(self).state(), tick),
            final(self).state() == after_tick(old(self).state(), tick),
            final(self).period() == old(self).period(),
            final(self).inserted() == old(self).inserted(),
            final(self).emitted() == with_batch(old(self).emitted(), r),
    {
        if tick {
            let mut batch: Vec<V> = Vec::new();
            std::mem::swap(&mut self.vec, &mut batch);
            proof {
                broadcast use Seq::lemma_flatten_push;

                self.emitted@ = self.emitted@.push(batch@);
                assert(self.emitted@.flatten() + self.vec@ =~= self.inserted@);
                assert(self.vec@ =~= Seq::<V>::empty());
            }
            Some(batch)
        } else {
            None
        }
    }
}

impl<V> Buffer<V> for StreamControlledBuffer<V> {
    type State = Seq<V>;

    /// The items accumulated and not yet handed out, in arrival order.
    closed spec fn state(&self) -> Seq<V> {
        self.vec@
    }

    closed spec fn wf(&self) -> bool {
        self.emitted@.flatten() + self.vec@ == self.inserted@
    }

    closed spec fn inserted(&self) -> Seq<V> {
        self.inserted@
    }

    closed spec fn emitted(&self) -> Seq<Seq<V>> {
        self.emitted@
    }

    /// The buffer itself drops nothing: what it does not hand out, it holds.
    open spec fn lossless(&self) -> bool {
        true
    }

    open spec fn keeps(s: Seq<V>) -> bool {
        true
    }

    open spec fn controlled(s: Seq<V>) -> bool {
        true
    }

    open spec fn after_insert(s: Seq<V>, v: V, now: u64) -> Seq<V> {
        s.push(v)
    }

    open spec fn flush(s: Seq<V>, tick: bool) -> Option<Seq<V>> {
        on_tick(s, tick)
    }

    open spec fn after_flush(s: Seq<V>, tick: bool) -> Seq<V> {
        after_tick(s, tick)
    }

    open spec fn drain(s: Seq<V>, tick: bool) -> Option<Seq<V>> {
        on_tick(s, tick)
    }

    open spec fn after_drain(s: Seq<V>, tick: bool) -> Seq<V> {
        after_tick(s, tick)
    }

    fn is_controlled(&self) -> (r: bool) {
        true
    }

    fn insert(&mut self, v: V, now: u64) {
        self.vec.push(v);
        self.inserted = Ghost(self.inserted@.push(v));
        proof {
            assert(self.emitted@.flatten() + self.vec@ =~= self.inserted@);
        }
    }

    fn poll_buffer(&mut self, tick: bool) -> (r: Option<Vec<V>>) {
        self.check(tick)
    }

    fn poll_buffer_after_done(&mut self, tick: bool) -> (r: Option<Vec<V>>) {
        self.check(tick)
    }
}

/// A buffer flushed by a timer of period `time_span` milliseconds, which the driver runs.
pub fn new_simple_time_buffer<V>(time_span: u64) -> (r: StreamControlledBuffer<V>)
    ensures
        r.wf(),
        r.state() == Seq::<V>::empty(),
        r.period() == Some(time_span),
        r.inserted().len() == 0,
        r.emitted().len() == 0,
{
    StreamControlledBuffer::new(Some(time_span))
}

/// The batches of a timer-controlled buffer, concatenated in the order they were handed
/// out and followed by what it still holds, are exactly the items inserted, in order.
pub proof fn timed_batches_reproduce_input<V>(b: &StreamControlledBuffer<V>)
    requires
        b.wf(),
    ensures
        b.emitted().flatten() + b.state() == b.inserted(),
{
}

} // verus!
