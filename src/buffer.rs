use vstd::prelude::*;

verus! {

/// The batches handed out so far, after a flush check that returned `r`.
pub open spec fn with_batch<V>(emitted: Seq<Seq<V>>, r: Option<Vec<V>>) -> Seq<Seq<V>> {
    match r {
        Some(b) => emitted.push(b@),
        None => emitted,
    }
}

/// The batch a flush check returned, as a sequence.
pub open spec fn batch_of<V>(r: Option<Vec<V>>) -> Option<Seq<V>> {
    match r {
        Some(b) => Some(b@),
        None => None,
    }
}

/// An accumulation policy for a buffered sequence: it receives items one at a time and
/// decides when to hand them out as batches.
///
/// Each policy has a mathematical `State` that decides every answer: the transition
/// functions below say what each operation does to it and which batch comes out.
///
/// A policy may be driven by a control sequence (a timer): then, before each flush or
/// drain check, its driver polls that sequence once and passes `tick`, whether it
/// answered with anything but `Pending`. Policies without one are passed `false` and
/// ignore it. `now` is a reading of a monotonic clock in milliseconds, taken by the
/// driver; only policies that open windows by time use it.
pub trait Buffer<V>: Sized {
    type State;

    spec fn state(&self) -> Self::State;

    /// The policy's internal invariant.
    spec fn wf(&self) -> bool;

    /// Every item accepted so far, in arrival order.
    spec fn inserted(&self) -> Seq<V>;

    /// Every batch handed out so far, in order.
    spec fn emitted(&self) -> Seq<Seq<V>>;

    /// No item accepted so far has been dropped.
    spec fn lossless(&self) -> bool;

    /// Whether an item inserted in state `s` is kept.
    spec fn keeps(s: Self::State) -> bool;

    /// Whether a check in state `s` polls a control sequence first.
    spec fn controlled(s: Self::State) -> bool;

    /// The state after inserting `v` at time `now`.
    spec fn after_insert(s: Self::State, v: V, now: u64) -> Self::State;

    /// The batch a flush check hands out, if any.
    spec fn flush(s: Self::State, tick: bool) -> Option<Seq<V>>;

    /// The state after a flush check.
    spec fn after_flush(s: Self::State, tick: bool) -> Self::State;

    /// The batch a drain check hands out, if any.
    spec fn drain(s: Self::State, tick: bool) -> Option<Seq<V>>;

    /// The state after a drain check.
    spec fn after_drain(s: Self::State, tick: bool) -> Self::State;

    fn is_controlled(&self) -> (r: bool)
        ensures
            r == Self::controlled(self.state()),
    ;

    fn insert(&mut self, v: V, now: u64)
        requires
            old(self).wf(),
        ensures
            final(self).wf(),
            final(self).state() == Self::after_insert(old(self).state(), v, now),
            final(self).inserted() == old(self).inserted().push(v),
            final(self).emitted() == old(self).emitted(),
            final(self).lossless() == (old(self).lossless() && Self::keeps(old(self).state())),
    ;

    /// Flush check while the upstream is live.
    fn poll_buffer(&mut self, tick: bool) -> (r: Option<Vec<V>>)
        requires
            old(self).wf(),
        ensures
            final(self).wf(),
            batch_of(r) == Self::flush(old(self).state(), tick),
            final(self).state() == Self::after_flush(old(self).state(), tick),
            final(self).inserted() == old(self).inserted(),
            final(self).emitted() == with_batch(old(self).emitted(), r),
            final(self).lossless() == old(self).lossless(),
    ;

    /// Drain check once the upstream is complete: the leftover, if the policy has one
    /// to hand out.
    fn poll_buffer_after_done(&mut self, tick: bool) -> (r: Option<Vec<V>>)
        requires
            old(self).wf(),
        ensures
            final(self).wf(),
            batch_of(r) == Self::drain(old(self).state(), tick),
            final(self).state() == Self::after_drain(old(self).state(), tick),
            final(self).inserted() == old(self).inserted(),
            final(self).emitted() == with_batch(old(self).emitted(), r),
            final(self).lossless() == old(self).lossless(),
    ;
}

/// Takes everything out of `v`, leaving it empty.
fn take_all<V>(v: &mut Vec<V>) -> (r: Vec<V>)
    ensures
        r@ == old(v)@,
        final(v)@.len() == 0,
{
    let mut out: Vec<V> = Vec::new();
    std::mem::swap(v, &mut out);
    out
}

/// The state of a fixed-count buffer: the items it holds and its batch size.
pub struct CountState<V> {
    pub held: Seq<V>,
    pub max_count: nat,
}

/// Hands out a batch each time it holds exactly `max_count` items; on drain, hands out
/// the partial leftover once.
pub struct SimpleCountBuffer<V> {
    vec: Vec<V>,
    max_count: usize,
    inserted: Ghost<Seq<V>>,
    emitted: Ghost<Seq<Seq<V>>>,
}

impl<V> SimpleCountBuffer<V> {
    /// The items accumulated and not yet handed out, in arrival order.
    pub closed spec fn held(&self) -> Seq<V> {
        self.vec@
    }

    pub closed spec fn max_count(&self) -> nat {
        self.max_count as nat
    }

    pub fn new(max_count: usize) -> (r: Self)
        ensures
            r.wf(),
            r.state() == (CountState::<V> { held: Seq::empty(), max_count: max_count as nat }),
            r.inserted().len() == 0,
            r.emitted().len() == 0,
    {
        let r = SimpleCountBuffer {
            vec: Vec::new(),
            max_count,
            inserted: Ghost(Seq::empty()),
            emitted: Ghost(Seq::empty()),
        };
        assert(r.held() =~= Seq::<V>::empty());
        r
    }

    fn take_batch(&mut self) -> (r: Vec<V>)
        requires
            old(self).wf(),
        ensures
            final(self).wf(),
            r@ == old(self).held(),
            final(self).held() == Seq::<V>::empty(),
            final(self).max_count() == old(self).max_count(),
            final(self).inserted() == old(self).inserted(),
            final(self).emitted() == old(self).emitted().push(r@),
    {
        let batch = take_all(&mut self.vec);
        proof {
            broadcast use Seq::lemma_flatten_push;

            self.emitted@ = self.emitted@.push(batch@);
            assert(self.emitted@.flatten() + self.vec@ =~= self.inserted@);
            assert(self.held() =~= Seq::<V>::empty());
        }
        batch
    }
}

impl<V> Buffer<V> for SimpleCountBuffer<V> {
    type State = CountState<V>;

    open spec fn state(&self) -> CountState<V> {
        CountState { held: self.held(), max_count: self.max_count() }
    }

    closed spec fn wf(&self) -> bool {
        self.emitted@.flatten() + self.vec@ == self.inserted@
    }

    closed spec fn inserted(&self) -> Seq<V> {
        self.inserted@
    }

    closed spec fn emitted(&self) -> Seq<Seq<V>> {
        self.emitted@
    }

    /// A fixed-count buffer drops nothing: what it does not hand out, it holds.
    open spec fn lossless(&self) -> bool {
        true
    }

    open spec fn keeps(s: CountState<V>) -> bool {
        true
    }

    open spec fn controlled(s: CountState<V>) -> bool {
        false
    }

    open spec fn after_insert(s: CountState<V>, v: V, now: u64) -> CountState<V> {
        CountState { held: s.held.push(v), ..s }
    }

    open spec fn flush(s: CountState<V>, tick: bool) -> Option<Seq<V>> {
        if s.held.len() == s.max_count {
            Some(s.held)
        } else {
            None
        }
    }

    open spec fn after_flush(s: CountState<V>, tick: bool) -> CountState<V> {
        if s.held.len() == s.max_count {
            CountState { held: Seq::empty(), ..s }
        } else {
            s
        }
    }

    open spec fn drain(s: CountState<V>, tick: bool) -> Option<Seq<V>> {
        if s.held.len() > 0 {
            Some(s.held)
        } else {
            None
        }
    }

    open spec fn after_drain(s: CountState<V>, tick: bool) -> CountState<V> {
        CountState { held: Seq::empty(), ..s }
    }

    fn is_controlled(&self) -> (r: bool) {
        false
    }

    fn insert(&mut self, v: V, now: u64) {
        self.vec.push(v);
        self.inserted = Ghost(self.inserted@.push(v));
        proof {
            assert(self.emitted@.flatten() + self.vec@ =~= self.inserted@);
        }
    }

    fn poll_buffer(&mut self, tick: bool) -> (r: Option<Vec<V>>) {
        if self.vec.len() == self.max_count {
            Some(self.take_batch())
        } else {
            None
        }
    }

    fn poll_buffer_after_done(&mut self, tick: bool) -> (r: Option<Vec<V>>) {
        if self.vec.len() > 0 {
            Some(self.take_batch())
        } else {
            assert(self.held() =~= Seq::<V>::empty());
            None
        }
    }
}

/// The batches of a fixed-count buffer, concatenated in the order they were handed out
/// and followed by what it still holds, are exactly the items inserted, in order. Once a
/// drain check has found nothing left, the batches alone are the items inserted.
pub proof fn count_batches_reproduce_input<V>(b: &SimpleCountBuffer<V>)
    requires
        b.wf(),
    ensures
        b.emitted().flatten() + b.held() == b.inserted(),
        b.held().len() == 0 ==> b.emitted().flatten() == b.inserted(),
{
    if b.held().len() == 0 {
        assert(b.emitted().flatten() + b.held() =~= b.emitted().flatten());
    }
}


/// Fixed-count batch sizes. A flush check hands out exactly `max_count` items. While the
/// buffer holds at most `max_count` items, an insertion after a flush check that found
/// no batch (as the engine makes it) keeps it so, and a drain check hands out between 1
/// and `max_count` items, after which the next one finds nothing: a run hands out full
/// batches, then at most one shorter, non-empty one.
pub proof fn count_batch_sizes<V>(s: CountState<V>, v: V, now: u64, tick: bool)
    requires
        s.held.len() <= s.max_count,
    ensures
        SimpleCountBuffer::<V>::flush(s, tick) is Some ==> SimpleCountBuffer::<V>::flush(
            s,
            tick,
        )->Some_0.len() == s.max_count,
        SimpleCountBuffer::<V>::flush(s, tick) is None ==> SimpleCountBuffer::<V>::after_insert(
            s,
            v,
            now,
        ).held.len() <= s.max_count,
        SimpleCountBuffer::<V>::drain(s, tick) is Some ==> 1 <= SimpleCountBuffer::<V>::drain(
            s,
            tick,
        )->Some_0.len() <= s.max_count,
        SimpleCountBuffer::<V>::drain(SimpleCountBuffer::<V>::after_drain(s, tick), tick) is None,
{
}

} // verus!
