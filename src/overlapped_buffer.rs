use vstd::prelude::*;

use crate::buffer::{batch_of, count_batches_reproduce_input, Buffer, CountState, SimpleCountBuffer};
use crate::subseq::{is_subseq, lemma_subseq_append, lemma_subseq_prefix, lemma_subseq_refl};
use crate::time_buffer::{new_simple_time_buffer, StreamControlledBuffer};

verus! {

/// Decides, after each insertion, whether a new overlapping window opens.
pub trait BufferOpener: Sized {
    /// Whether a check at time `now` opens a window.
    spec fn opens(&self, now: u64) -> bool;

    fn check_open(&mut self, now: u64) -> (r: bool)
        ensures
            r == old(self).opens(now),
    ;
}

/// Makes the window buffers of an overlapping buffer.
pub trait BufferCreator<V>: Sized {
    type B: Buffer<V>;

    /// Whether `b` is a window this creator makes at time `now`.
    spec fn makes(&self, b: Self::B, now: u64) -> bool;

    /// Makes a fresh, empty window; the creator itself does not change.
    fn new_buffer(&mut self, now: u64) -> (r: Self::B)
        ensures
            r.wf(),
            r.inserted().len() == 0,
            r.emitted().len() == 0,
            old(self).makes(r, now),
            *final(self) == *old(self),
    ;
}

/// Overlapping windows: a queue of window buffers, oldest first. Every item goes to
/// every open window; only the oldest window is checked for a batch, and it leaves the
/// queue when it hands one out. The count and time forms below implement `Buffer`.
///
/// The queue is a `Vec`: each insertion updates every window in place, which vstd
/// specifies for `Vec` (indexed `&mut`) and not for `VecDeque`.
pub struct OverlappedBuffer<V, B, O, C> {
    buffers: Vec<B>,
    opener: O,
    creator: C,
    inserted: Ghost<Seq<V>>,
    emitted: Ghost<Seq<Seq<V>>>,
    lossless: Ghost<bool>,
}

impl<V: Copy, B: Buffer<V>, O: BufferOpener, C: BufferCreator<V, B = B>> OverlappedBuffer<V, B, O, C> {
    /// The open windows, oldest first.
    pub closed spec fn windows(&self) -> Seq<B> {
        self.buffers@
    }

    pub closed spec fn opener(&self) -> O {
        self.opener
    }

    pub closed spec fn creator(&self) -> C {
        self.creator
    }

    /// The number of open windows.
    pub fn window_count(&self) -> (r: usize)
        ensures
            r == self.windows().len(),
    {
        self.buffers.len()
    }

    /// An overlapping buffer with no open window.
    pub fn new_internal(opener: O, creator: C) -> (r: Self)
        ensures
            r.windows().len() == 0,
            r.opener() == opener,
            r.creator() == creator,
    {
        Self::empty(opener, creator)
    }

    fn empty(opener: O, creator: C) -> (r: Self)
        ensures
            r.windows().len() == 0,
            r.opener() == opener,
            r.creator() == creator,
            r.lossless@,
            r.inserted@.len() == 0,
            r.emitted@.len() == 0,
    {
        OverlappedBuffer {
            buffers: Vec::new(),
            opener,
            creator,
            inserted: Ghost(Seq::empty()),
            emitted: Ghost(Seq::empty()),
            lossless: Ghost(true),
        }
    }

    /// Opens a window at the back of the queue.
    fn open_window(&mut self, now: u64)
        ensures
            final(self).inserted == old(self).inserted,
            final(self).emitted == old(self).emitted,
            final(self).lossless == old(self).lossless,
            final(self).opener() == old(self).opener(),
            final(self).creator() == old(self).creator(),
            final(self).windows().last().wf(),
            old(self).creator().makes(final(self).windows().last(), now),
            final(self).windows().len() == old(self).windows().len() + 1,
            final(self).windows().drop_last() == old(self).windows(),
            forall|k: int|
                0 <= k < old(self).windows().len() ==> #[trigger] final(self).windows()[k] == old(
                    self,
                ).windows()[k],
            final(self).windows().last().inserted().len() == 0,
            final(self).windows().last().emitted().len() == 0,
    {
        let b = self.creator.new_buffer(now);
        self.buffers.push(b);
        proof {
            assert(self.buffers@.drop_last() =~= old(self).buffers@);
        }
    }

    /// Hands `v` to every open window.
    fn insert_all(&mut self, v: V, now: u64)
        requires
            forall|k: int| 0 <= k < old(self).buffers@.len() ==> (#[trigger] old(self).buffers@[k]).wf(),
        ensures
            final(self).buffers@.len() == old(self).buffers@.len(),
            forall|k: int|
                0 <= k < old(self).buffers@.len() ==> {
                    &&& (#[trigger] final(self).buffers@[k]).wf()
                    &&& final(self).buffers@[k].state() == B::after_insert(
                        old(self).buffers@[k].state(),
                        v,
                        now,
                    )
                    &&& final(self).buffers@[k].inserted() == old(self).buffers@[k].inserted().push(v)
                    &&& final(self).buffers@[k].emitted() == old(self).buffers@[k].emitted()
                },
            final(self).opener == old(self).opener,
            final(self).creator == old(self).creator,
            final(self).inserted == old(self).inserted,
            final(self).emitted == old(self).emitted,
            final(self).lossless == old(self).lossless,
    {
        let n = self.buffers.len();
        let mut i: usize = 0;
        while i < n
            invariant
                n == self.buffers@.len(),
                n == old(self).buffers@.len(),
                i <= n,
                self.opener == old(self).opener,
                self.creator == old(self).creator,
                self.inserted == old(self).inserted,
                self.emitted == old(self).emitted,
                self.lossless == old(self).lossless,
                forall|k: int|
                    0 <= k < i ==> {
                        &&& (#[trigger] self.buffers@[k]).wf()
                        &&& self.buffers@[k].state() == B::after_insert(
                            old(self).buffers@[k].state(),
                            v,
                            now,
                        )
                        &&& self.buffers@[k].inserted() == old(self).buffers@[k].inserted().push(v)
                        &&& self.buffers@[k].emitted() == old(self).buffers@[k].emitted()
                    },
                forall|k: int| i <= k < n ==> #[trigger] self.buffers@[k] == old(self).buffers@[k],
                forall|k: int| 0 <= k < n ==> (#[trigger] old(self).buffers@[k]).wf(),
            decreases n - i,
        {
            self.buffers[i].insert(v, now);
            i = i + 1;
        }
    }
}

/// Opens a window every `skip` insertions.
#[derive(Debug, Default)]
pub struct CountBufferOpener {
    skip: usize,
    skip_count: usize,
}

impl CountBufferOpener {
    pub closed spec fn skip(&self) -> nat {
        self.skip as nat
    }

    /// Insertions since the last window opened.
    pub closed spec fn skip_count(&self) -> nat {
        self.skip_count as nat
    }

    pub closed spec fn wf(&self) -> bool {
        self.skip_count < self.skip || (self.skip == 0 && self.skip_count == 0)
    }

    pub fn new(skip: usize) -> (r: Self)
        ensures
            r.wf(),
            r.skip() == skip,
            r.skip_count() == 0,
    {
        CountBufferOpener { skip, skip_count: 0 }
    }
}

impl BufferOpener for CountBufferOpener {
    open spec fn opens(&self, now: u64) -> bool {
        self.skip() > 0 && self.skip_count() + 1 >= self.skip()
    }

    fn check_open(&mut self, now: u64) -> (r: bool)
        ensures
            old(self).wf() ==> final(self).wf(),
            final(self).skip() == old(self).skip(),
            old(self).wf() && old(self).skip() > 0 ==> r == (old(self).skip_count() + 1
                == old(self).skip()),
            old(self).skip() == 0 ==> !r && final(self).skip_count() == old(self).skip_count(),
            r ==> final(self).skip_count() == 0,
            !r && old(self).skip() > 0 ==> final(self).skip_count() == old(self).skip_count() + 1,
    {
        if self.skip == 0 {
            return false;
        }
        if self.skip_count >= self.skip - 1 {
            self.skip_count = 0;
            true
        } else {
            self.skip_count = self.skip_count + 1;
            false
        }
    }
}

/// Makes fixed-count windows of `max_count` items.
#[derive(Debug)]
pub struct CountBufferCreator {
    max_count: usize,
}

impl CountBufferCreator {
    pub closed spec fn max_count(&self) -> nat {
        self.max_count as nat
    }

    pub fn new(max_count: usize) -> (r: Self)
        ensures
            r.max_count() == max_count,
    {
        CountBufferCreator { max_count }
    }
}

impl<V> BufferCreator<V> for CountBufferCreator {
    type B = SimpleCountBuffer<V>;

    open spec fn makes(&self, b: SimpleCountBuffer<V>, now: u64) -> bool {
        b.state() == (CountState::<V> { held: Seq::empty(), max_count: self.max_count() })
    }

    fn new_buffer(&mut self, now: u64) -> (r: SimpleCountBuffer<V>) {
        SimpleCountBuffer::new(self.max_count)
    }
}

/// The state of overlapping count windows: the windows, oldest first, the opener's
/// `skip` and insertions counted since the last window opened, and the window size.
pub struct OverlappedCountState<V> {
    pub windows: Seq<CountState<V>>,
    pub skip: nat,
    pub skip_count: nat,
    pub max_count: nat,
}

/// Every window of `ws` after receiving `v`.
pub open spec fn count_windows_with<V>(ws: Seq<CountState<V>>, v: V) -> Seq<CountState<V>> {
    Seq::new(ws.len(), |i: int| CountState { held: ws[i].held.push(v), max_count: ws[i].max_count })
}

/// Whether the oldest count window is full.
pub open spec fn front_full<V>(s: OverlappedCountState<V>) -> bool {
    s.windows.len() > 0 && s.windows[0].held.len() == s.windows[0].max_count
}

/// The layout of overlapping count windows with `1 <= skip <= max_count`: every window
/// has the common size; each window holds what the one before it holds, less its first
/// `skip` items (so two windows next to each other share `max_count - skip` items once
/// the older is full); and the newest one holds the items counted since it opened,
/// fewer than `skip`.
pub open spec fn count_windows_ok<V>(s: OverlappedCountState<V>) -> bool {
    &&& 1 <= s.skip <= s.max_count
    &&& s.skip_count < s.skip
    &&& s.windows.len() > 0
    &&& s.windows.last().held.len() == s.skip_count
    &&& forall|i: int| 0 <= i < s.windows.len() ==> (#[trigger] s.windows[i]).max_count == s.max_count
    &&& forall|i: int|
        0 <= i < s.windows.len() - 1 ==> (#[trigger] s.windows[i]).held.len() == s.windows[i
            + 1].held.len() + s.skip && s.windows[i + 1].held == s.windows[i].held.subrange(
            s.skip as int,
            s.windows[i].held.len() as int,
        )
}

/// With `1 <= skip <= max_count`, a live overlapping count buffer always has a window
/// open: insertions and flush checks keep the layout, so no item arrives while no
/// window is open (and `lossless` stays true up to the first drain check).
pub proof fn count_windows_stay_open<V: Copy>(s: OverlappedCountState<V>, v: V, now: u64, tick: bool)
    requires
        count_windows_ok(s),
    ensures
        count_windows_ok(OverlappedCountBuffer::<V>::after_insert(s, v, now)),
        count_windows_ok(OverlappedCountBuffer::<V>::after_flush(s, tick)),
{
    let t = OverlappedCountBuffer::<V>::after_insert(s, v, now);
    let ws = count_windows_with(s.windows, v);
    assert forall|i: int| 0 <= i < ws.len() - 1 implies (#[trigger] ws[i]).held.len()
        == ws[i + 1].held.len() + s.skip && ws[i + 1].held == ws[i].held.subrange(
        s.skip as int,
        ws[i].held.len() as int,
    ) by {
        assert(ws[i + 1].held =~= ws[i].held.subrange(s.skip as int, ws[i].held.len() as int));
    }
    if s.skip_count + 1 >= s.skip {
        let fresh = CountState { held: Seq::<V>::empty(), max_count: s.max_count };
        assert(t.windows == ws.push(fresh));
        assert(t.windows.last().held.len() == 0);
        assert forall|i: int| 0 <= i < t.windows.len() implies (#[trigger] t.windows[i]).max_count
            == t.max_count by {
            if i < ws.len() {
                assert(t.windows[i] == ws[i]);
            }
        }
        let last = ws[ws.len() - 1];
        assert(last.held.len() == s.skip);
        assert(fresh.held =~= last.held.subrange(s.skip as int, last.held.len() as int));
        assert forall|i: int| 0 <= i < t.windows.len() - 1 implies (#[trigger] t.windows[i]).held.len()
            == t.windows[i + 1].held.len() + t.skip && t.windows[i + 1].held
            == t.windows[i].held.subrange(t.skip as int, t.windows[i].held.len() as int) by {
            assert(t.windows[i] == ws[i]);
            if i + 1 < ws.len() {
                assert(t.windows[i + 1] == ws[i + 1]);
            }
        }
    } else {
        assert(t.windows == ws);
        assert(t.windows.last() == ws[ws.len() - 1]);
    }
    if front_full(s) {
        assert(s.windows.len() >= 2);
        let f = OverlappedCountBuffer::<V>::after_flush(s, tick);
        assert(f.windows == s.windows.drop_first());
        assert(f.windows.last() == s.windows.last());
        assert forall|i: int| 0 <= i < f.windows.len() implies (#[trigger] f.windows[i]).max_count
            == f.max_count by {
            assert(f.windows[i] == s.windows[i + 1]);
        }
        assert forall|i: int| 0 <= i < f.windows.len() - 1 implies (#[trigger] f.windows[i]).held.len()
            == f.windows[i + 1].held.len() + f.skip && f.windows[i + 1].held
            == f.windows[i].held.subrange(f.skip as int, f.windows[i].held.len() as int) by {
            assert(f.windows[i] == s.windows[i + 1]);
            assert(f.windows[i + 1] == s.windows[i + 2]);
        }
    }
}

/// A window that has handed out nothing holds everything it was given.
proof fn lemma_window_holds_all<V>(w: SimpleCountBuffer<V>)
    requires
        w.wf(),
        w.emitted().len() == 0,
    ensures
        w.held() == w.inserted(),
{
    count_batches_reproduce_input(&w);
    assert(w.emitted() =~= Seq::<Seq<V>>::empty());
    assert(w.emitted().flatten() + w.held() =~= w.held());
}

/// What the batches handed out so far are known to contain, in order: everything before
/// the oldest open window, or everything if no window is open.
pub open spec fn covered_prefix<V>(inserted: Seq<V>, windows: Seq<SimpleCountBuffer<V>>) -> Seq<V> {
    if windows.len() > 0 {
        inserted.subrange(0, inserted.len() - windows[0].inserted().len())
    } else {
        inserted
    }
}

impl<V: Copy> Buffer<V> for OverlappedBuffer<
    V,
    SimpleCountBuffer<V>,
    CountBufferOpener,
    CountBufferCreator,
> {
    type State = OverlappedCountState<V>;

    closed spec fn state(&self) -> OverlappedCountState<V> {
        OverlappedCountState {
            windows: Seq::new(self.buffers@.len(), |i: int| self.buffers@[i].state()),
            skip: self.opener.skip(),
            skip_count: self.opener.skip_count(),
            max_count: self.creator.max_count(),
        }
    }

    /// Each open window is fresh (it has handed out nothing), has the creator's size and
    /// holds the latest items, from the one that arrived after it opened; and while
    /// nothing has been lost, the batches contain the covered prefix.
    closed spec fn wf(&self) -> bool {
        let n = self.inserted@.len() as int;
        let w = self.buffers@;
        &&& self.opener.wf()
        &&& forall|j: int|
            0 <= j < w.len() ==> {
                &&& (#[trigger] w[j]).wf()
                &&& w[j].emitted().len() == 0
                &&& w[j].inserted().len() <= n
                &&& w[j].inserted() == self.inserted@.subrange(n - w[j].inserted().len(), n)
                &&& w[j].max_count() == self.creator.max_count()
            }
        &&& self.lossless@ ==> is_subseq(covered_prefix(self.inserted@, w), self.emitted@.flatten())
    }

    closed spec fn inserted(&self) -> Seq<V> {
        self.inserted@
    }

    closed spec fn emitted(&self) -> Seq<Seq<V>> {
        self.emitted@
    }

    /// Every item so far arrived while some window was open.
    closed spec fn lossless(&self) -> bool {
        self.lossless@
    }

    open spec fn keeps(s: OverlappedCountState<V>) -> bool {
        s.windows.len() > 0
    }

    open spec fn controlled(s: OverlappedCountState<V>) -> bool {
        false
    }

    open spec fn after_insert(s: OverlappedCountState<V>, v: V, now: u64) -> OverlappedCountState<V> {
        let ws = count_windows_with(s.windows, v);
        if s.skip > 0 && s.skip_count + 1 >= s.skip {
            OverlappedCountState {
                windows: ws.push(CountState { held: Seq::empty(), max_count: s.max_count }),
                skip_count: 0,
                ..s
            }
        } else if s.skip == 0 {
            OverlappedCountState { windows: ws, ..s }
        } else {
            OverlappedCountState { windows: ws, skip_count: s.skip_count + 1, ..s }
        }
    }

    open spec fn flush(s: OverlappedCountState<V>, tick: bool) -> Option<Seq<V>> {
        if front_full(s) {
            Some(s.windows[0].held)
        } else {
            None
        }
    }

    open spec fn after_flush(s: OverlappedCountState<V>, tick: bool) -> OverlappedCountState<V> {
        if front_full(s) {
            OverlappedCountState { windows: s.windows.drop_first(), ..s }
        } else {
            s
        }
    }

    open spec fn drain(s: OverlappedCountState<V>, tick: bool) -> Option<Seq<V>> {
        if s.windows.len() > 0 {
            Some(s.windows[0].held)
        } else {
            None
        }
    }

    open spec fn after_drain(s: OverlappedCountState<V>, tick: bool) -> OverlappedCountState<V> {
        if s.windows.len() > 0 {
            OverlappedCountState { windows: s.windows.drop_first(), ..s }
        } else {
            s
        }
    }

    fn is_controlled(&self) -> (r: bool) {
        false
    }

    fn insert(&mut self, v: V, now: u64) {
        let ghost old_n = self.inserted@.len();
        let ghost old_state = self.state();
        let ghost had_window = self.buffers@.len() > 0;
        let n = self.buffers.len();
        self.insert_all(v, now);
        self.inserted = Ghost(self.inserted@.push(v));
        proof {
            self.lossless@ = self.lossless@ && had_window;
        }
        let ghost before = self.buffers@;
        let opened = self.opener.check_open(now);
        if opened {
            self.open_window(now);
        }
        proof {
            let ins = self.inserted@;
            let w = self.buffers@;
            assert forall|k: int| 0 <= k < n implies #[trigger] w[k] == before[k] by {}
            assert forall|j: int| 0 <= j < w.len() implies {
                &&& (#[trigger] w[j]).wf()
                &&& w[j].emitted().len() == 0
                &&& w[j].inserted().len() <= ins.len()
                &&& w[j].inserted() == ins.subrange(ins.len() - w[j].inserted().len(), ins.len() as int)
                &&& w[j].max_count() == self.creator.max_count()
            } by {
                if j < n {
                    let ow = old(self).buffers@[j];
                    let l = ow.inserted().len();
                    assert(ins.subrange(ins.len() - w[j].inserted().len(), ins.len() as int)
                        =~= old(self).inserted@.subrange(old_n - l, old_n as int).push(v));
                } else {
                    assert(ins.subrange(ins.len() - 0, ins.len() as int) =~= Seq::<V>::empty());
                }
            }
            if had_window {
                let l0 = old(self).buffers@[0].inserted().len();
                assert(ins.subrange(0, ins.len() - w[0].inserted().len())
                    =~= old(self).inserted@.subrange(0, old_n - l0));
            }
            let target = Self::after_insert(old_state, v, now);
            let ws = count_windows_with(old_state.windows, v);
            assert forall|k: int| 0 <= k < n implies #[trigger] self.state().windows[k] == ws[k] by {}
            if opened {
                assert(self.state().windows =~= ws.push(
                    CountState { held: Seq::<V>::empty(), max_count: old_state.max_count },
                ));
            } else {
                assert(self.state().windows =~= ws);
            }
            assert(self.state() == target);
        }
    }

    fn poll_buffer(&mut self, tick: bool) -> (r: Option<Vec<V>>) {
        let ghost old_state = self.state();
        if self.buffers.len() == 0 {
            return None;
        }
        let ghost w0 = self.buffers@;
        let r = self.buffers[0].poll_buffer(false);
        match r {
            Some(batch) => {
                proof {
                    lemma_window_holds_all(w0[0]);
                }
                self.buffers.remove(0);
                proof {
                    assert(self.buffers@ =~= w0.drop_first());
                    self.pop_keeps_coverage(w0, batch@);
                    assert(self.state().windows =~= old_state.windows.drop_first());
                }
                self.emitted = Ghost(self.emitted@.push(batch@));
                Some(batch)
            },
            None => {
                proof {
                    assert(self.buffers@ =~= w0.update(0, self.buffers@[0]));
                    assert(self.state().windows =~= old_state.windows);
                }
                None
            },
        }
    }

    fn poll_buffer_after_done(&mut self, tick: bool) -> (r: Option<Vec<V>>) {
        let ghost old_state = self.state();
        if self.buffers.len() == 0 {
            return None;
        }
        let ghost w0 = self.buffers@;
        let mut front = self.buffers.remove(0);
        proof {
            assert(self.buffers@ =~= w0.drop_first());
            assert(front == w0[0]);
            lemma_window_holds_all(front);
        }
        let batch = match front.poll_buffer_after_done(false) {
            Some(b) => b,
            None => Vec::new(),
        };
        proof {
            assert(batch@ =~= w0[0].held());
            self.pop_keeps_coverage(w0, batch@);
            assert(self.state().windows =~= old_state.windows.drop_first());
        }
        self.emitted = Ghost(self.emitted@.push(batch@));
        Some(batch)
    }
}

impl<V: Copy> OverlappedBuffer<V, SimpleCountBuffer<V>, CountBufferOpener, CountBufferCreator> {
    /// Handing out the oldest window's whole content keeps the batches covering the
    /// items, up to the next window.
    proof fn pop_keeps_coverage(&self, w0: Seq<SimpleCountBuffer<V>>, batch: Seq<V>)
        requires
            w0.len() > 0,
            self.buffers@ == w0.drop_first(),
            batch == w0[0].inserted(),
            w0[0].inserted().len() <= self.inserted@.len(),
            w0[0].inserted() == self.inserted@.subrange(
                self.inserted@.len() - w0[0].inserted().len(),
                self.inserted@.len() as int,
            ),
            forall|j: int|
                0 <= j < self.buffers@.len() ==> (#[trigger] self.buffers@[j]).inserted().len()
                    <= self.inserted@.len(),
            self.lossless@ ==> is_subseq(covered_prefix(self.inserted@, w0), self.emitted@.flatten()),
        ensures
            self.lossless@ ==> is_subseq(
                covered_prefix(self.inserted@, self.buffers@),
                self.emitted@.push(batch).flatten(),
            ),
    {
        if self.lossless@ {
            let ins = self.inserted@;
            let n = ins.len();
            let s0 = n - w0[0].inserted().len();
            lemma_subseq_append(ins.subrange(0, s0), self.emitted@.flatten(), batch);
            assert(ins.subrange(0, s0) + batch =~= ins);
            self.emitted@.lemma_flatten_push(batch);
            if self.buffers@.len() > 0 {
                let s1 = n - self.buffers@[0].inserted().len();
                lemma_subseq_prefix(ins, self.emitted@.push(batch).flatten(), s1);
            }
        }
    }

    /// Count windows: the first opens at once, the next after every `skip` insertions.
    pub fn new(max_count: usize, skip: usize) -> (r: Self)
        ensures
            r.wf(),
            r.state() == (OverlappedCountState::<V> {
                windows: seq![CountState { held: Seq::empty(), max_count: max_count as nat }],
                skip: skip as nat,
                skip_count: 0,
                max_count: max_count as nat,
            }),
            r.inserted().len() == 0,
            r.emitted().len() == 0,
            r.lossless(),
            1 <= skip <= max_count ==> count_windows_ok(r.state()),
    {
        let mut r = OverlappedBuffer::empty(
            CountBufferOpener::new(skip),
            CountBufferCreator::new(max_count),
        );
        r.open_window(0);
        proof {
            let w = r.buffers@;
            assert(w[0] == w.last());
            lemma_window_holds_all(w[0]);
            lemma_subseq_refl(Seq::<V>::empty());
            assert(r.inserted@.subrange(0, 0) =~= Seq::<V>::empty());
            assert(w[0].inserted() =~= r.inserted@.subrange(0, 0));
            assert(covered_prefix(r.inserted@, w) =~= Seq::<V>::empty());
            assert(r.emitted@.flatten() =~= Seq::<V>::empty());
            assert(r.state().windows =~= seq![
                CountState { held: Seq::<V>::empty(), max_count: max_count as nat },
            ]);
        }
        r
    }
}

/// Overlapping count windows keep every item: while nothing has been lost, once every
/// window has been handed out, the batches, concatenated in order, contain every item
/// inserted, in order. Nothing is lost as long as a window is open at each insertion,
/// which `count_windows_stay_open` shows for `1 <= skip <= max_count` until the first
/// drain check.
pub proof fn overlapped_count_batches_cover_input<V: Copy>(b: &OverlappedCountBuffer<V>)
    requires
        b.wf(),
        b.lossless(),
        b.state().windows.len() == 0,
    ensures
        is_subseq(b.inserted(), b.emitted().flatten()),
{
}

/// Windows of `max_count` items, a new one starting every `skip` items.
pub type OverlappedCountBuffer<V> = OverlappedBuffer<
    V,
    SimpleCountBuffer<V>,
    CountBufferOpener,
    CountBufferCreator,
>;

/// Opens a window whenever `period` milliseconds have passed since the last one opened.
#[derive(Debug)]
pub struct TimeBufferOpener {
    period: u64,
    last_check: u64,
}

impl TimeBufferOpener {
    pub closed spec fn period(&self) -> u64 {
        self.period
    }

    /// When the last window opened.
    pub closed spec fn last_check(&self) -> u64 {
        self.last_check
    }

    /// An opener whose last window opened at `now`.
    pub fn new(period: u64, now: u64) -> (r: Self)
        ensures
            r.period() == period,
            r.last_check() == now,
    {
        TimeBufferOpener { period, last_check: now }
    }
}

impl BufferOpener for TimeBufferOpener {
    closed spec fn opens(&self, now: u64) -> bool {
        now >= self.last_check.saturating_add(self.period)
    }

    fn check_open(&mut self, now: u64) -> (r: bool)
        ensures
            r == (now >= old(self).last_check().saturating_add(old(self).period())),
            final(self).period() == old(self).period(),
            final(self).last_check() == (if r {
                now
            } else {
                old(self).last_check()
            }),
    {
        if now >= self.last_check.saturating_add(self.period) {
            self.last_check = now;
            true
        } else {
            false
        }
    }
}

/// Makes timer-controlled windows that span `time_span` milliseconds.
#[derive(Debug)]
pub struct TimeBufferCreator {
    time_span: u64,
}

impl TimeBufferCreator {
    pub closed spec fn time_span(&self) -> u64 {
        self.time_span
    }

    pub fn new(time_span: u64) -> (r: Self)
        ensures
            r.time_span() == time_span,
    {
        TimeBufferCreator { time_span }
    }
}

impl<V> BufferCreator<V> for TimeBufferCreator {
    type B = StreamControlledBuffer<V>;

    open spec fn makes(&self, b: StreamControlledBuffer<V>, now: u64) -> bool {
        b.state() == Seq::<V>::empty() && b.period() == Some(self.time_span())
    }

    fn new_buffer(&mut self, now: u64) -> (r: StreamControlledBuffer<V>) {
        new_simple_time_buffer(self.time_span)
    }
}

/// The state of overlapping time windows: what each window holds, oldest first, the
/// opener's period and the time the last window opened, and the span of each window.
/// Each window is flushed by a timer of its own, of period `time_span`, started when the
/// window opened and run by the driver; only the oldest window's timer is polled.
pub struct OverlappedTimeState<V> {
    pub windows: Seq<Seq<V>>,
    pub period: u64,
    pub last_check: u64,
    pub time_span: u64,
}

/// Every window of `ws` after receiving `v`.
pub open spec fn timed_windows_with<V>(ws: Seq<Seq<V>>, v: V) -> Seq<Seq<V>> {
    Seq::new(ws.len(), |i: int| ws[i].push(v))
}

impl<V: Copy> Buffer<V> for OverlappedBuffer<
    V,
    StreamControlledBuffer<V>,
    TimeBufferOpener,
    TimeBufferCreator,
> {
    type State = OverlappedTimeState<V>;

    closed spec fn state(&self) -> OverlappedTimeState<V> {
        OverlappedTimeState {
            windows: Seq::new(self.buffers@.len(), |i: int| self.buffers@[i].state()),
            period: self.opener.period(),
            last_check: self.opener.last_check(),
            time_span: self.creator.time_span(),
        }
    }

    closed spec fn wf(&self) -> bool {
        forall|j: int| 0 <= j < self.buffers@.len() ==> (#[trigger] self.buffers@[j]).wf()
    }

    closed spec fn inserted(&self) -> Seq<V> {
        self.inserted@
    }

    closed spec fn emitted(&self) -> Seq<Seq<V>> {
        self.emitted@
    }

    /// Time windows make no such promise: an item that arrives while no window is open,
    /// or a window drained before its tick, is dropped.
    open spec fn lossless(&self) -> bool {
        false
    }

    open spec fn keeps(s: OverlappedTimeState<V>) -> bool {
        s.windows.len() > 0
    }

    /// A check polls the oldest window's timer, if a window is open.
    open spec fn controlled(s: OverlappedTimeState<V>) -> bool {
        s.windows.len() > 0
    }

    open spec fn after_insert(s: OverlappedTimeState<V>, v: V, now: u64) -> OverlappedTimeState<V> {
        let ws = timed_windows_with(s.windows, v);
        if now >= s.last_check.saturating_add(s.period) {
            OverlappedTimeState { windows: ws.push(Seq::empty()), last_check: now, ..s }
        } else {
            OverlappedTimeState { windows: ws, ..s }
        }
    }

    /// The oldest window hands out what it holds when its timer ticked.
    open spec fn flush(s: OverlappedTimeState<V>, tick: bool) -> Option<Seq<V>> {
        if s.windows.len() > 0 && tick {
            Some(s.windows[0])
        } else {
            None
        }
    }

    open spec fn after_flush(s: OverlappedTimeState<V>, tick: bool) -> OverlappedTimeState<V> {
        if s.windows.len() > 0 && tick {
            OverlappedTimeState { windows: s.windows.drop_first(), ..s }
        } else {
            s
        }
    }

    /// The oldest window leaves: with what it holds if its timer ticked, else with an
    /// empty batch.
    open spec fn drain(s: OverlappedTimeState<V>, tick: bool) -> Option<Seq<V>> {
        if s.windows.len() > 0 {
            Some(
                if tick {
                    s.windows[0]
                } else {
                    Seq::empty()
                },
            )
        } else {
            None
        }
    }

    open spec fn after_drain(s: OverlappedTimeState<V>, tick: bool) -> OverlappedTimeState<V> {
        if s.windows.len() > 0 {
            OverlappedTimeState { windows: s.windows.drop_first(), ..s }
        } else {
            s
        }
    }

    fn is_controlled(&self) -> (r: bool) {
        self.buffers.len() > 0
    }

    fn insert(&mut self, v: V, now: u64) {
        let ghost old_state = self.state();
        let n = self.buffers.len();
        self.insert_all(v, now);
        self.inserted = Ghost(self.inserted@.push(v));
        let opened = self.opener.check_open(now);
        if opened {
            self.open_window(now);
        }
        proof {
            let ws = timed_windows_with(old_state.windows, v);
            assert forall|k: int| 0 <= k < n implies #[trigger] self.state().windows[k] == ws[k] by {}
            if opened {
                assert(self.state().windows =~= ws.push(Seq::<V>::empty()));
            } else {
                assert(self.state().windows =~= ws);
            }
        }
    }

    fn poll_buffer(&mut self, tick: bool) -> (r: Option<Vec<V>>) {
        let ghost old_state = self.state();
        if self.buffers.len() == 0 {
            return None;
        }
        let ghost w0 = self.buffers@;
        let r = self.buffers[0].poll_buffer(tick);
        match r {
            Some(batch) => {
                self.buffers.remove(0);
                proof {
                    assert(self.buffers@ =~= w0.drop_first());
                    assert(self.state().windows =~= old_state.windows.drop_first());
                }
                self.emitted = Ghost(self.emitted@.push(batch@));
                Some(batch)
            },
            None => {
                proof {
                    assert(self.buffers@ =~= w0.update(0, self.buffers@[0]));
                    assert(self.state().windows =~= old_state.windows);
                }
                None
            },
        }
    }

    fn poll_buffer_after_done(&mut self, tick: bool) -> (r: Option<Vec<V>>) {
        let ghost old_state = self.state();
        if self.buffers.len() == 0 {
            return None;
        }
        let ghost w0 = self.buffers@;
        let mut front = self.buffers.remove(0);
        proof {
            assert(self.buffers@ =~= w0.drop_first());
            assert(front == w0[0]);
        }
        let batch = match front.poll_buffer_after_done(tick) {
            Some(b) => b,
            None => Vec::new(),
        };
        proof {
            assert(self.state().windows =~= old_state.windows.drop_first());
            if !tick {
                assert(batch@ =~= Seq::<V>::empty());
            }
        }
        self.emitted = Ghost(self.emitted@.push(batch@));
        Some(batch)
    }
}

impl<V: Copy> OverlappedBuffer<V, StreamControlledBuffer<V>, TimeBufferOpener, TimeBufferCreator> {
    /// Time windows: the first opens at `now`, the next ones every `creation_interval`.
    pub fn new(time_span: u64, creation_interval: u64, now: u64) -> (r: Self)
        ensures
            r.wf(),
            r.state() == (OverlappedTimeState::<V> {
                windows: seq![Seq::empty()],
                period: creation_interval,
                last_check: now,
                time_span,
            }),
            r.inserted().len() == 0,
            r.emitted().len() == 0,
    {
        let mut r = OverlappedBuffer::empty(
            TimeBufferOpener::new(creation_interval, now),
            TimeBufferCreator::new(time_span),
        );
        r.open_window(now);
        proof {
            assert(r.buffers@[0] == r.buffers@.last());
            assert(r.state().windows =~= seq![Seq::<V>::empty()]);
        }
        r
    }
}

/// Windows spanning `time_span`, a new one opening every `creation_interval`.
pub type OverlappedTimeBuffer<V> = OverlappedBuffer<
    V,
    StreamControlledBuffer<V>,
    TimeBufferOpener,
    TimeBufferCreator,
>;

} // verus!
