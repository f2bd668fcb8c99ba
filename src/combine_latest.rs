use vstd::prelude::*;

use crate::fuse::Fuse;
use crate::outcome::{is_fresh, refreshed, Outcome};

verus! {

/// When a combine-latest over two upstreams ends: one upstream finished without ever
/// producing a value, or both finished.
pub open spec fn pair_ends<A, B>(done1: bool, done2: bool, l1: Option<A>, l2: Option<B>) -> bool {
    (done1 && done2) || (done1 && l1 is None) || (done2 && l2 is None)
}

/// What a combine-latest over two upstreams answers after a turn, given the upstreams'
/// completion flags and latest values after the turn, and whether either brought a new value.
pub open spec fn pair_answer<A, B>(
    done1: bool,
    done2: bool,
    l1: Option<A>,
    l2: Option<B>,
    fresh: bool,
) -> Outcome<(A, B)> {
    if l1 is Some && l2 is Some && fresh {
        Outcome::Ready((l1->Some_0, l2->Some_0))
    } else if pair_ends(done1, done2, l1, l2) {
        Outcome::Done
    } else {
        Outcome::Pending
    }
}

/// Combines the latest values of two upstreams into pairs.
#[derive(Debug)]
pub struct CombineLatest<A, B> {
    first: Fuse,
    second: Fuse,
    latest_first: Option<A>,
    latest_second: Option<B>,
}

impl<A: Copy, B: Copy> CombineLatest<A, B> {
    pub closed spec fn first_done(&self) -> bool {
        self.first.done()
    }

    pub closed spec fn second_done(&self) -> bool {
        self.second.done()
    }

    pub closed spec fn latest_first(&self) -> Option<A> {
        self.latest_first
    }

    pub closed spec fn latest_second(&self) -> Option<B> {
        self.latest_second
    }

    pub fn new() -> (r: CombineLatest<A, B>)
        ensures
            !r.first_done(),
            !r.second_done(),
            r.latest_first() is None,
            r.latest_second() is None,
    {
        CombineLatest {
            first: Fuse::new(),
            second: Fuse::new(),
            latest_first: None,
            latest_second: None,
        }
    }

    /// Whether the first upstream is still live and should be polled this turn.
    pub fn wants_first(&self) -> (r: bool)
        ensures
            r == !self.first_done(),
    {
        !self.first.is_done()
    }

    /// Whether the second upstream is still live and should be polled this turn.
    pub fn wants_second(&self) -> (r: bool)
        ensures
            r == !self.second_done(),
    {
        !self.second.is_done()
    }

    /// One turn: `first` and `second` are what the upstreams answered when polled, in
    /// that order. A finished upstream is not polled; its answer is ignored.
    pub fn poll(&mut self, first: Outcome<A>, second: Outcome<B>) -> (r: Outcome<(A, B)>)
        ensures
            final(self).first_done() == (old(self).first_done() || first is Done),
            final(self).second_done() == (old(self).second_done() || second is Done),
            final(self).latest_first() == refreshed(
                old(self).latest_first(),
                old(self).first_done(),
                first,
            ),
            final(self).latest_second() == refreshed(
                old(self).latest_second(),
                old(self).second_done(),
                second,
            ),
            r == pair_answer(
                final(self).first_done(),
                final(self).second_done(),
                final(self).latest_first(),
                final(self).latest_second(),
                is_fresh(old(self).first_done(), first) || is_fresh(old(self).second_done(), second),
            ),
    {
        let fresh1 = match self.first.poll(first) {
            Outcome::Ready(a) => {
                self.latest_first = Some(a);
                true
            },
            _ => false,
        };
        let fresh2 = match self.second.poll(second) {
            Outcome::Ready(b) => {
                self.latest_second = Some(b);
                true
            },
            _ => false,
        };
        let done1 = self.first.is_done();
        let done2 = self.second.is_done();
        match (self.latest_first, self.latest_second) {
            (Some(a), Some(b)) => {
                if fresh1 || fresh2 {
                    return Outcome::Ready((a, b));
                }
            },
            _ => {},
        }
        if (done1 && done2) || (done1 && self.latest_first.is_none()) || (done2
            && self.latest_second.is_none()) {
            Outcome::Done
        } else {
            Outcome::Pending
        }
    }
}

/// A combine-latest over two upstreams.
pub fn combine_latest<A: Copy, B: Copy>() -> (r: CombineLatest<A, B>)
    ensures
        !r.first_done(),
        !r.second_done(),
        r.latest_first() is None,
        r.latest_second() is None,
{
    CombineLatest::new()
}

/// Whether every upstream of a combine-latest has a latest value.
pub open spec fn all_filled<T>(latest: Seq<Option<T>>) -> bool {
    forall|i: int| 0 <= i < latest.len() ==> #[trigger] latest[i] is Some
}

/// When a combine-latest over many upstreams ends: some upstream finished without ever
/// producing a value, or all of them finished.
pub open spec fn all_end<T>(done: Seq<bool>, latest: Seq<Option<T>>) -> bool {
    (forall|i: int| 0 <= i < done.len() ==> #[trigger] done[i]) || (exists|i: int|
        0 <= i < done.len() && #[trigger] done[i] && latest[i] is None)
}

/// The latest values, one per upstream, once every upstream has one.
pub open spec fn latest_values<T>(latest: Seq<Option<T>>) -> Seq<T> {
    Seq::new(latest.len(), |i: int| latest[i]->Some_0)
}

/// Combines the latest values of any number of upstreams of one item type into vectors.
#[derive(Debug)]
pub struct CombineLatestVec<T> {
    fuses: Vec<Fuse>,
    latest: Vec<Option<T>>,
}

impl<T: Copy> CombineLatestVec<T> {
    pub closed spec fn wf(&self) -> bool {
        self.fuses@.len() == self.latest@.len()
    }

    /// Completion flag of each upstream.
    pub closed spec fn done(&self) -> Seq<bool> {
        Seq::new(self.fuses@.len(), |i: int| self.fuses@[i].done())
    }

    /// Latest value of each upstream.
    pub closed spec fn latest(&self) -> Seq<Option<T>> {
        self.latest@
    }

    pub fn new(width: usize) -> (r: CombineLatestVec<T>)
        ensures
            r.wf(),
            r.done() == Seq::new(width as nat, |i: int| false),
            r.latest() == Seq::new(width as nat, |i: int| None::<T>),
    {
        let mut fuses: Vec<Fuse> = Vec::new();
        let mut latest: Vec<Option<T>> = Vec::new();
        let mut i: usize = 0;
        while i < width
            invariant
                i <= width,
                fuses@.len() == i,
                latest@.len() == i,
                forall|k: int| 0 <= k < i ==> !(#[trigger] fuses@[k]).done(),
                forall|k: int| 0 <= k < i ==> (#[trigger] latest@[k]) is None,
            decreases width - i,
        {
            fuses.push(Fuse::new());
            latest.push(None);
            i = i + 1;
        }
        let r = CombineLatestVec { fuses, latest };
        assert(r.done() =~= Seq::new(width as nat, |i: int| false));
        assert(r.latest() =~= Seq::new(width as nat, |i: int| None::<T>));
        r
    }

    /// The number of upstreams.
    pub fn width(&self) -> (r: usize)
        requires
            self.wf(),
        ensures
            r == self.done().len(),
    {
        self.fuses.len()
    }

    /// Whether upstream `i` is still live and should be polled this turn.
    pub fn wants(&self, i: usize) -> (r: bool)
        requires
            self.wf(),
            i < self.done().len(),
        ensures
            r == !self.done()[i as int],
    {
        !self.fuses[i].is_done()
    }

    /// One turn: `pulled[i]` is what upstream `i` answered when polled, the upstreams
    /// being polled in index order. A finished upstream is not polled; its answer is
    /// ignored.
    pub fn poll(&mut self, pulled: &Vec<Outcome<T>>) -> (r: Outcome<Vec<T>>)
        requires
            old(self).wf(),
            pulled@.len() == old(self).done().len(),
        ensures
            final(self).wf(),
            final(self).done().len() == old(self).done().len(),
            final(self).latest().len() == old(self).done().len(),
            forall|i: int|
                0 <= i < pulled@.len() ==> #[trigger] final(self).done()[i] == (old(self).done()[i]
                    || pulled@[i] is Done),
            forall|i: int|
                0 <= i < pulled@.len() ==> #[trigger] final(self).latest()[i] == refreshed(
                    old(self).latest()[i],
                    old(self).done()[i],
                    pulled@[i],
                ),
            ({
                let fresh = exists|i: int|
                    0 <= i < pulled@.len() && is_fresh(old(self).done()[i], #[trigger] pulled@[i]);
                let emit = all_filled(final(self).latest()) && fresh;
                &&& r is Ready <==> emit
                &&& r is Ready ==> r->Ready_0@ == latest_values(final(self).latest())
                &&& r is Done <==> !emit && all_end(final(self).done(), final(self).latest())
            }),
    {
        let n = self.fuses.len();
        let ghost old_done = self.done();
        let ghost old_latest = self.latest();
        let mut fresh = false;
        let mut i: usize = 0;
        while i < n
            invariant
                self.wf(),
                n == self.fuses@.len(),
                n == pulled@.len(),
                old_done.len() == n,
                old_latest.len() == n,
                i <= n,
                forall|k: int|
                    0 <= k < i ==> (#[trigger] self.fuses@[k]).done() == (old_done[k]
                        || pulled@[k] is Done),
                forall|k: int| i <= k < n ==> (#[trigger] self.fuses@[k]).done() == old_done[k],
                forall|k: int|
                    0 <= k < i ==> #[trigger] self.latest@[k] == refreshed(
                        old_latest[k],
                        old_done[k],
                        pulled@[k],
                    ),
                forall|k: int| i <= k < n ==> #[trigger] self.latest@[k] == old_latest[k],
                fresh == exists|k: int| 0 <= k < i && is_fresh(old_done[k], #[trigger] pulled@[k]),
            decreases n - i,
        {
            let mut f = self.fuses[i];
            let answer = f.poll(pulled[i].copied());
            self.fuses.set(i, f);
            match answer {
                Outcome::Ready(x) => {
                    self.latest.set(i, Some(x));
                    fresh = true;
                },
                _ => {},
            }
            proof {
                assert(is_fresh(old_done[i as int], pulled@[i as int]) ==> fresh);
            }
            i = i + 1;
        }
        let mut filled = true;
        let mut all_done = true;
        let mut starved = false;
        let mut values: Vec<T> = Vec::new();
        let mut j: usize = 0;
        while j < n
            invariant
                self.wf(),
                n == self.fuses@.len(),
                j <= n,
                values@.len() == (if filled { j as int } else { values@.len() as int }),
                filled == forall|k: int| 0 <= k < j ==> (#[trigger] self.latest()[k]) is Some,
                filled ==> forall|k: int|
                    0 <= k < j ==> #[trigger] values@[k] == self.latest()[k]->Some_0,
                all_done == forall|k: int| 0 <= k < j ==> #[trigger] self.done()[k],
                starved == exists|k: int|
                    0 <= k < j && #[trigger] self.done()[k] && self.latest()[k] is None,
            decreases n - j,
        {
            assert(self.done()[j as int] == self.fuses@[j as int].done());
            match self.latest[j] {
                Some(x) => {
                    if filled {
                        values.push(x);
                    }
                },
                None => {
                    filled = false;
                    if self.fuses[j].is_done() {
                        starved = true;
                    }
                },
            }
            if !self.fuses[j].is_done() {
                all_done = false;
            }
            j = j + 1;
        }
        if filled && fresh {
            assert(values@ =~= latest_values(self.latest()));
            Outcome::Ready(values)
        } else if all_done || starved {
            Outcome::Done
        } else {
            Outcome::Pending
        }
    }
}

/// A combine-latest over `width` upstreams of one item type.
pub fn combine_latest_vec<T: Copy>(width: usize) -> (r: CombineLatestVec<T>)
    ensures
        r.wf(),
        r.done() == Seq::new(width as nat, |i: int| false),
        r.latest() == Seq::new(width as nat, |i: int| None::<T>),
{
    CombineLatestVec::new(width)
}

} // verus!
