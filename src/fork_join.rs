use vstd::prelude::*;

use crate::fuse::Fuse;
use crate::outcome::{Outcome, Step};

verus! {

/// Runs two upstreams to completion, then emits the pair of their last values once, or
/// nothing if either produced no value.
#[derive(Debug)]
pub struct ForkJoin<A, B> {
    first: Fuse,
    second: Fuse,
    last_first: Option<A>,
    last_second: Option<B>,
    asking: Option<usize>,
    answered: bool,
}

impl<A, B> ForkJoin<A, B> {
    pub closed spec fn wf(&self) -> bool {
        &&& self.asking == Some(0usize) ==> !self.first.done()
        &&& self.asking == Some(1usize) ==> !self.second.done()
        &&& self.asking is Some ==> self.asking->Some_0 < 2
    }

    pub closed spec fn first_done(&self) -> bool {
        self.first.done()
    }

    pub closed spec fn second_done(&self) -> bool {
        self.second.done()
    }

    pub closed spec fn last_first(&self) -> Option<A> {
        self.last_first
    }

    pub closed spec fn last_second(&self) -> Option<B> {
        self.last_second
    }

    /// The upstream whose answer is awaited, if any.
    pub closed spec fn asking(&self) -> Option<usize> {
        self.asking
    }

    /// Whether the joined pair, or the end, has been reported.
    pub closed spec fn answered(&self) -> bool {
        self.answered
    }

    pub fn new() -> (r: ForkJoin<A, B>)
        ensures
            r.wf(),
            !r.first_done(),
            !r.second_done(),
            r.last_first() is None,
            r.last_second() is None,
            r.asking() is None,
            !r.answered(),
    {
        ForkJoin {
            first: Fuse::new(),
            second: Fuse::new(),
            last_first: None,
            last_second: None,
            asking: None,
            answered: false,
        }
    }

    pub fn awaiting(&self) -> (r: Option<usize>)
        ensures
            r == self.asking(),
    {
        self.asking
    }

    /// Asks for the first live upstream from `from` on; when both are done, emits the
    /// pair of last values once.
    fn next_from(&mut self, from: usize) -> (r: Step<(A, B)>)
        requires
            from <= 1,
        ensures
            final(self).first_done() == old(self).first_done(),
            final(self).second_done() == old(self).second_done(),
            final(self).wf(),
            ({
                let both = old(self).first_done() && old(self).second_done();
                if from == 0 && !old(self).first_done() {
                    &&& r == Step::<(A, B)>::Pull(0)
                    &&& final(self).asking() == Some(0usize)
                    &&& final(self).last_first() == old(self).last_first()
                    &&& final(self).last_second() == old(self).last_second()
                    &&& final(self).answered() == old(self).answered()
                } else if !old(self).second_done() {
                    &&& r == Step::<(A, B)>::Pull(1)
                    &&& final(self).asking() == Some(1usize)
                    &&& final(self).last_first() == old(self).last_first()
                    &&& final(self).last_second() == old(self).last_second()
                    &&& final(self).answered() == old(self).answered()
                } else if !old(self).first_done() {
                    &&& r == Step::<(A, B)>::Wait
                    &&& final(self).asking() is None
                    &&& final(self).last_first() == old(self).last_first()
                    &&& final(self).last_second() == old(self).last_second()
                    &&& final(self).answered() == old(self).answered()
                } else {
                    &&& final(self).asking() is None
                    &&& final(self).answered()
                    &&& r == (if !old(self).answered() && old(self).last_first() is Some
                        && old(self).last_second() is Some {
                        Step::Emit((old(self).last_first()->Some_0, old(self).last_second()->Some_0))
                    } else {
                        Step::Finish
                    })
                }
            }),
    {
        if from == 0 && !self.first.is_done() {
            self.asking = Some(0);
            return Step::Pull(0);
        }
        if !self.second.is_done() {
            self.asking = Some(1);
            return Step::Pull(1);
        }
        self.asking = None;
        if !self.first.is_done() {
            return Step::Wait;
        }
        if self.answered {
            return Step::Finish;
        }
        self.answered = true;
        let a = self.last_first.take();
        let b = self.last_second.take();
        match (a, b) {
            (Some(x), Some(y)) => Step::Emit((x, y)),
            _ => Step::Finish,
        }
    }

    /// Begins a turn: asks for the first live upstream, or reports the result once both
    /// are complete.
    pub fn start(&mut self) -> (r: Step<(A, B)>)
        ensures
            final(self).wf(),
            final(self).first_done() == old(self).first_done(),
            final(self).second_done() == old(self).second_done(),
            !old(self).first_done() ==> r == Step::<(A, B)>::Pull(0),
            old(self).first_done() && !old(self).second_done() ==> r == Step::<(A, B)>::Pull(1),
            old(self).first_done() && old(self).second_done() ==> r == (if !old(self).answered()
                && old(self).last_first() is Some && old(self).last_second() is Some {
                Step::Emit((old(self).last_first()->Some_0, old(self).last_second()->Some_0))
            } else {
                Step::Finish
            }),
            r is Pull ==> final(self).asking() == Some(r->Pull_0),
            !(r is Pull) ==> final(self).asking() is None,
            final(self).answered() == (old(self).answered() || r is Emit || r is Finish),
            r is Pull ==> final(self).last_first() == old(self).last_first()
                && final(self).last_second() == old(self).last_second(),
    {
        self.next_from(0)
    }

    /// Takes the first upstream's answer. An item replaces its last value and the same
    /// upstream is asked again; otherwise the second upstream is asked, if live.
    pub fn feed_first(&mut self, pulled: Outcome<A>) -> (r: Step<(A, B)>)
        requires
            old(self).wf(),
            old(self).asking() == Some(0usize),
        ensures
            final(self).wf(),
            final(self).first_done() == pulled is Done,
            final(self).second_done() == old(self).second_done(),
            pulled is Ready ==> final(self).last_first() == Some(pulled->Ready_0) && r
                == Step::<(A, B)>::Pull(0),
            !(pulled is Ready) && !old(self).second_done() ==> r == Step::<(A, B)>::Pull(1),
            pulled is Pending && old(self).second_done() ==> r == Step::<(A, B)>::Wait,
            pulled is Done && old(self).second_done() ==> r == (if !old(self).answered()
                && old(self).last_first() is Some && old(self).last_second() is Some {
                Step::Emit((old(self).last_first()->Some_0, old(self).last_second()->Some_0))
            } else {
                Step::Finish
            }),
            r is Pull ==> final(self).asking() == Some(r->Pull_0),
            !(r is Pull) ==> final(self).asking() is None,
            final(self).answered() == (old(self).answered() || r is Emit || r is Finish),
            !(r is Emit || r is Finish) ==> final(self).last_first() == (if pulled is Ready {
                Some(pulled->Ready_0)
            } else {
                old(self).last_first()
            }) && final(self).last_second() == old(self).last_second(),
    {
        match self.first.poll(pulled) {
            Outcome::Ready(x) => {
                self.last_first = Some(x);
                self.asking = Some(0);
                Step::Pull(0)
            },
            _ => self.next_from(1),
        }
    }

    /// Takes the second upstream's answer. An item replaces its last value and the same
    /// upstream is asked again; otherwise the turn ends, or the result is reported once
    /// both upstreams are complete.
    pub fn feed_second(&mut self, pulled: Outcome<B>) -> (r: Step<(A, B)>)
        requires
            old(self).wf(),
            old(self).asking() == Some(1usize),
        ensures
            final(self).wf(),
            final(self).first_done() == old(self).first_done(),
            final(self).second_done() == pulled is Done,
            pulled is Ready ==> final(self).last_second() == Some(pulled->Ready_0) && r
                == Step::<(A, B)>::Pull(1),
            pulled is Pending ==> r == Step::<(A, B)>::Wait,
            pulled is Done && !old(self).first_done() ==> r == Step::<(A, B)>::Wait,
            pulled is Done && old(self).first_done() ==> r == (if !old(self).answered()
                && old(self).last_first() is Some && old(self).last_second() is Some {
                Step::Emit((old(self).last_first()->Some_0, old(self).last_second()->Some_0))
            } else {
                Step::Finish
            }),
            r is Pull ==> final(self).asking() == Some(r->Pull_0),
            !(r is Pull) ==> final(self).asking() is None,
            final(self).answered() == (old(self).answered() || r is Emit || r is Finish),
            !(r is Emit || r is Finish) ==> final(self).last_second() == (if pulled is Ready {
                Some(pulled->Ready_0)
            } else {
                old(self).last_second()
            }) && final(self).last_first() == old(self).last_first(),
    {
        match self.second.poll(pulled) {
            Outcome::Ready(x) => {
                self.last_second = Some(x);
                self.asking = Some(1);
                Step::Pull(1)
            },
            Outcome::Pending => {
                self.asking = None;
                Step::Wait
            },
            Outcome::Done => self.next_from(1),
        }
    }
}

/// A fork-join of two upstreams.
pub fn fork_join<A, B>() -> (r: ForkJoin<A, B>)
    ensures
        r.wf(),
        !r.first_done(),
        !r.second_done(),
        r.last_first() is None,
        r.last_second() is None,
        r.asking() is None,
        !r.answered(),
{
    ForkJoin::new()
}

} // verus!
