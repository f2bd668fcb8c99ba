use vstd::prelude::*;

use crate::fuse::Fuse;
use crate::outcome::{Outcome, Step};

verus! {

/// Emits each item of an upstream together with the one before it.
#[derive(Debug)]
pub struct Pairwise<T> {
    s: Fuse,
    previous: Option<T>,
    asking: bool,
}

impl<T: Copy> Pairwise<T> {
    pub closed spec fn wf(&self) -> bool {
        self.asking ==> !self.s.done()
    }

    pub closed spec fn done(&self) -> bool {
        self.s.done()
    }

    /// The last item received, which waits for its successor.
    pub closed spec fn previous(&self) -> Option<T> {
        self.previous
    }

    /// Whether the upstream's answer is awaited.
    pub closed spec fn asking(&self) -> bool {
        self.asking
    }

    pub fn new() -> (r: Pairwise<T>)
        ensures
            r.wf(),
            !r.done(),
            r.previous() is None,
            !r.asking(),
    {
        Pairwise { s: Fuse::new(), previous: None, asking: false }
    }

    pub fn awaiting(&self) -> (r: bool)
        ensures
            r == self.asking(),
    {
        self.asking
    }

    /// Begins a turn: finishes if the upstream is done, else asks for a poll of it.
    pub fn start(&mut self) -> (r: Step<(T, T)>)
        requires
            old(self).wf(),
        ensures
            final(self).wf(),
            final(self).done() == old(self).done(),
            final(self).previous() == old(self).previous(),
            r == (if old(self).done() {
                Step::<(T, T)>::Finish
            } else {
                Step::<(T, T)>::Pull(0)
            }),
            final(self).asking() == !old(self).done(),
    {
        if self.s.is_done() {
            self.asking = false;
            Step::Finish
        } else {
            self.asking = true;
            Step::Pull(0)
        }
    }

    /// Takes the upstream's answer. The first item is kept without emitting anything and
    /// the upstream is asked again; each later item is emitted with its predecessor. An
    /// unpaired last item is dropped when the upstream completes.
    pub fn feed(&mut self, pulled: Outcome<T>) -> (r: Step<(T, T)>)
        requires
            old(self).wf(),
            old(self).asking(),
        ensures
            final(self).wf(),
            final(self).done() == pulled is Done,
            final(self).previous() == (if pulled is Ready {
                Some(pulled->Ready_0)
            } else {
                old(self).previous()
            }),
            r == (match pulled {
                Outcome::Ready(x) => if old(self).previous() is Some {
                    Step::Emit((old(self).previous()->Some_0, x))
                } else {
                    Step::Pull(0)
                },
                Outcome::Done => Step::Finish,
                Outcome::Pending => Step::Wait,
            }),
            final(self).asking() == (r is Pull),
    {
        match self.s.poll(pulled) {
            Outcome::Ready(x) => {
                let before = self.previous;
                self.previous = Some(x);
                match before {
                    Some(p) => {
                        self.asking = false;
                        Step::Emit((p, x))
                    },
                    None => Step::Pull(0),
                }
            },
            Outcome::Done => {
                self.asking = false;
                Step::Finish
            },
            Outcome::Pending => {
                self.asking = false;
                Step::Wait
            },
        }
    }
}

} // verus!
