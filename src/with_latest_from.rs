use vstd::prelude::*;

use crate::fuse::Fuse;
use crate::outcome::{is_fresh, refreshed, Outcome};

verus! {

/// What a with-latest-from answers after a turn, given the completion flags and the
/// secondary's cached value after the turn, and the primary's fresh item, if any.
pub open spec fn sampled_answer<A, B>(
    primary_done: bool,
    secondary_done: bool,
    latest: Option<B>,
    item: Option<A>,
) -> Outcome<(A, B)> {
    if primary_done || (secondary_done && latest is None) {
        Outcome::Done
    } else if item is Some && latest is Some {
        Outcome::Ready((item->Some_0, latest->Some_0))
    } else {
        Outcome::Pending
    }
}

/// Pairs each item of a primary upstream with the latest value of a secondary upstream.
#[derive(Debug)]
pub struct WithLatestFrom<B> {
    source: Fuse,
    other: Fuse,
    latest_other: Option<B>,
}

impl<B: Copy> WithLatestFrom<B> {
    pub closed spec fn primary_done(&self) -> bool {
        self.source.done()
    }

    pub closed spec fn secondary_done(&self) -> bool {
        self.other.done()
    }

    pub closed spec fn latest(&self) -> Option<B> {
        self.latest_other
    }

    pub fn new() -> (r: WithLatestFrom<B>)
        ensures
            !r.primary_done(),
            !r.secondary_done(),
            r.latest() is None,
    {
        WithLatestFrom { source: Fuse::new(), other: Fuse::new(), latest_other: None }
    }

    /// Whether the primary upstream is still live and should be polled this turn.
    pub fn wants_primary(&self) -> (r: bool)
        ensures
            r == !self.primary_done(),
    {
        !self.source.is_done()
    }

    /// Whether the secondary upstream is still live and should be polled this turn.
    pub fn wants_secondary(&self) -> (r: bool)
        ensures
            r == !self.secondary_done(),
    {
        !self.other.is_done()
    }

    /// One turn: `primary` and `secondary` are what the upstreams answered when polled,
    /// in that order. A finished upstream is not polled; its answer is ignored. A primary
    /// item that arrives before the secondary has produced anything is dropped.
    pub fn poll<A>(&mut self, primary: Outcome<A>, secondary: Outcome<B>) -> (r: Outcome<(A, B)>)
        ensures
            final(self).primary_done() == (old(self).primary_done() || primary is Done),
            final(self).secondary_done() == (old(self).secondary_done() || secondary is Done),
            final(self).latest() == refreshed(old(self).latest(), old(self).secondary_done(), secondary),
            r == sampled_answer(
                final(self).primary_done(),
                final(self).secondary_done(),
                final(self).latest(),
                if is_fresh(old(self).primary_done(), primary) {
                    Some(primary->Ready_0)
                } else {
                    None
                },
            ),
    {
        let item = match self.source.poll(primary) {
            Outcome::Ready(a) => Some(a),
            _ => None,
        };
        match self.other.poll(secondary) {
            Outcome::Ready(b) => {
                self.latest_other = Some(b);
            },
            _ => {},
        }
        if self.source.is_done() || (self.other.is_done() && self.latest_other.is_none()) {
            return Outcome::Done;
        }
        match (item, self.latest_other) {
            (Some(a), Some(b)) => Outcome::Ready((a, b)),
            _ => Outcome::Pending,
        }
    }
}

} // verus!
