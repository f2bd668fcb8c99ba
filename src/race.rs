use vstd::prelude::*;

use crate::outcome::{pass_on, passed_on, Outcome, Step};

verus! {

/// Which candidate a race follows.
#[derive(Debug, Clone, Copy, PartialEq, Eq, Structural)]
pub enum RaceState {
    /// No candidate has answered yet; both are polled.
    Undecided,
    /// The first candidate answered first and is the only one polled from now on.
    Pick1,
    /// The second candidate answered first and is the only one polled from now on.
    Pick2,
}

/// Follows whichever of two candidates answers first (with an item or with completion).
#[derive(Debug)]
pub struct Race {
    state: RaceState,
    asking: Option<usize>,
}

impl Race {
    pub closed spec fn state(&self) -> RaceState {
        self.state
    }

    /// The candidate whose answer the race is waiting for, if any.
    pub closed spec fn asking(&self) -> Option<usize> {
        self.asking
    }

    pub fn new() -> (r: Race)
        ensures
            r.state() == RaceState::Undecided,
            r.asking() is None,
    {
        Race { state: RaceState::Undecided, asking: None }
    }

    pub fn awaiting(&self) -> (r: Option<usize>)
        ensures
            r == self.asking(),
    {
        self.asking
    }

    /// Begins a turn: returns the candidate to poll first, which is the first one unless
    /// the second has been picked.
    pub fn start(&mut self) -> (k: usize)
        ensures
            final(self).state() == old(self).state(),
            k == (if old(self).state() == RaceState::Pick2 { 1usize } else { 0usize }),
            final(self).asking() == Some(k),
    {
        let k: usize = match self.state {
            RaceState::Pick2 => 1,
            _ => 0,
        };
        self.asking = Some(k);
        k
    }

    /// Takes the answer of the candidate that was asked for. While undecided, the first
    /// candidate to answer with anything but `Pending` is picked for good; when the
    /// first is pending the second is asked in the same turn.
    pub fn feed<T>(&mut self, pulled: Outcome<T>) -> (r: Step<T>)
        requires
            old(self).asking() is Some,
        ensures
            ({
                let k = old(self).asking()->Some_0;
                if old(self).state() == RaceState::Undecided && pulled is Pending && k == 0 {
                    &&& r == Step::<T>::Pull(1)
                    &&& final(self).asking() == Some(1usize)
                    &&& final(self).state() == RaceState::Undecided
                } else {
                    &&& r == passed_on(pulled)
                    &&& final(self).asking() is None
                    &&& final(self).state() == (if old(self).state() != RaceState::Undecided
                        || pulled is Pending {
                        old(self).state()
                    } else if k == 0 {
                        RaceState::Pick1
                    } else {
                        RaceState::Pick2
                    })
                }
            }),
    {
        let k = self.asking.unwrap();
        let pending = match pulled {
            Outcome::Pending => true,
            _ => false,
        };
        match self.state {
            RaceState::Undecided => {
                if pending {
                    if k == 0 {
                        self.asking = Some(1);
                        return Step::Pull(1);
                    }
                } else if k == 0 {
                    self.state = RaceState::Pick1;
                } else {
                    self.state = RaceState::Pick2;
                }
            },
            _ => {},
        }
        self.asking = None;
        pass_on(pulled)
    }
}

/// The items a committed race hands out when its candidate answers `a`, in order: every
/// item up to the candidate's completion.
pub open spec fn committed_outputs<T>(a: Seq<Outcome<T>>) -> Seq<T>
    decreases a.len(),
{
    if a.len() == 0 {
        Seq::empty()
    } else {
        match a[0] {
            Outcome::Ready(x) => seq![x] + committed_outputs(a.drop_first()),
            Outcome::Done => Seq::empty(),
            Outcome::Pending => committed_outputs(a.drop_first()),
        }
    }
}

/// The items a race in `state` hands out over its turns, when candidate 1 answers `a1`
/// and candidate 2 answers `a2`, each in order; a candidate's next answer is used only
/// when `start` and `feed` ask for it. While undecided, a turn asks candidate 1, and
/// candidate 2 only if candidate 1 is pending; the first answer other than `Pending`
/// commits to its candidate and is passed on, as are all later answers of that candidate.
pub open spec fn race_outputs<T>(state: RaceState, a1: Seq<Outcome<T>>, a2: Seq<Outcome<T>>) -> Seq<T>
    decreases a1.len() + a2.len(),
{
    match state {
        RaceState::Pick1 => committed_outputs(a1),
        RaceState::Pick2 => committed_outputs(a2),
        RaceState::Undecided => if a1.len() == 0 {
            Seq::empty()
        } else if !(a1[0] is Pending) {
            committed_outputs(a1)
        } else if a2.len() == 0 {
            Seq::empty()
        } else if !(a2[0] is Pending) {
            committed_outputs(a2)
        } else {
            race_outputs(RaceState::Undecided, a1.drop_first(), a2.drop_first())
        },
    }
}

/// `n` pending answers.
pub open spec fn pendings<T>(n: nat) -> Seq<Outcome<T>> {
    Seq::new(n, |i: int| Outcome::<T>::Pending)
}

/// The answers of a candidate that yields `xs` and then completes.
pub open spec fn yields<T>(xs: Seq<T>) -> Seq<Outcome<T>> {
    Seq::new(xs.len(), |i: int| Outcome::Ready(xs[i])).push(Outcome::Done)
}

/// A committed race whose candidate yields `xs` and then completes hands out exactly `xs`,
/// whatever would come after the completion.
pub proof fn committed_yields<T>(xs: Seq<T>, rest: Seq<Outcome<T>>)
    ensures
        committed_outputs(yields(xs) + rest) == xs,
    decreases xs.len(),
{
    let a = yields(xs) + rest;
    if xs.len() == 0 {
        assert(a[0] == Outcome::<T>::Done);
        assert(xs =~= Seq::<T>::empty());
    } else {
        assert(a[0] == Outcome::Ready(xs[0]));
        assert(a.drop_first() =~= yields(xs.drop_first()) + rest);
        committed_yields(xs.drop_first(), rest);
        assert(seq![xs[0]] + xs.drop_first() =~= xs);
    }
}

/// A race hands out exactly what the candidate that answers first hands out. If both
/// candidates pend for `n` turns and candidate 1 then answers `a1` (its first answer an
/// item or completion, the rest anything), the race hands out candidate 1's items up to
/// its completion, `committed_outputs(a1)`, and nothing of candidate 2.
pub proof fn race_follows_first<T>(n: nat, a1: Seq<Outcome<T>>, a2: Seq<Outcome<T>>)
    requires
        a1.len() > 0,
        !(a1[0] is Pending),
        n <= a2.len(),
        forall|i: int| 0 <= i < n ==> (#[trigger] a2[i]) is Pending,
    ensures
        race_outputs(RaceState::Undecided, pendings(n) + a1, a2) == committed_outputs(a1),
    decreases n,
{
    let b1 = pendings(n) + a1;
    if n == 0 {
        assert(b1 =~= a1);
    } else {
        assert(b1[0] is Pending);
        assert(a2[0] is Pending);
        assert(b1.drop_first() =~= pendings((n - 1) as nat) + a1);
        race_follows_first((n - 1) as nat, a1, a2.drop_first());
    }
}

/// If candidate 1 pends for `n + 1` turns while candidate 2 pends for `n` and then
/// answers `a2` (its first answer an item or completion), the race hands out candidate
/// 2's items up to its completion, `committed_outputs(a2)`, and nothing of candidate 1.
pub proof fn race_follows_second<T>(n: nat, a1: Seq<Outcome<T>>, a2: Seq<Outcome<T>>)
    requires
        n < a1.len(),
        forall|i: int| 0 <= i <= n ==> (#[trigger] a1[i]) is Pending,
        a2.len() > 0,
        !(a2[0] is Pending),
    ensures
        race_outputs(RaceState::Undecided, a1, pendings(n) + a2) == committed_outputs(a2),
    decreases n,
{
    let b2 = pendings(n) + a2;
    assert(a1[0] is Pending);
    if n == 0 {
        assert(b2 =~= a2);
    } else {
        assert(b2[0] is Pending);
        assert(b2.drop_first() =~= pendings((n - 1) as nat) + a2);
        assert forall|i: int| 0 <= i <= n - 1 implies (#[trigger] a1.drop_first()[i]) is Pending by {
            assert(a1.drop_first()[i] == a1[i + 1]);
        }
        race_follows_second((n - 1) as nat, a1.drop_first(), a2);
    }
}

/// A race between two candidates.
pub fn race() -> (r: Race)
    ensures
        r.state() == RaceState::Undecided,
        r.asking() is None,
{
    Race::new()
}

} // verus!
