use vstd::prelude::*;

use crate::outcome::{Outcome, Step};

verus! {

/// The cursor and the step after the current upstream (at `current`, of `len`) answers
/// `pulled`: an item is passed on; completion moves on to the next upstream, which is
/// asked at once, or finishes after the last one.
pub open spec fn chain_step<T>(current: nat, len: nat, pulled: Outcome<T>) -> (nat, Step<T>) {
    match pulled {
        Outcome::Ready(x) => (current, Step::Emit(x)),
        Outcome::Pending => (current, Step::Wait),
        Outcome::Done => if current + 1 < len {
            ((current + 1) as nat, Step::Pull((current + 1) as usize))
        } else {
            ((current + 1) as nat, Step::Finish)
        },
    }
}

/// The items a concatenation at cursor `current` hands out when the upstreams it asks
/// answer `answers`, in order.
pub open spec fn chain_outputs<T>(current: nat, len: nat, answers: Seq<Outcome<T>>) -> Seq<T>
    decreases answers.len(),
{
    if answers.len() == 0 || current >= len {
        Seq::empty()
    } else {
        let (next, step) = chain_step(current, len, answers[0]);
        (match step {
            Step::Emit(x) => seq![x],
            _ => Seq::empty(),
        }) + chain_outputs(next, len, answers.drop_first())
    }
}

/// The items among an upstream's answers, in order.
pub open spec fn items_of<T>(a: Seq<Outcome<T>>) -> Seq<T>
    decreases a.len(),
{
    if a.len() == 0 {
        Seq::empty()
    } else {
        (match a[0] {
            Outcome::Ready(x) => seq![x],
            _ => Seq::empty(),
        }) + items_of(a.drop_first())
    }
}

/// Answers of an upstream that has not completed yet: items and `Pending` only.
pub open spec fn live_answers<T>(a: Seq<Outcome<T>>) -> bool {
    forall|i: int| 0 <= i < a.len() ==> !(#[trigger] a[i] is Done)
}

/// The answers of upstreams that answer `runs[0]`, `runs[1]`, ..., each then completing,
/// played one after the other.
pub open spec fn played<T>(runs: Seq<Seq<Outcome<T>>>) -> Seq<Outcome<T>>
    decreases runs.len(),
{
    if runs.len() == 0 {
        Seq::empty()
    } else {
        runs[0].push(Outcome::Done) + played(runs.drop_first())
    }
}

/// The items each of `runs` yields, one sequence per upstream.
pub open spec fn items_per_upstream<T>(runs: Seq<Seq<Outcome<T>>>) -> Seq<Seq<T>> {
    Seq::new(runs.len(), |i: int| items_of(runs[i]))
}

proof fn chain_passes_items_on<T>(current: nat, len: nat, a: Seq<Outcome<T>>, rest: Seq<Outcome<T>>)
    requires
        current < len,
        live_answers(a),
    ensures
        chain_outputs(current, len, a + rest) == items_of(a) + chain_outputs(current, len, rest),
    decreases a.len(),
{
    if a.len() == 0 {
        assert(a + rest =~= rest);
        assert(items_of(a) + chain_outputs(current, len, rest) =~= chain_outputs(current, len, rest));
    } else {
        let b = a + rest;
        assert(b[0] == a[0]);
        assert(!(a[0] is Done));
        assert(b.drop_first() =~= a.drop_first() + rest);
        chain_passes_items_on(current, len, a.drop_first(), rest);
        let head: Seq<T> = match a[0] {
            Outcome::Ready(x) => seq![x],
            _ => Seq::empty(),
        };
        assert(head + (items_of(a.drop_first()) + chain_outputs(current, len, rest)) =~= (head
            + items_of(a.drop_first())) + chain_outputs(current, len, rest));
    }
}

proof fn chain_plays_from<T>(current: nat, len: nat, runs: Seq<Seq<Outcome<T>>>)
    requires
        current + runs.len() == len,
        forall|i: int| 0 <= i < runs.len() ==> live_answers(#[trigger] runs[i]),
    ensures
        chain_outputs(current, len, played(runs)) == items_per_upstream(runs).flatten(),
    decreases runs.len(),
{
    if runs.len() > 0 {
        let tail = seq![Outcome::<T>::Done] + played(runs.drop_first());
        assert(played(runs) =~= runs[0] + tail);
        assert(live_answers(runs[0]));
        chain_passes_items_on(current, len, runs[0], tail);
        assert(tail[0] == Outcome::<T>::Done);
        assert(tail.drop_first() =~= played(runs.drop_first()));
        assert(chain_outputs(current, len, tail) =~= Seq::<T>::empty() + chain_outputs(
            (current + 1) as nat,
            len,
            played(runs.drop_first()),
        ));
        assert forall|i: int| 0 <= i < runs.drop_first().len() implies live_answers(
            #[trigger] runs.drop_first()[i],
        ) by {
            assert(runs.drop_first()[i] == runs[i + 1]);
        }
        chain_plays_from((current + 1) as nat, len, runs.drop_first());
        assert(items_per_upstream(runs).drop_first() =~= items_per_upstream(runs.drop_first()));
    }
}

/// A concatenation of upstreams, where upstream `i` answers `runs[i]` (items and
/// `Pending`, in any order) and then completes, hands out the items of `runs[0]`, then
/// those of `runs[1]`, and so on: their concatenation, in strict order and without
/// interleaving. (Each `feed` is one `chain_step`.)
pub proof fn chain_plays_in_order<T>(runs: Seq<Seq<Outcome<T>>>)
    requires
        forall|i: int| 0 <= i < runs.len() ==> live_answers(#[trigger] runs[i]),
    ensures
        chain_outputs(0, runs.len(), played(runs)) == items_per_upstream(runs).flatten(),
{
    chain_plays_from(0, runs.len(), runs);
}

/// Plays a list of upstreams one after the other, each to its completion.
#[derive(Debug)]
pub struct ChainVec {
    len: usize,
    current: usize,
    asking: bool,
}

impl ChainVec {
    pub closed spec fn wf(&self) -> bool {
        &&& self.current <= self.len
        &&& self.asking ==> self.current < self.len
    }

    /// The number of upstreams.
    pub closed spec fn len(&self) -> nat {
        self.len as nat
    }

    /// The upstream being played; `len()` once all are complete.
    pub closed spec fn current(&self) -> nat {
        self.current as nat
    }

    pub closed spec fn asking(&self) -> bool {
        self.asking
    }

    pub fn awaiting(&self) -> (r: bool)
        ensures
            r == self.asking(),
    {
        self.asking
    }

    /// Begins a turn: asks for a poll of the current upstream, or finishes if all are
    /// complete.
    pub fn start<T>(&mut self) -> (r: Step<T>)
        requires
            old(self).wf(),
        ensures
            final(self).wf(),
            final(self).len() == old(self).len(),
            final(self).current() == old(self).current(),
            r == (if old(self).current() < old(self).len() {
                Step::<T>::Pull(old(self).current() as usize)
            } else {
                Step::<T>::Finish
            }),
            final(self).asking() == (r is Pull),
    {
        if self.current < self.len {
            self.asking = true;
            Step::Pull(self.current)
        } else {
            self.asking = false;
            Step::Finish
        }
    }

    /// Takes the current upstream's answer. Its completion moves on to the next upstream,
    /// which is asked in the same turn; anything else is passed on.
    pub fn feed<T>(&mut self, pulled: Outcome<T>) -> (r: Step<T>)
        requires
            old(self).wf(),
            old(self).asking(),
        ensures
            final(self).wf(),
            final(self).len() == old(self).len(),
            (final(self).current(), r) == chain_step(old(self).current(), old(self).len(), pulled),
            final(self).asking() == (r is Pull),
    {
        match pulled {
            Outcome::Ready(x) => {
                self.asking = false;
                Step::Emit(x)
            },
            Outcome::Pending => {
                self.asking = false;
                Step::Wait
            },
            Outcome::Done => {
                self.current = self.current + 1;
                if self.current < self.len {
                    Step::Pull(self.current)
                } else {
                    self.asking = false;
                    Step::Finish
                }
            },
        }
    }
}

/// Concatenation of `len` upstreams, played in index order.
pub fn concat_vec(len: usize) -> (r: ChainVec)
    ensures
        r.wf(),
        r.len() == len,
        r.current() == 0,
        !r.asking(),
{
    ChainVec { len, current: 0, asking: false }
}

/// Concatenation of two upstreams.
pub fn concat_two() -> (r: ChainVec)
    ensures
        r.wf(),
        r.len() == 2,
        r.current() == 0,
        !r.asking(),
{
    concat_vec(2)
}

} // verus!
