use vstd::prelude::*;

use crate::outcome::Outcome;

verus! {

/// The answer a fused sequence gives to one poll: a finished sequence is not asked
/// again and answers `Done`; a live one passes on what the wrapped sequence said.
pub open spec fn fused_answer<T>(done: bool, pulled: Outcome<T>) -> Outcome<T> {
    if done {
        Outcome::Done
    } else {
        pulled
    }
}

/// The answers a fused sequence gives to successive polls, starting with completion
/// flag `done`, when the wrapped sequence would answer `pulled[i]` to the i-th poll.
pub open spec fn fused_answers<T>(done: bool, pulled: Seq<Outcome<T>>) -> Seq<Outcome<T>>
    decreases pulled.len(),
{
    if pulled.len() == 0 {
        Seq::empty()
    } else {
        seq![fused_answer(done, pulled[0])] + fused_answers(
            done || pulled[0] is Done,
            pulled.drop_first(),
        )
    }
}

/// Completion tracking for one upstream sequence.
///
/// Once the upstream has reported completion the flag stays set, and the upstream
/// is never polled again.
#[derive(Debug, Clone, Copy)]
pub struct Fuse {
    done: bool,
}

impl Fuse {
    /// Whether the upstream has reported completion.
    pub closed spec fn done(&self) -> bool {
        self.done
    }

    pub fn new() -> (r: Fuse)
        ensures
            !r.done(),
    {
        Fuse { done: false }
    }

    pub fn is_done(&self) -> (r: bool)
        ensures
            r == self.done(),
    {
        self.done
    }

    /// One poll of the fused sequence. `pulled` is what the wrapped sequence answered
    /// when asked; once the sequence is done it is not asked, and `pulled` is ignored.
    pub fn poll<T>(&mut self, pulled: Outcome<T>) -> (r: Outcome<T>)
        ensures
            r == fused_answer(old(self).done(), pulled),
            final(self).done() == (old(self).done() || pulled is Done),
    {
        if self.done {
            Outcome::Done
        } else {
            if let Outcome::Done = pulled {
                self.done = true;
            }
            pulled
        }
    }
}

proof fn fused_answers_len<T>(done: bool, pulled: Seq<Outcome<T>>)
    ensures
        fused_answers(done, pulled).len() == pulled.len(),
    decreases pulled.len(),
{
    if pulled.len() > 0 {
        fused_answers_len(done || pulled[0] is Done, pulled.drop_first());
    }
}

/// Once a fused sequence has reported completion, every later poll reports completion
/// too, whatever the wrapped sequence would have answered.
pub proof fn fuse_completion_is_final<T>(done: bool, pulled: Seq<Outcome<T>>, i: int, j: int)
    requires
        0 <= i <= j < pulled.len(),
        fused_answers(done, pulled)[i] is Done,
    ensures
        fused_answers(done, pulled)[j] is Done,
    decreases pulled.len(),
{
    let next = done || pulled[0] is Done;
    let rest = fused_answers(next, pulled.drop_first());
    fused_answers_len(next, pulled.drop_first());
    let all = fused_answers(done, pulled);
    assert(all == seq![fused_answer(done, pulled[0])] + rest);
    assert(forall|k: int| 1 <= k < pulled.len() ==> all[k] == rest[k - 1]);
    if i == 0 {
        assert(next);
        fuse_stays_done(next, pulled.drop_first(), j - 1);
    } else {
        fuse_completion_is_final(next, pulled.drop_first(), i - 1, j - 1);
    }
}

proof fn fuse_stays_done<T>(done: bool, pulled: Seq<Outcome<T>>, j: int)
    requires
        done,
        -1 <= j < pulled.len(),
    ensures
        j >= 0 ==> fused_answers(done, pulled)[j] is Done,
    decreases pulled.len(),
{
    if j >= 0 {
        let rest = fused_answers(true, pulled.drop_first());
        fused_answers_len(true, pulled.drop_first());
        let all = fused_answers(done, pulled);
        assert(all == seq![fused_answer(done, pulled[0])] + rest);
        assert(forall|k: int| 1 <= k < pulled.len() ==> all[k] == rest[k - 1]);
        fuse_stays_done(true, pulled.drop_first(), j - 1);
    }
}

} // verus!
