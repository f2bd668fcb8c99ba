use vstd::prelude::*;

verus! {

/// What a sequence answers when it is polled once.
#[derive(Debug, PartialEq, Eq)]
pub enum Outcome<T> {
    /// The sequence produced an item.
    Ready(T),
    /// The sequence is complete and will produce nothing more.
    Done,
    /// No item is available yet; the caller should try again after a wake-up.
    Pending,
}

/// What an operator asks of whoever drives it, after one step of its state machine.
#[derive(Debug, PartialEq, Eq)]
pub enum Step<T> {
    /// Hand this item to the consumer.
    Emit(T),
    /// Tell the consumer that the operator is complete.
    Finish,
    /// Tell the consumer that nothing is ready yet.
    Wait,
    /// Poll the upstream with this index once and feed its answer back.
    Pull(usize),
}

} // verus!

verus! {

impl<T: Copy> Outcome<T> {
    /// A copy of this answer.
    pub fn copied(&self) -> (r: Outcome<T>)
        ensures
            r == *self,
    {
        match self {
            Outcome::Ready(x) => Outcome::Ready(*x),
            Outcome::Done => Outcome::Done,
            Outcome::Pending => Outcome::Pending,
        }
    }
}

/// Whether a poll brought a new item: the upstream was still live and produced one.
pub open spec fn is_fresh<T>(done: bool, pulled: Outcome<T>) -> bool {
    !done && pulled is Ready
}

/// The latest value of an upstream after one poll.
pub open spec fn refreshed<T>(latest: Option<T>, done: bool, pulled: Outcome<T>) -> Option<T> {
    if is_fresh(done, pulled) {
        Some(pulled->Ready_0)
    } else {
        latest
    }
}

/// The step that passes an upstream's answer straight on to the consumer.
pub open spec fn passed_on<T>(pulled: Outcome<T>) -> Step<T> {
    match pulled {
        Outcome::Ready(x) => Step::Emit(x),
        Outcome::Done => Step::Finish,
        Outcome::Pending => Step::Wait,
    }
}

/// Passes an upstream's answer straight on to the consumer.
pub fn pass_on<T>(pulled: Outcome<T>) -> (r: Step<T>)
    ensures
        r == passed_on(pulled),
{
    match pulled {
        Outcome::Ready(x) => Step::Emit(x),
        Outcome::Done => Step::Finish,
        Outcome::Pending => Step::Wait,
    }
}

} // verus!
