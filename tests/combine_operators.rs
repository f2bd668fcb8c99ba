use rxstream::{
    combine_latest, combine_latest_vec, concat_two, concat_vec, fork_join, race, ChainVec,
    CombineLatest, CombineLatestVec, ForkJoin, Outcome, Pairwise, Race, Step,
    WithLatestFrom,
};

/// An upstream whose items become available at given times (in milliseconds). Items that
/// are due are handed out one per poll; the sequence completes once all items are out and
/// its end time has come.
struct Timed {
    items: Vec<(u64, u64)>,
    end: Option<u64>,
    pos: usize,
}

impl Timed {
    fn poll(&mut self, t: u64) -> Outcome<u64> {
        if self.pos < self.items.len() {
            if self.items[self.pos].0 <= t {
                self.pos += 1;
                return Outcome::Ready(self.items[self.pos - 1].1);
            }
            return Outcome::Pending;
        }
        match self.end {
            Some(e) if e <= t => Outcome::Done,
            _ => Outcome::Pending,
        }
    }
}

/// Counters 0, 1, 2, ... at `initial`, `initial + period`, ...; with `take`, only that many,
/// the sequence completing with its last item.
fn timer(initial: u64, period: u64, take: Option<usize>) -> Timed {
    let n = take.unwrap_or(1000);
    let items: Vec<(u64, u64)> = (0..n as u64).map(|k| (initial + k * period, k)).collect();
    let end = take.map(|k| if k == 0 { 0 } else { initial + (k as u64 - 1) * period });
    Timed { items, end, pos: 0 }
}

/// Values that are all available at once, then completion.
fn of(values: Vec<u64>) -> Timed {
    Timed { items: values.into_iter().map(|v| (0, v)).collect(), end: Some(0), pos: 0 }
}

fn empty() -> Timed {
    of(vec![])
}

const HORIZON: u64 = 3000;

fn run_combine_latest(mut a: Timed, mut b: Timed) -> Vec<(u64, u64)> {
    let mut op: CombineLatest<u64, u64> = combine_latest();
    let mut out = vec![];
    for t in 0..HORIZON {
        loop {
            let ra = if op.wants_first() { a.poll(t) } else { Outcome::Done };
            let rb = if op.wants_second() { b.poll(t) } else { Outcome::Done };
            match op.poll(ra, rb) {
                Outcome::Ready(x) => out.push(x),
                Outcome::Done => return out,
                Outcome::Pending => break,
            }
        }
    }
    out
}

fn run_combine_latest_vec(mut ups: Vec<Timed>) -> Vec<Vec<u64>> {
    let mut op: CombineLatestVec<u64> = combine_latest_vec(ups.len());
    let mut out = vec![];
    for t in 0..HORIZON {
        loop {
            let pulled: Vec<Outcome<u64>> = (0..ups.len())
                .map(|i| if op.wants(i) { ups[i].poll(t) } else { Outcome::Done })
                .collect();
            match op.poll(&pulled) {
                Outcome::Ready(x) => out.push(x),
                Outcome::Done => return out,
                Outcome::Pending => break,
            }
        }
    }
    out
}

fn run_with_latest_from(mut a: Timed, mut b: Timed) -> Vec<(u64, u64)> {
    let mut op: WithLatestFrom<u64> = WithLatestFrom::new();
    let mut out = vec![];
    for t in 0..HORIZON {
        loop {
            let ra = if op.wants_primary() { a.poll(t) } else { Outcome::Done };
            let rb = if op.wants_secondary() { b.poll(t) } else { Outcome::Done };
            match op.poll(ra, rb) {
                Outcome::Ready(x) => out.push(x),
                Outcome::Done => return out,
                Outcome::Pending => break,
            }
        }
    }
    out
}

fn run_chain(mut op: ChainVec, mut ups: Vec<Timed>) -> Vec<u64> {
    let mut out = vec![];
    for t in 0..HORIZON {
        let mut step = op.start::<u64>();
        loop {
            match step {
                Step::Pull(i) => step = op.feed(ups[i].poll(t)),
                Step::Emit(x) => {
                    out.push(x);
                    step = op.start();
                },
                Step::Finish => return out,
                Step::Wait => break,
            }
        }
    }
    out
}

fn run_race(mut a: Timed, mut b: Timed) -> Vec<u64> {
    let mut op: Race = race();
    let mut out = vec![];
    for t in 0..HORIZON {
        loop {
            let mut k = op.start();
            let step = loop {
                let pulled = if k == 0 { a.poll(t) } else { b.poll(t) };
                match op.feed(pulled) {
                    Step::Pull(next) => k = next,
                    other => break other,
                }
            };
            match step {
                Step::Emit(x) => out.push(x),
                Step::Finish => return out,
                _ => break,
            }
        }
    }
    out
}

fn run_fork_join(mut a: Timed, mut b: Timed) -> Vec<(u64, u64)> {
    let mut op: ForkJoin<u64, u64> = fork_join();
    let mut out = vec![];
    for t in 0..HORIZON {
        let mut step = op.start();
        loop {
            match step {
                Step::Pull(0) => step = op.feed_first(a.poll(t)),
                Step::Pull(_) => step = op.feed_second(b.poll(t)),
                Step::Emit(x) => {
                    out.push(x);
                    step = op.start();
                },
                Step::Finish => return out,
                Step::Wait => break,
            }
        }
    }
    out
}

fn run_pairwise(mut a: Timed) -> Vec<(u64, u64)> {
    let mut op: Pairwise<u64> = Pairwise::new();
    let mut out = vec![];
    for t in 0..HORIZON {
        let mut step = op.start();
        loop {
            match step {
                Step::Pull(_) => step = op.feed(a.poll(t)),
                Step::Emit(x) => {
                    out.push(x);
                    step = op.start();
                },
                Step::Finish => return out,
                Step::Wait => break,
            }
        }
    }
    out
}

#[test]
fn test_combine_operators_combine_latest_combines_two() {
    let t1 = timer(0, 10, Some(3));
    let t2 = timer(3, 10, Some(4));
    let r = run_combine_latest(t1, t2);
    assert_eq!(r, vec![(0, 0), (1, 0), (1, 1), (2, 1), (2, 2), (2, 3)])
}

#[test]
fn test_operators_combine_latest_combines_two() {
    let t1 = timer(0, 10, Some(3));
    let t2 = timer(3, 10, Some(4));
    let r = run_combine_latest(t1, t2);
    assert_eq!(r, vec![(0, 0), (1, 0), (1, 1), (2, 1), (2, 2), (2, 3)])
}

#[test]
fn test_combine_operators_combine_latest_end_soon_with_empty() {
    let t1 = empty();
    let t2 = timer(3, 10, None);
    let r = run_combine_latest(t1, t2);
    assert_eq!(r, vec![])
}

#[test]
fn test_operators_combine_latest_end_soon_with_empty() {
    let t1 = empty();
    let t2 = timer(3, 10, None);
    let r = run_combine_latest(t1, t2);
    assert_eq!(r, vec![])
}

#[test]
fn combine_latest_end_soon_when_second_is_empty() {
    let r = run_combine_latest(timer(3, 10, None), empty());
    assert_eq!(r, vec![])
}

#[test]
fn combine_latest_waits_for_both_to_end_once_filled() {
    let r = run_combine_latest(of(vec![1, 2]), timer(5, 10, Some(2)));
    assert_eq!(r, vec![(2, 0), (2, 1)])
}

#[test]
fn combine_latest_one_turn_with_both_fresh_emits_once() {
    let mut op: CombineLatest<u64, u64> = CombineLatest::new();
    assert_eq!(op.poll(Outcome::Ready(1), Outcome::Ready(7)), Outcome::Ready((1, 7)));
    assert_eq!(op.poll(Outcome::Pending, Outcome::Pending), Outcome::Pending);
    assert_eq!(op.poll(Outcome::Done, Outcome::Pending), Outcome::Pending);
    assert!(!op.wants_first());
    assert_eq!(op.poll(Outcome::Ready(99), Outcome::Ready(8)), Outcome::Ready((1, 8)));
    assert_eq!(op.poll(Outcome::Pending, Outcome::Done), Outcome::Done);
}

#[test]
fn test_combine_operators_combine_all_combines_all_streams_from_stream() {
    let ups = (0..3).map(|i| timer(i * 3, 10, Some(3))).collect();
    let r = run_combine_latest_vec(ups);
    assert_eq!(
        r,
        [[0, 0, 0], [1, 0, 0], [1, 1, 0], [1, 1, 1], [2, 1, 1], [2, 2, 1], [2, 2, 2]]
    )
}

#[test]
fn test_operators_combine_all_combines_all_streams_from_stream() {
    let ups = (0..3).map(|i| timer(i * 3, 10, Some(3))).collect();
    let r = run_combine_latest_vec(ups);
    assert_eq!(
        r,
        [[0, 0, 0], [1, 0, 0], [1, 1, 0], [1, 1, 1], [2, 1, 1], [2, 2, 1], [2, 2, 2]]
    )
}

#[test]
fn combine_latest_vec_of_nothing_ends_at_once() {
    let r = run_combine_latest_vec(vec![]);
    assert_eq!(r, Vec::<Vec<u64>>::new())
}

#[test]
fn combine_latest_vec_ends_when_one_ends_empty() {
    let r = run_combine_latest_vec(vec![timer(0, 10, None), empty(), timer(1, 10, None)]);
    assert_eq!(r, Vec::<Vec<u64>>::new())
}

#[test]
fn test_operators_fork_join_join_two_iter_end() {
    let r = run_fork_join(of(vec![1, 2]), of(vec![3, 4, 5, 6]));
    assert_eq!(r, vec![(2, 6)])
}

#[test]
fn test_combine_operators_fork_join_join_two_iter_end() {
    let r = run_fork_join(of(vec![1, 2]), of(vec![3, 4, 5, 6]));
    assert_eq!(r, vec![(2, 6)])
}

#[test]
fn test_operators_fork_join_join_two_interval_end() {
    let r = run_fork_join(timer(10, 10, Some(3)), timer(10, 10, Some(6)));
    assert_eq!(r, vec![(2, 5)])
}

#[test]
fn test_combine_operators_fork_join_join_two_interval_end() {
    let r = run_fork_join(timer(10, 10, Some(3)), timer(10, 10, Some(6)));
    assert_eq!(r, vec![(2, 5)])
}

#[test]
fn test_operators_fork_join_empty_when_any_empty() {
    let r = run_fork_join(empty(), of(vec![3, 4, 5, 6]));
    assert_eq!(r, vec![])
}

#[test]
fn test_combine_operators_fork_join_empty_when_any_empty() {
    let r = run_fork_join(empty(), of(vec![3, 4, 5, 6]));
    assert_eq!(r, vec![])
}

#[test]
fn fork_join_emits_only_once() {
    let mut op: ForkJoin<u64, u64> = ForkJoin::new();
    assert_eq!(op.start(), Step::Pull(0));
    assert_eq!(op.feed_first(Outcome::Ready(4)), Step::Pull(0));
    assert_eq!(op.feed_first(Outcome::Done), Step::Pull(1));
    assert_eq!(op.feed_second(Outcome::Ready(9)), Step::Pull(1));
    assert_eq!(op.feed_second(Outcome::Done), Step::Emit((4, 9)));
    assert_eq!(op.start(), Step::Finish);
    assert_eq!(op.start(), Step::Finish);
}

#[test]
fn test_concat_vec_concats_all() {
    let ups = vec![of(vec![0, 1, 2]), of(vec![1, 2, 3]), of(vec![2, 3, 4])];
    let r = run_chain(concat_vec(3), ups);
    assert_eq!(r, [0, 1, 2, 1, 2, 3, 2, 3, 4])
}

#[test]
fn test_concat_all_concats_all() {
    let ups = (0..3).map(|i| timer(i * 3, 10, Some(3))).collect();
    let r = run_chain(concat_vec(3), ups);
    assert_eq!(r, [0, 1, 2, 0, 1, 2, 0, 1, 2])
}

#[test]
fn concat_two_plays_in_order() {
    let r = run_chain(concat_two(), vec![timer(5, 5, Some(2)), of(vec![7, 8])]);
    assert_eq!(r, [0, 1, 7, 8])
}

#[test]
fn concat_of_nothing_finishes_at_once() {
    let mut op = concat_vec(0);
    assert_eq!(op.start::<u64>(), Step::Finish);
    assert_eq!(op.start::<u64>(), Step::Finish);
}

#[test]
fn test_race_pick_first_respond_item() {
    let t1 = Timed { items: (0..3).map(|k| (3 + 10 * k, 2 * k)).collect(), end: Some(23), pos: 0 };
    let t2 = Timed { items: (0..6).map(|k| (1 + 10 * k, 2 * k + 1)).collect(), end: Some(51), pos: 0 };
    let r = run_race(t1, t2);
    assert_eq!(r, [1, 3, 5, 7, 9, 11])
}

#[test]
fn test_race_pick_first_ended() {
    let t1 = Timed { items: (0..3).map(|k| (3 + 10 * k, 2 * k)).collect(), end: Some(23), pos: 0 };
    let t2 = timer(1, 10, Some(0));
    let r = run_race(t1, t2);
    assert_eq!(r, [])
}

#[test]
fn race_commits_to_the_first_answer_for_good() {
    let mut op = Race::new();
    assert_eq!(op.start(), 0);
    assert_eq!(op.feed(Outcome::Pending::<u64>), Step::Pull(1));
    assert_eq!(op.feed(Outcome::Ready(5u64)), Step::Emit(5));
    assert_eq!(op.start(), 1);
    assert_eq!(op.feed(Outcome::Pending::<u64>), Step::Wait);
    assert_eq!(op.start(), 1);
    assert_eq!(op.feed(Outcome::Done::<u64>), Step::Finish);
}

#[test]
fn race_asks_the_first_candidate_first() {
    let mut op = race();
    assert_eq!(op.awaiting(), None);
    assert_eq!(op.start(), 0);
    assert_eq!(op.awaiting(), Some(0));
    assert_eq!(op.feed(Outcome::Ready(4u64)), Step::Emit(4));
    assert_eq!(op.awaiting(), None);
    assert_eq!(op.start(), 0);
}

#[test]
fn test_with_latest_from_sync_the_stream() {
    let s1 = timer(5, 5, Some(3));
    let s2 = timer(1, 1, Some(100));
    let r = run_with_latest_from(s1, s2);
    assert_eq!(r, [(0, 4), (1, 9), (2, 14)])
}

#[test]
fn with_latest_from_ends_when_secondary_ends_empty() {
    let r = run_with_latest_from(timer(5, 5, None), empty());
    assert_eq!(r, [])
}

#[test]
fn with_latest_from_drops_primary_items_before_secondary() {
    let r = run_with_latest_from(timer(1, 10, Some(3)), timer(5, 100, Some(1)));
    assert_eq!(r, [(1, 0), (2, 0)])
}

#[test]
fn test_operators_pairwise_emit_pairs() {
    let r = run_pairwise(of(vec![0, 1, 2]));
    assert_eq!(r, vec![(0, 1), (1, 2)])
}

#[test]
fn test_transform_operators_pairwise_emit_pairs() {
    let r = run_pairwise(of(vec![0, 1, 2]));
    assert_eq!(r, vec![(0, 1), (1, 2)])
}

#[test]
fn pairwise_single_or_empty_gives_nothing() {
    assert_eq!(run_pairwise(of(vec![4])), vec![]);
    assert_eq!(run_pairwise(empty()), vec![]);
}

#[test]
fn pairwise_over_time() {
    assert_eq!(run_pairwise(timer(2, 7, Some(4))), vec![(0, 1), (1, 2), (2, 3)]);
}
