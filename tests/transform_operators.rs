use rxstream::{
    new_simple_time_buffer, Buffer, BufferOpener, BufferedStream, CountBufferOpener, Fuse, Outcome,
    OverlappedCountBufferedStream, OverlappedTimeBuffer, OverlappedTimeBufferedStream,
    SimpleCountBuffer, SimpleCountBufferedStream, SimpleExternalTimeBufferredStream,
    SimpleTimeBufferredStream, Step, StreamControlledBuffer, TimeBufferOpener,
};
use std::collections::VecDeque;

/// An upstream whose items become available at given times (in milliseconds), handed
/// out one per poll once due; it completes at `end`, once all its items are out.
struct Timed {
    items: Vec<(u64, u64)>,
    end: Option<u64>,
    pos: usize,
}

impl Timed {
    fn poll(&mut self, t: u64) -> Outcome<u64> {
        if self.pos < self.items.len() {
            if self.items[self.pos].0 <= t {
                self.pos += 1;
                return Outcome::Ready(self.items[self.pos - 1].1);
            }
            return Outcome::Pending;
        }
        match self.end {
            Some(e) if e <= t => Outcome::Done,
            _ => Outcome::Pending,
        }
    }
}

fn timer(initial: u64, period: u64, take: Option<usize>) -> Timed {
    let n = take.unwrap_or(1000);
    let items: Vec<(u64, u64)> = (0..n as u64).map(|k| (initial + k * period, k)).collect();
    let end = take.map(|k| if k == 0 { 0 } else { initial + (k as u64 - 1) * period });
    Timed { items, end, pos: 0 }
}

/// The counters 0, 1, 2, ..., all available at once; with `take`, only that many.
fn counting(take: Option<usize>) -> Timed {
    let n = take.unwrap_or(1000);
    Timed { items: (0..n as u64).map(|k| (0, k)).collect(), end: take.map(|_| 0), pos: 0 }
}

/// A periodic timer in simulated time: it ticks at `due`, then every `period`; a late
/// poll still gets each missed tick, one per poll.
struct SimTimer {
    due: u64,
    period: u64,
}

impl SimTimer {
    fn starting(now: u64, initial: u64, period: u64) -> SimTimer {
        SimTimer { due: now + initial, period }
    }

    fn poll(&mut self, t: u64) -> Outcome<u64> {
        if t >= self.due {
            self.due += self.period;
            Outcome::Ready(0)
        } else {
            Outcome::Pending
        }
    }
}

/// Drives a buffered sequence one millisecond at a time and collects at most `limit`
/// batches; `control` answers the polls of the policy's control sequence.
fn run_with<B: Buffer<u64>>(
    mut op: BufferedStream<u64, B>,
    mut up: Timed,
    limit: usize,
    mut control: impl FnMut(&BufferedStream<u64, B>, u64, bool) -> Outcome<u64>,
) -> Vec<Vec<u64>> {
    let mut out = vec![];
    for t in 0..3000u64 {
        let mut step = op.start();
        loop {
            control(&op, t, false);
            match step {
                Step::Pull(0) => step = op.feed(up.poll(t), t),
                Step::Pull(_) => {
                    let answer = control(&op, t, true);
                    step = op.feed_control(answer);
                },
                Step::Emit(b) => {
                    out.push(b);
                    if out.len() == limit {
                        return out;
                    }
                    step = op.start();
                },
                Step::Finish => return out,
                Step::Wait => break,
            }
        }
    }
    out
}

/// Drives a policy without a control sequence.
fn run<B: Buffer<u64>>(op: BufferedStream<u64, B>, up: Timed, limit: usize) -> Vec<Vec<u64>> {
    run_with(op, up, limit, |_, _, asked| {
        assert!(!asked);
        Outcome::Pending
    })
}

/// Drives a policy controlled by one timer.
fn run_timed<B: Buffer<u64>>(
    op: BufferedStream<u64, B>,
    up: Timed,
    limit: usize,
    mut timer: SimTimer,
) -> Vec<Vec<u64>> {
    run_with(op, up, limit, move |_, t, asked| if asked { timer.poll(t) } else { Outcome::Pending })
}

/// Drives overlapping time windows, running one timer of period `span` per open window,
/// started when the window opened.
fn run_windows(
    op: OverlappedTimeBufferedStream<u64>,
    up: Timed,
    limit: usize,
    span: u64,
) -> Vec<Vec<u64>> {
    let mut timers: VecDeque<SimTimer> = VecDeque::new();
    timers.push_back(SimTimer::starting(0, span, span));
    run_with(op, up, limit, move |op, t, asked| {
        let open = op.policy().window_count();
        if open > timers.len() {
            timers.push_back(SimTimer::starting(t, span, span));
        } else if open < timers.len() {
            timers.pop_front();
        }
        if asked {
            timers.front_mut().unwrap().poll(t)
        } else {
            Outcome::Pending
        }
    })
}

#[test]
fn simple_count_buffer_emit_vecs() {
    let f = run(SimpleCountBufferedStream::new(3), counting(None), 3);
    assert_eq!(f, vec![[0, 1, 2], [3, 4, 5], [6, 7, 8]])
}

#[test]
fn simple_count_buffer_emit_partially_buffered_vecs() {
    let f = run(SimpleCountBufferedStream::new(3), counting(Some(8)), usize::MAX);
    assert_eq!(f, vec![vec![0, 1, 2], vec![3, 4, 5], vec![6, 7]])
}

#[test]
fn simple_count_buffer_emit_vecs_from_timer() {
    let f = run(SimpleCountBufferedStream::new(3), timer(5, 5, None), 4);
    assert_eq!(f, vec![[0, 1, 2], [3, 4, 5], [6, 7, 8], [9, 10, 11]])
}

#[test]
fn simple_count_buffer_on_empty_input_emits_nothing() {
    let f = run(SimpleCountBufferedStream::new(3), counting(Some(0)), usize::MAX);
    assert_eq!(f, Vec::<Vec<u64>>::new())
}

#[test]
fn simple_count_buffer_exact_multiple_has_no_leftover() {
    let f = run(SimpleCountBufferedStream::new(2), counting(Some(4)), usize::MAX);
    assert_eq!(f, vec![vec![0, 1], vec![2, 3]])
}

#[test]
fn simple_time_buffer_emit_vecs_from_timer() {
    let f = run_timed(SimpleTimeBufferredStream::new(50), timer(31, 31, None), 4, SimTimer::starting(0, 50, 50));
    assert_eq!(f, vec![vec![0], vec![1, 2], vec![3], vec![4, 5]])
}

#[test]
fn simple_time_buffer_emit_vecs_with_less_duration() {
    let f = run_timed(SimpleTimeBufferredStream::new(12), timer(0, 30, None), 4, SimTimer::starting(0, 12, 12));
    assert_eq!(f, vec![vec![0], vec![], vec![1], vec![]])
}

#[test]
fn external_timer_controls_the_batches() {
    let control = SimTimer::starting(0, 25, 40);
    let f = run_timed(SimpleExternalTimeBufferredStream::new_with_timer_stream(), timer(10, 10, None), 3, control);
    assert_eq!(f, vec![vec![0, 1], vec![2, 3, 4, 5], vec![6, 7, 8, 9]])
}

#[test]
fn time_buffer_drops_leftover_when_upstream_ends_between_ticks() {
    let f = run_timed(SimpleTimeBufferredStream::new(50), timer(31, 31, Some(2)), usize::MAX, SimTimer::starting(0, 50, 50));
    assert_eq!(f, vec![vec![0]])
}

#[test]
fn overlapped_count_buffer_skip_large_than_count() {
    let f = run(OverlappedCountBufferedStream::new(2, 3), counting(None), 3);
    assert_eq!(f, vec![[0, 1], [3, 4], [6, 7]])
}

#[test]
fn overlapped_count_buffer_skip_large_than_count_with_leftover() {
    let f = run(OverlappedCountBufferedStream::new(2, 3), counting(Some(7)), 3);
    assert_eq!(f, vec![vec![0, 1], vec![3, 4], vec![6]])
}

#[test]
fn overlapped_count_buffer_skip_smaller_than_count() {
    let f = run(OverlappedCountBufferedStream::new(3, 2), counting(None), 3);
    assert_eq!(f, vec![[0, 1, 2], [2, 3, 4], [4, 5, 6]])
}

#[test]
fn overlapped_count_buffer_skip_smaller_than_count_with_leftover() {
    let f = run(OverlappedCountBufferedStream::new(3, 2), counting(Some(6)), 3);
    assert_eq!(f, vec![vec![0, 1, 2], vec![2, 3, 4], vec![4, 5]])
}

#[test]
fn overlapped_count_buffer_drains_every_window() {
    let f = run(OverlappedCountBufferedStream::new(3, 2), counting(Some(6)), usize::MAX);
    assert_eq!(f, vec![vec![0, 1, 2], vec![2, 3, 4], vec![4, 5], vec![]])
}

#[test]
fn overlapped_count_buffer_equal_skip_and_count_is_fixed_count() {
    let f = run(OverlappedCountBufferedStream::new(2, 2), counting(Some(5)), usize::MAX);
    let flat: Vec<u64> = f.concat();
    assert_eq!(flat, vec![0, 1, 2, 3, 4]);
}

#[test]
fn ovlapped_time_buffer_creation_time_large_than_span() {
    let f = run_windows(OverlappedTimeBufferedStream::new(35, 45, 0), timer(10, 10, None), 3, 35);
    assert_eq!(f, vec![[0, 1, 2], [5, 6, 7], [10, 11, 12]])
}

#[test]
fn ovlapped_time_buffer_creation_time_smaller_than_span() {
    let f = run_windows(OverlappedTimeBufferedStream::new(35, 15, 0), timer(10, 10, None), 3, 35);
    assert_eq!(f, vec![[0, 1, 2], [2, 3, 4], [4, 5, 6]])
}

#[test]
fn count_buffer_hands_out_full_batches_then_leftover() {
    let mut b: SimpleCountBuffer<u64> = SimpleCountBuffer::new(2);
    b.insert(1, 0);
    assert_eq!(b.poll_buffer(false), None);
    b.insert(2, 0);
    assert_eq!(b.poll_buffer(false), Some(vec![1, 2]));
    assert_eq!(b.poll_buffer(false), None);
    b.insert(3, 0);
    assert_eq!(b.poll_buffer_after_done(false), Some(vec![3]));
    assert_eq!(b.poll_buffer_after_done(false), None);
}

#[test]
fn timed_buffer_flushes_on_ticks_only() {
    let mut b: StreamControlledBuffer<u64> = new_simple_time_buffer(10);
    assert_eq!(b.control_period(), Some(10));
    b.insert(1, 100);
    assert_eq!(b.poll_buffer(false), None);
    assert_eq!(b.poll_buffer(true), Some(vec![1]));
    assert_eq!(b.poll_buffer(false), None);
    assert_eq!(b.poll_buffer_after_done(true), Some(vec![]));
    assert_eq!(b.poll_buffer_after_done(false), None);
}

#[test]
fn count_opener_opens_every_skip_checks() {
    let mut o = CountBufferOpener::new(3);
    let r: Vec<bool> = (0..7).map(|_| o.check_open(0)).collect();
    assert_eq!(r, vec![false, false, true, false, false, true, false]);
    let mut never = CountBufferOpener::new(0);
    assert!(!(0..5).any(|_| never.check_open(0)));
}

#[test]
fn time_opener_opens_after_period() {
    let mut o = TimeBufferOpener::new(15, 0);
    assert!(!o.check_open(14));
    assert!(o.check_open(15));
    assert!(!o.check_open(29));
    assert!(o.check_open(31));
}

#[test]
fn fuse_reports_done_for_good() {
    let mut f = Fuse::new();
    assert_eq!(f.poll(Outcome::Ready(3u64)), Outcome::Ready(3));
    assert!(!f.is_done());
    assert_eq!(f.poll(Outcome::Done::<u64>), Outcome::Done);
    assert!(f.is_done());
    assert_eq!(f.poll(Outcome::Ready(4u64)), Outcome::Done);
    assert_eq!(f.poll(Outcome::Pending::<u64>), Outcome::Done);
}

#[test]
fn batches_concatenate_to_the_input() {
    let f = run(SimpleCountBufferedStream::new(4), counting(Some(11)), usize::MAX);
    assert_eq!(f.concat(), (0..11).collect::<Vec<u64>>());
}

#[test]
fn overlapping_batches_contain_the_input_in_order() {
    let f = run(OverlappedCountBufferedStream::new(3, 2), counting(Some(9)), usize::MAX);
    let flat = f.concat();
    let mut next = 0u64;
    for x in flat {
        if x == next {
            next += 1;
        }
    }
    assert_eq!(next, 9);
}

#[test]
fn overlapped_time_drain_hands_out_due_window_or_nothing() {
    let mut b: OverlappedTimeBuffer<u64> = OverlappedTimeBuffer::new(35, 1000, 0);
    b.insert(1, 10);
    assert!(b.is_controlled());
    assert_eq!(b.poll_buffer_after_done(false), Some(vec![]));
    assert!(!b.is_controlled());
    assert_eq!(b.poll_buffer_after_done(false), None);
    let mut c: OverlappedTimeBuffer<u64> = OverlappedTimeBuffer::new(35, 1000, 0);
    c.insert(1, 10);
    c.insert(2, 20);
    assert_eq!(c.poll_buffer(false), None);
    assert_eq!(c.window_count(), 1);
    assert_eq!(c.poll_buffer_after_done(true), Some(vec![1, 2]));
    assert_eq!(c.poll_buffer_after_done(true), None);
}
