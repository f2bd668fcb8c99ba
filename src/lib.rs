//! Composable operators over pull-based sequences, each one a verified state machine.
//!
//! An operator never polls anything itself: a driver polls the upstreams the operator
//! asks for and feeds their answers ([`Outcome`]) back, and the operator says what to
//! report to the consumer ([`Outcome`] or [`Step`]).

mod buffer;
mod buffered_stream;
mod chain;
mod combine_latest;
mod fork_join;
mod fuse;
mod outcome;
mod overlapped_buffer;
mod pairwise;
mod race;
mod subseq;
mod time_buffer;
mod with_latest_from;

pub use buffer::{
    batch_of, count_batch_sizes, count_batches_reproduce_input, with_batch, Buffer, CountState,
    SimpleCountBuffer,
};
pub use buffered_stream::{
    count_stream_reproduces_input, is_tick, overlapped_count_stream_covers_input, step_batch,
    with_step, BufferedStream, OverlappedCountBufferedStream, OverlappedTimeBufferedStream,
    SimpleCountBufferedStream, SimpleExternalTimeBufferredStream, SimpleTimeBufferredStream,
};
pub use chain::{
    chain_outputs, chain_plays_in_order, chain_step, concat_two, concat_vec, items_of,
    items_per_upstream, live_answers, played, ChainVec,
};
pub use combine_latest::{
    all_end, all_filled, combine_latest, combine_latest_vec, latest_values, pair_answer, pair_ends,
    CombineLatest, CombineLatestVec,
};
pub use fork_join::{fork_join, ForkJoin};
pub use fuse::{fuse_completion_is_final, fused_answer, fused_answers, Fuse};
pub use outcome::{is_fresh, pass_on, passed_on, refreshed, Outcome, Step};
pub use overlapped_buffer::{
    count_windows_ok, count_windows_stay_open, count_windows_with, covered_prefix, front_full,
    overlapped_count_batches_cover_input, timed_windows_with, BufferCreator, BufferOpener, CountBufferCreator, CountBufferOpener, OverlappedBuffer, OverlappedCountBuffer,
    OverlappedCountState, OverlappedTimeBuffer, OverlappedTimeState, TimeBufferCreator,
    TimeBufferOpener,
};
pub use pairwise::Pairwise;
pub use race::{
    committed_outputs, committed_yields, pendings, race, race_follows_first, race_follows_second,
    race_outputs, yields, Race, RaceState,
};
pub use subseq::{
    is_embedding, is_subseq, lemma_subseq_append, lemma_subseq_prefix, lemma_subseq_refl,
};
pub use time_buffer::{
    after_tick, new_simple_time_buffer, on_tick, timed_batches_reproduce_input,
    StreamControlledBuffer,
};
pub use with_latest_from::{sampled_answer, WithLatestFrom};
