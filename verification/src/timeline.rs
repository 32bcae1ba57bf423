//! A stream over many blocks.
//!
//! The audio thread meets a stream once per block and knows nothing of the
//! blocks before. What it does over time follows from the plans alone, and
//! is stated here: it takes samples from the front of the buffer, never out
//! of order and never twice, and the position counts what it took.
use vstd::prelude::*;
use crate::channels::PortId;
use crate::schedule::{spec_advance, spec_elapsed_samples, spec_plan, StreamState};
use crate::ONE_SECOND_IN_NANOSECONDS;

verus! {

/// One block as a stream meets it: the reading of the clock, and the
/// samples that the feeder has put into the buffer since the block before.
pub struct Block<S> {
    pub now: u64,
    pub fed: Seq<S>,
}

/// A stream between two blocks, with what has happened to it so far.
pub struct Track<S> {
    /// The cells of the stream.
    pub state: StreamState,
    /// The samples that wait in the buffer, oldest first.
    pub buffer: Seq<S>,
    /// Every sample that was ever put into the buffer, oldest first.
    pub fed: Seq<S>,
    /// The number of samples taken out of the buffer.
    pub taken: nat,
    /// The samples sent to the port, in the order in which they were sent.
    pub played: Seq<S>,
    /// For each sample sent to the port, its place in `fed`.
    pub played_at: Seq<int>,
}

impl<S> Track<S> {
    /// A stream in `state` of which nothing was played yet and whose buffer
    /// holds `buffer`.
    pub open spec fn start(state: StreamState, buffer: Seq<S>) -> Track<S> {
        Track {
            state,
            buffer,
            fed: buffer,
            taken: 0,
            played: Seq::empty(),
            played_at: Seq::empty(),
        }
    }

    /// The stream after one more block, in which the audio thread carries
    /// out its plan: it drops what the plan drops and plays what it plays.
    pub open spec fn step(
        self,
        block: Block<S>,
        sample_rate: u64,
        nframes: usize,
        port: Option<PortId>,
    ) -> Track<S> {
        let buffer = self.buffer + block.fed;
        let plan = spec_plan(
            self.state,
            sample_rate,
            block.now,
            nframes,
            buffer.len() as usize,
            port,
        );
        let left = plan.spec_left(buffer);
        Track {
            state: plan.spec_outcome(self.state, left.len() as usize),
            buffer: left,
            fed: self.fed + block.fed,
            taken: (self.taken + plan.consumed()) as nat,
            played: self.played + plan.spec_played(buffer),
            played_at: self.played_at + Seq::new(
                plan.emitted() as nat,
                |i: int| self.taken + plan.consumed() - plan.emitted() + i,
            ),
        }
    }

    /// The stream after the blocks of `blocks`, one after the other.
    pub open spec fn run(
        self,
        blocks: Seq<Block<S>>,
        sample_rate: u64,
        nframes: usize,
        port: Option<PortId>,
    ) -> Track<S>
        decreases blocks.len(),
    {
        if blocks.len() == 0 {
            self
        } else {
            self.run(blocks.drop_last(), sample_rate, nframes, port).step(
                blocks.last(),
                sample_rate,
                nframes,
                port,
            )
        }
    }

    /// What was played came out of the buffer in the order in which it went
    /// in: the buffer holds what was fed and not taken, each played sample
    /// is one of the samples taken, and a sample played later was fed later.
    pub open spec fn in_order(self) -> bool {
        &&& self.taken <= self.fed.len()
        &&& self.buffer == self.fed.subrange(self.taken as int, self.fed.len() as int)
        &&& self.played_at.len() == self.played.len()
        &&& forall|i: int|
            0 <= i < self.played.len() ==> 0 <= (#[trigger] self.played_at[i]) < self.taken
                && self.played[i] == self.fed[self.played_at[i]]
        &&& forall|i: int, j: int|
            0 <= i < j < self.played.len() ==> (#[trigger] self.played_at[i])
                < (#[trigger] self.played_at[j])
    }
}

/// Whether no block of `blocks` comes before `start_time`.
pub open spec fn all_started<S>(blocks: Seq<Block<S>>, start_time: u64) -> bool {
    forall|i: int| 0 <= i < blocks.len() ==> (#[trigger] blocks[i]).now >= start_time
}

/// The number of samples fed in the blocks of `blocks`.
pub open spec fn spec_fed_count<S>(blocks: Seq<Block<S>>) -> nat
    decreases blocks.len(),
{
    if blocks.len() == 0 {
        0
    } else {
        spec_fed_count(blocks.drop_last()) + blocks.last().fed.len()
    }
}

/// A stream that has just been made plays in order.
pub proof fn lemma_start_is_in_order<S>(state: StreamState, buffer: Seq<S>)
    ensures
        Track::start(state, buffer).in_order(),
{
    assert(buffer =~= buffer.subrange(0, buffer.len() as int));
}

/// One block keeps the order, and the audio thread alone does not touch the
/// start time. Where the clock has reached the start time, the position
/// moves on by what the block took out of the buffer.
pub proof fn lemma_step_keeps_order<S>(
    track: Track<S>,
    block: Block<S>,
    sample_rate: u64,
    nframes: usize,
    port: Option<PortId>,
)
    requires
        track.in_order(),
        track.buffer.len() + block.fed.len() <= usize::MAX,
    ensures
        ({
            let next = track.step(block, sample_rate, nframes, port);
            &&& next.in_order()
            &&& next.state.start_time == track.state.start_time
            &&& next.taken >= track.taken
            &&& next.fed == track.fed + block.fed
            &&& next.buffer.len() <= track.buffer.len() + block.fed.len()
            &&& next.played.len() >= track.played.len()
            &&& track.played == next.played.subrange(0, track.played.len() as int)
            &&& block.now >= track.state.start_time ==> next.state.position == spec_advance(
                track.state.position,
                next.taken - track.taken,
            )
        }),
{
    let next = track.step(block, sample_rate, nframes, port);
    let buffer = track.buffer + block.fed;
    let plan = spec_plan(track.state, sample_rate, block.now, nframes, buffer.len() as usize, port);
    let grown = track.fed + block.fed;
    assert(buffer =~= grown.subrange(track.taken as int, grown.len() as int));
    assert(next.buffer =~= grown.subrange(next.taken as int, grown.len() as int));
    assert(track.played =~= next.played.subrange(0, track.played.len() as int));
    assert forall|i: int| 0 <= i < next.played.len() implies 0 <= (#[trigger] next.played_at[i])
        < next.taken && next.played[i] == next.fed[next.played_at[i]] by {
        if i < track.played.len() {
            assert(next.played_at[i] == track.played_at[i]);
            assert(next.played[i] == track.played[i]);
            assert(track.fed[track.played_at[i]] == grown[track.played_at[i]]);
        } else {
            let k = i - track.played.len();
            assert(next.played[i] == plan.spec_played(buffer)[k]);
            assert(next.played_at[i] == track.taken + plan.consumed() - plan.emitted() + k);
        }
    }
    assert forall|i: int, j: int| 0 <= i < j < next.played.len() implies (
    #[trigger] next.played_at[i]) < (#[trigger] next.played_at[j]) by {
        if j < track.played.len() {
            assert(next.played_at[i] == track.played_at[i]);
            assert(next.played_at[j] == track.played_at[j]);
        } else if i < track.played.len() {
            assert(next.played_at[i] == track.played_at[i]);
            assert(track.played_at[i] < track.taken);
        } else {
        }
    }
}

/// Samples that were put into a stream's buffer come out at the port in the
/// order in which they went in, save those that were dropped to catch up:
/// after any number of blocks, what was played is part of what was fed, in
/// the same order, and nothing was played twice.
pub proof fn lemma_run_keeps_order<S>(
    track: Track<S>,
    blocks: Seq<Block<S>>,
    sample_rate: u64,
    nframes: usize,
    port: Option<PortId>,
)
    requires
        track.in_order(),
        track.buffer.len() + spec_fed_count(blocks) <= usize::MAX,
    ensures
        track.run(blocks, sample_rate, nframes, port).in_order(),
        track.run(blocks, sample_rate, nframes, port).state.start_time == track.state.start_time,
        track.run(blocks, sample_rate, nframes, port).taken >= track.taken,
        track.run(blocks, sample_rate, nframes, port).buffer.len() <= track.buffer.len()
            + spec_fed_count(blocks),
        track.run(blocks, sample_rate, nframes, port).played.len() >= track.played.len(),
        track.played == track.run(blocks, sample_rate, nframes, port).played.subrange(
            0,
            track.played.len() as int,
        ),
    decreases blocks.len(),
{
    if blocks.len() == 0 {
        assert(track.played =~= track.played.subrange(0, track.played.len() as int));
    } else {
        let earlier = track.run(blocks.drop_last(), sample_rate, nframes, port);
        lemma_run_keeps_order(track, blocks.drop_last(), sample_rate, nframes, port);
        lemma_step_keeps_order(earlier, blocks.last(), sample_rate, nframes, port);
        let next = earlier.step(blocks.last(), sample_rate, nframes, port);
        assert(earlier.played == next.played.subrange(0, earlier.played.len() as int));
        assert(track.played == earlier.played.subrange(0, track.played.len() as int));
        assert(track.played =~= next.played.subrange(0, track.played.len() as int));
    }
}

/// The position counts the samples taken from the buffer: over any number
/// of blocks that come no earlier than the start time, the position moves
/// on by the number of samples that were taken, up to the largest value.
pub proof fn lemma_position_counts_what_was_taken<S>(
    track: Track<S>,
    blocks: Seq<Block<S>>,
    sample_rate: u64,
    nframes: usize,
    port: Option<PortId>,
)
    requires
        track.in_order(),
        track.buffer.len() + spec_fed_count(blocks) <= usize::MAX,
        all_started(blocks, track.state.start_time),
    ensures
        ({
            let end = track.run(blocks, sample_rate, nframes, port);
            &&& end.state.position >= track.state.position
            &&& end.state.position == spec_advance(track.state.position, end.taken - track.taken)
        }),
    decreases blocks.len(),
{
    if blocks.len() > 0 {
        let earlier = track.run(blocks.drop_last(), sample_rate, nframes, port);
        assert(all_started(blocks.drop_last(), track.state.start_time)) by {
            assert forall|i: int| 0 <= i < blocks.drop_last().len() implies (
            #[trigger] blocks.drop_last()[i]).now >= track.state.start_time by {
                assert(blocks.drop_last()[i] == blocks[i]);
            }
        }
        lemma_position_counts_what_was_taken(
            track,
            blocks.drop_last(),
            sample_rate,
            nframes,
            port,
        );
        lemma_run_keeps_order(track, blocks.drop_last(), sample_rate, nframes, port);
        assert(blocks.last() == blocks[blocks.len() - 1]);
        lemma_step_keeps_order(earlier, blocks.last(), sample_rate, nframes, port);
    }
}

/// Whether a stream plays on undisturbed: it is alive and active and does
/// not die when its buffer is empty.
pub open spec fn steady(state: StreamState) -> bool {
    state.alive && state.active && !state.kill_when_empty
}

/// A stream that plays on undisturbed on a present channel, and whose
/// position is the number of samples taken so far, stays so over any number
/// of blocks that come no earlier than its start time.
pub proof fn lemma_steady_run<S>(
    track: Track<S>,
    blocks: Seq<Block<S>>,
    sample_rate: u64,
    nframes: usize,
    port: PortId,
)
    requires
        track.in_order(),
        steady(track.state),
        track.state.position == track.taken,
        track.fed.len() + spec_fed_count(blocks) <= usize::MAX,
        all_started(blocks, track.state.start_time),
    ensures
        ({
            let end = track.run(blocks, sample_rate, nframes, Some(port));
            &&& end.in_order()
            &&& steady(end.state)
            &&& end.state.position == end.taken
            &&& end.state.start_time == track.state.start_time
            &&& end.fed.len() == track.fed.len() + spec_fed_count(blocks)
        }),
    decreases blocks.len(),
{
    if blocks.len() > 0 {
        let earlier = track.run(blocks.drop_last(), sample_rate, nframes, Some(port));
        assert(all_started(blocks.drop_last(), track.state.start_time)) by {
            assert forall|i: int| 0 <= i < blocks.drop_last().len() implies (
            #[trigger] blocks.drop_last()[i]).now >= track.state.start_time by {
                assert(blocks.drop_last()[i] == blocks[i]);
            }
        }
        lemma_steady_run(track, blocks.drop_last(), sample_rate, nframes, port);
        assert(blocks.last() == blocks[blocks.len() - 1]);
        lemma_step_keeps_order(earlier, blocks.last(), sample_rate, nframes, Some(port));
    }
}

/// A stream keeps up with the clock and never runs ahead of its feeder:
/// after a block at `now`, a stream that plays on undisturbed on a present
/// channel has a position of no more than the samples fed, and of at least
/// one less than the samples owed at `now`, unless it has taken every
/// sample that was fed.
pub proof fn lemma_position_keeps_up<S>(
    track: Track<S>,
    blocks: Seq<Block<S>>,
    sample_rate: u64,
    nframes: usize,
    port: PortId,
)
    requires
        track.in_order(),
        steady(track.state),
        track.state.position == track.taken,
        track.fed.len() + spec_fed_count(blocks) <= usize::MAX,
        all_started(blocks, track.state.start_time),
        blocks.len() > 0,
    ensures
        ({
            let end = track.run(blocks, sample_rate, nframes, Some(port));
            let owed = spec_elapsed_samples(track.state.start_time, blocks.last().now, sample_rate);
            &&& end.fed.len() == track.fed.len() + spec_fed_count(blocks)
            &&& end.state.position <= end.fed.len()
            &&& end.state.position >= owed - 1 || end.state.position == end.fed.len()
        }),
{
    let earlier = track.run(blocks.drop_last(), sample_rate, nframes, Some(port));
    assert(all_started(blocks.drop_last(), track.state.start_time)) by {
        assert forall|i: int| 0 <= i < blocks.drop_last().len() implies (
        #[trigger] blocks.drop_last()[i]).now >= track.state.start_time by {
            assert(blocks.drop_last()[i] == blocks[i]);
        }
    }
    lemma_steady_run(track, blocks.drop_last(), sample_rate, nframes, port);
    lemma_steady_run(track, blocks, sample_rate, nframes, port);
    assert(blocks.last() == blocks[blocks.len() - 1]);
    lemma_step_keeps_order(earlier, blocks.last(), sample_rate, nframes, Some(port));
}

/// One second after its start a stream owes as many samples as its rate
/// says, and at any time before that no more.
pub proof fn lemma_one_second_owes_the_rate(start_time: u64, now: u64, sample_rate: u64)
    requires
        start_time + ONE_SECOND_IN_NANOSECONDS <= u64::MAX,
    ensures
        spec_elapsed_samples(
            start_time,
            (start_time + ONE_SECOND_IN_NANOSECONDS) as u64,
            sample_rate,
        ) == sample_rate,
        now <= start_time + ONE_SECOND_IN_NANOSECONDS ==> spec_elapsed_samples(
            start_time,
            now,
            sample_rate,
        ) <= sample_rate,
{
    let second = ONE_SECOND_IN_NANOSECONDS as int;
    let rate = sample_rate as int;
    assert(second * rate / second == rate) by (nonlinear_arith)
        requires
            second == 1_000_000_000,
            rate >= 0,
    ;
    if start_time < now <= start_time + ONE_SECOND_IN_NANOSECONDS {
        let dt = now - start_time;
        assert(dt * rate / second <= rate) by (nonlinear_arith)
            requires
                0 <= dt <= second,
                second == 1_000_000_000,
                rate >= 0,
        ;
    }
}

/// After a second of blocks a stream has played about a second of samples:
/// where the last block comes no later than a second after the start, and
/// by no more than the time of one block earlier, a stream that has played
/// on undisturbed from its first sample has a position of no more than the
/// samples fed, and of no less than its rate less one block and one sample,
/// unless it has taken every sample that was fed.
pub proof fn lemma_position_after_a_second<S>(
    state: StreamState,
    buffer: Seq<S>,
    blocks: Seq<Block<S>>,
    sample_rate: u64,
    nframes: usize,
    port: PortId,
)
    requires
        steady(state),
        state.position == 0,
        buffer.len() + spec_fed_count(blocks) <= usize::MAX,
        all_started(blocks, state.start_time),
        blocks.len() > 0,
        blocks.last().now <= state.start_time + ONE_SECOND_IN_NANOSECONDS,
        (state.start_time + ONE_SECOND_IN_NANOSECONDS - blocks.last().now) * sample_rate <= nframes
            * ONE_SECOND_IN_NANOSECONDS,
    ensures
        ({
            let end = Track::start(state, buffer).run(blocks, sample_rate, nframes, Some(port));
            &&& end.fed.len() == buffer.len() + spec_fed_count(blocks)
            &&& end.state.position <= end.fed.len()
            &&& end.state.position >= sample_rate - nframes - 1 || end.state.position
                == end.fed.len()
        }),
{
    let track = Track::start(state, buffer);
    lemma_start_is_in_order(state, buffer);
    lemma_position_keeps_up(track, blocks, sample_rate, nframes, port);
    let now = blocks.last().now;
    assert(blocks.last() == blocks[blocks.len() - 1]);
    let second = ONE_SECOND_IN_NANOSECONDS as int;
    let rate = sample_rate as int;
    let frames = nframes as int;
    let dt = now - state.start_time;
    if rate - frames > 0 {
        assert(dt * rate / second >= rate - frames) by (nonlinear_arith)
            requires
                second == 1_000_000_000,
                (second - dt) * rate <= frames * second,
                rate - frames > 0,
                dt >= 0,
        ;
        assert(dt > 0) by (nonlinear_arith)
            requires
                second == 1_000_000_000,
                (second - dt) * rate <= frames * second,
                rate - frames > 0,
                dt >= 0,
        ;
    }
}

} // verus!
