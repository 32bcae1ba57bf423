//! What the audio thread does with one stream in one block.
//!
//! The functions here take a snapshot of a stream's shared cells and return
//! the decision; they touch no shared state themselves.
use vstd::prelude::*;
use crate::channels::PortId;
use crate::{NO_PATCH, ONE_SECOND_IN_NANOSECONDS};

verus! {

/// The values of a stream's shared cells at one moment.
#[derive(Clone, Copy, Debug, PartialEq, Eq, Structural)]
pub struct StreamState {
    /// Whether the stream plays samples.
    pub active: bool,
    /// Whether the audio thread still holds the stream.
    pub alive: bool,
    /// Whether the stream dies once a block has emptied its buffer.
    pub kill_when_empty: bool,
    /// Samples taken from the buffer since the stream started.
    pub position: u64,
    /// The instant, on the monotonic clock, at which playback begins.
    pub start_time: u64,
    /// The channel index the stream is patched to.
    pub output_patch: usize,
}

impl StreamState {
    /// The cells of a stream that was just made: it waits at position zero,
    /// neither active nor alive, patched to no channel.
    pub open spec fn spec_initial() -> StreamState {
        StreamState {
            active: false,
            alive: false,
            kill_when_empty: false,
            position: 0,
            start_time: 0,
            output_patch: NO_PATCH,
        }
    }

    /// The cells of a stream that was just made.
    pub fn initial() -> (state: StreamState)
        ensures
            state == StreamState::spec_initial(),
    {
        StreamState {
            active: false,
            alive: false,
            kill_when_empty: false,
            position: 0,
            start_time: 0,
            output_patch: NO_PATCH,
        }
    }
}

/// Values to write to the cells of a stream. A cell without a value is left
/// as it is.
#[derive(Clone, Copy, Debug, PartialEq, Eq, Structural)]
pub struct StreamUpdate {
    /// Whether the stream plays samples.
    pub active: Option<bool>,
    /// Whether the audio thread still holds the stream.
    pub alive: Option<bool>,
    /// Samples taken from the buffer since the stream started.
    pub position: Option<u64>,
    /// The instant at which playback begins.
    pub start_time: Option<u64>,
}

impl StreamUpdate {
    /// The update that writes nothing.
    pub open spec fn spec_none() -> StreamUpdate {
        StreamUpdate { active: None, alive: None, position: None, start_time: None }
    }

    /// The update that starts a stream as if it was to start at `time`: the
    /// start time becomes `time` and the stream becomes active.
    pub open spec fn spec_play_from(time: u64) -> StreamUpdate {
        StreamUpdate { start_time: Some(time), active: Some(true), ..StreamUpdate::spec_none() }
    }

    /// The update that puts a stream back to its beginning at `now`: the
    /// position becomes zero and the start time `now`.
    pub open spec fn spec_rewind(now: u64) -> StreamUpdate {
        StreamUpdate { start_time: Some(now), position: Some(0), ..StreamUpdate::spec_none() }
    }

    /// The update that a sender makes when it is given up: the original
    /// deactivates the stream and marks it dead, any other writes nothing.
    pub open spec fn spec_release(original: bool) -> StreamUpdate {
        if original {
            StreamUpdate { active: Some(false), alive: Some(false), ..StreamUpdate::spec_none() }
        } else {
            StreamUpdate::spec_none()
        }
    }

    /// The update that writes nothing.
    pub fn none() -> (update: StreamUpdate)
        ensures
            update == StreamUpdate::spec_none(),
        opens_invariants none
        no_unwind
    {
        StreamUpdate { active: None, alive: None, position: None, start_time: None }
    }

    /// The update that starts a stream as if it was to start at `time`.
    pub fn play_from(time: u64) -> (update: StreamUpdate)
        ensures
            update == StreamUpdate::spec_play_from(time),
    {
        StreamUpdate { active: Some(true), alive: None, position: None, start_time: Some(time) }
    }

    /// The update that puts a stream back to its beginning at `now`.
    pub fn rewind(now: u64) -> (update: StreamUpdate)
        ensures
            update == StreamUpdate::spec_rewind(now),
    {
        StreamUpdate { active: None, alive: None, position: Some(0), start_time: Some(now) }
    }

    /// The update that a sender makes when it is given up.
    pub fn release(original: bool) -> (update: StreamUpdate)
        ensures
            update == StreamUpdate::spec_release(original),
        opens_invariants none
        no_unwind
    {
        if original {
            StreamUpdate { active: Some(false), alive: Some(false), position: None, start_time: None }
        } else {
            StreamUpdate::none()
        }
    }
}

impl StreamState {
    /// The cells after `update` was written to them.
    pub open spec fn spec_apply(self, update: StreamUpdate) -> StreamState {
        StreamState {
            active: if update.active is Some { update.active->0 } else { self.active },
            alive: if update.alive is Some { update.alive->0 } else { self.alive },
            position: if update.position is Some { update.position->0 } else { self.position },
            start_time: if update.start_time is Some {
                update.start_time->0
            } else {
                self.start_time
            },
            ..self
        }
    }

    /// The update that writes the cells in which `after` differs from these
    /// cells, and no others. It covers the cells that the audio thread writes.
    pub open spec fn spec_changes_to(self, after: StreamState) -> StreamUpdate {
        StreamUpdate {
            active: if after.active != self.active {
                Some(after.active)
            } else {
                None
            },
            alive: if after.alive != self.alive {
                Some(after.alive)
            } else {
                None
            },
            position: if after.position != self.position {
                Some(after.position)
            } else {
                None
            },
            start_time: if after.start_time != self.start_time {
                Some(after.start_time)
            } else {
                None
            },
        }
    }

    /// The update that writes the cells in which `after` differs from these cells.
    pub fn changes_to(self, after: StreamState) -> (update: StreamUpdate)
        ensures
            update == self.spec_changes_to(after),
            after.kill_when_empty == self.kill_when_empty && after.output_patch
                == self.output_patch ==> self.spec_apply(update) == after,
    {
        StreamUpdate {
            active: if after.active != self.active {
                Some(after.active)
            } else {
                None
            },
            alive: if after.alive != self.alive {
                Some(after.alive)
            } else {
                None
            },
            position: if after.position != self.position {
                Some(after.position)
            } else {
                None
            },
            start_time: if after.start_time != self.start_time {
                Some(after.start_time)
            } else {
                None
            },
        }
    }

    /// The cells after `update` was written to them.
    pub fn apply(self, update: StreamUpdate) -> (next: StreamState)
        ensures
            next == self.spec_apply(update),
    {
        StreamState {
            active: match update.active {
                Some(active) => active,
                None => self.active,
            },
            alive: match update.alive {
                Some(alive) => alive,
                None => self.alive,
            },
            position: match update.position {
                Some(position) => position,
                None => self.position,
            },
            start_time: match update.start_time {
                Some(start_time) => start_time,
                None => self.start_time,
            },
            ..self
        }
    }
}

/// The decision for one stream and one block.
#[derive(Clone, Copy, Debug, PartialEq, Eq, Structural)]
pub enum BlockPlan {
    /// The stream is dead: it is a candidate for removal and is left alone.
    Reap,
    /// The stream is not active.
    Idle,
    /// The output patch names no present channel: the stream is deactivated.
    Unpatch,
    /// The start time lies ahead: the position goes back to zero.
    Wait,
    /// The stream is behind and its buffer ran out while catching up.
    Starve { dropped: usize },
    /// The stream caught up, but less than a block is left in its buffer.
    Underflow { dropped: usize },
    /// The stream drops `dropped` samples, then plays `frames` samples on `port`.
    Play { dropped: usize, frames: usize, port: PortId },
}

/// What the control thread is told after a block was played.
#[derive(Clone, Copy, Debug, PartialEq, Eq, Structural)]
pub struct Notices {
    /// The buffer fell below half of its capacity for the first time.
    pub half_empty: bool,
    /// The buffer ran empty for the first time.
    pub empty: bool,
}

/// Samples that a stream of `sample_rate` Hz owes at `now`, having started
/// at `start_time`: the time since then, in seconds, times the rate, rounded
/// down. Before its start a stream owes nothing.
pub open spec fn spec_elapsed_samples(start_time: u64, now: u64, sample_rate: u64) -> int {
    if now <= start_time {
        0
    } else {
        (now - start_time) * sample_rate / (ONE_SECOND_IN_NANOSECONDS as int)
    }
}

/// Samples that must be dropped before a stream at `position` is on schedule:
/// a stream is behind when `position + 1` is less than the samples owed, and
/// is on schedule again once it is not.
pub open spec fn spec_lag(position: u64, elapsed: int) -> int {
    if position + 1 < elapsed {
        elapsed - 1 - position
    } else {
        0
    }
}

/// A position moved on by `count` samples; it stops at the largest value.
pub open spec fn spec_advance(position: u64, count: int) -> u64 {
    if position + count > u64::MAX {
        u64::MAX
    } else {
        (position + count) as u64
    }
}

/// The decision for a stream in `state`, with `buffered` samples in its
/// buffer, where `port` is the port of the channel it is patched to, if that
/// channel is present.
pub open spec fn spec_plan(
    state: StreamState,
    sample_rate: u64,
    now: u64,
    nframes: usize,
    buffered: usize,
    port: Option<PortId>,
) -> BlockPlan {
    if !state.alive {
        BlockPlan::Reap
    } else if !state.active {
        BlockPlan::Idle
    } else if port is None {
        BlockPlan::Unpatch
    } else if state.start_time > now {
        BlockPlan::Wait
    } else {
        let lag = spec_lag(state.position, spec_elapsed_samples(state.start_time, now, sample_rate));
        if buffered < lag {
            BlockPlan::Starve { dropped: buffered }
        } else if buffered - lag < nframes {
            BlockPlan::Underflow { dropped: lag as usize }
        } else {
            BlockPlan::Play { dropped: lag as usize, frames: nframes, port: port->0 }
        }
    }
}

impl BlockPlan {
    /// Samples that the plan takes out of the buffer.
    pub open spec fn consumed(self) -> int {
        match self {
            BlockPlan::Starve { dropped } => dropped as int,
            BlockPlan::Underflow { dropped } => dropped as int,
            BlockPlan::Play { dropped, frames, .. } => dropped + frames,
            _ => 0,
        }
    }

    /// Samples that the plan sends to an output port.
    pub open spec fn emitted(self) -> int {
        match self {
            BlockPlan::Play { frames, .. } => frames as int,
            _ => 0,
        }
    }

    /// The cells of a stream that was in `state` once the plan is carried out
    /// and `remaining` samples are left in its buffer.
    pub open spec fn spec_outcome(self, state: StreamState, remaining: usize) -> StreamState {
        match self {
            BlockPlan::Reap | BlockPlan::Idle => state,
            BlockPlan::Unpatch => StreamState { active: false, ..state },
            BlockPlan::Wait => StreamState { position: 0, ..state },
            BlockPlan::Starve { .. } | BlockPlan::Underflow { .. } => StreamState {
                position: spec_advance(state.position, self.consumed()),
                ..state
            },
            BlockPlan::Play { .. } => StreamState {
                position: spec_advance(state.position, self.consumed()),
                alive: state.alive && !(state.kill_when_empty && remaining == 0),
                ..state
            },
        }
    }

    /// What the plan writes to the cells of a stream that was in `state`,
    /// once it is carried out and `remaining` samples are left in the buffer:
    /// the cells that change, and no others.
    pub open spec fn spec_update(self, state: StreamState, remaining: usize) -> StreamUpdate {
        state.spec_changes_to(self.spec_outcome(state, remaining))
    }

    /// The notices that fall due once the plan is carried out, for a buffer of
    /// `capacity` samples, given which notices went out before.
    pub open spec fn spec_notices(
        self,
        remaining: usize,
        capacity: usize,
        half_sent: bool,
        empty_sent: bool,
    ) -> Notices {
        if self is Play {
            Notices {
                half_empty: !half_sent && remaining < capacity / 2,
                empty: !empty_sent && remaining == 0,
            }
        } else {
            Notices { half_empty: false, empty: false }
        }
    }
}

/// The position of a stream in whole milliseconds: `position` samples at
/// `sample_rate` Hz, rounded down, and no more than the largest `i64`. At a
/// rate of zero a stream that has not moved is at zero, any other at the
/// largest value.
pub open spec fn spec_position_millis(position: u64, sample_rate: u64) -> int {
    if sample_rate == 0 {
        if position == 0 {
            0
        } else {
            i64::MAX as int
        }
    } else if position * 1000 / (sample_rate as int) > i64::MAX {
        i64::MAX as int
    } else {
        position * 1000 / (sample_rate as int)
    }
}

/// Computes the position of a stream in whole milliseconds.
pub fn position_millis(position: u64, sample_rate: u64) -> (ms: i64)
    ensures
        ms == spec_position_millis(position, sample_rate),
{
    if sample_rate == 0 {
        if position == 0 {
            0
        } else {
            i64::MAX
        }
    } else {
        let ms: u128 = (position as u128) * 1000 / (sample_rate as u128);
        if ms > i64::MAX as u128 {
            i64::MAX
        } else {
            ms as i64
        }
    }
}

/// Computes the samples owed at `now` by a stream that started at `start_time`.
pub fn elapsed_samples(start_time: u64, now: u64, sample_rate: u64) -> (r: u128)
    ensures
        r == spec_elapsed_samples(start_time, now, sample_rate),
{
    if now <= start_time {
        return 0;
    }
    let dt: u128 = (now - start_time) as u128;
    let rate: u128 = sample_rate as u128;
    assert(dt * rate <= 0xffff_ffff_ffff_ffff * 0xffff_ffff_ffff_ffff) by (nonlinear_arith)
        requires
            0 <= dt <= 0xffff_ffff_ffff_ffff,
            0 <= rate <= 0xffff_ffff_ffff_ffff,
    ;
    dt * rate / (ONE_SECOND_IN_NANOSECONDS as u128)
}

/// Moves a position on by `count` samples.
pub fn advance(position: u64, count: usize) -> (r: u64)
    ensures
        r == spec_advance(position, count as int),
{
    let count: u64 = if count as u128 > u64::MAX as u128 { u64::MAX } else { count as u64 };
    position.saturating_add(count)
}

/// Decides what to do with one stream in one block.
pub fn plan_block(
    state: StreamState,
    sample_rate: u64,
    now: u64,
    nframes: usize,
    buffered: usize,
    port: Option<PortId>,
) -> (plan: BlockPlan)
    ensures
        plan == spec_plan(state, sample_rate, now, nframes, buffered, port),
{
    if !state.alive {
        return BlockPlan::Reap;
    }
    if !state.active {
        return BlockPlan::Idle;
    }
    let port = match port {
        Some(p) => p,
        None => { return BlockPlan::Unpatch; },
    };
    if state.start_time > now {
        return BlockPlan::Wait;
    }
    let elapsed = elapsed_samples(state.start_time, now, sample_rate);
    let lag: u128 = if (state.position as u128) + 1 < elapsed {
        elapsed - 1 - (state.position as u128)
    } else {
        0
    };
    if (buffered as u128) < lag {
        BlockPlan::Starve { dropped: buffered }
    } else {
        let dropped: usize = lag as usize;
        if buffered - dropped < nframes {
            BlockPlan::Underflow { dropped }
        } else {
            BlockPlan::Play { dropped, frames: nframes, port }
        }
    }
}

impl BlockPlan {
    /// The number of samples to drop from the buffer before anything is played.
    pub fn dropped(&self) -> (r: usize)
        ensures
            r == self.consumed() - self.emitted(),
    {
        match self {
            BlockPlan::Starve { dropped } => *dropped,
            BlockPlan::Underflow { dropped } => *dropped,
            BlockPlan::Play { dropped, .. } => *dropped,
            _ => 0,
        }
    }

    /// The cells of the stream after the plan was carried out.
    pub fn outcome(&self, state: StreamState, remaining: usize) -> (next: StreamState)
        ensures
            next == self.spec_outcome(state, remaining),
    {
        match self {
            BlockPlan::Reap | BlockPlan::Idle => state,
            BlockPlan::Unpatch => StreamState { active: false, ..state },
            BlockPlan::Wait => StreamState { position: 0, ..state },
            BlockPlan::Starve { dropped } | BlockPlan::Underflow { dropped } => StreamState {
                position: advance(state.position, *dropped),
                ..state
            },
            BlockPlan::Play { dropped, frames, .. } => StreamState {
                position: advance(advance(state.position, *dropped), *frames),
                alive: state.alive && !(state.kill_when_empty && remaining == 0),
                ..state
            },
        }
    }

    /// What the plan writes to the cells of the stream once it is carried out.
    pub fn update(&self, state: StreamState, remaining: usize) -> (update: StreamUpdate)
        ensures
            update == self.spec_update(state, remaining),
            state.spec_apply(update) == self.spec_outcome(state, remaining),
    {
        state.changes_to(self.outcome(state, remaining))
    }

    /// The notices to send after the plan was carried out.
    pub fn notices(&self, remaining: usize, capacity: usize, half_sent: bool, empty_sent: bool) -> (n:
        Notices)
        ensures
            n == self.spec_notices(remaining, capacity, half_sent, empty_sent),
    {
        match self {
            BlockPlan::Play { .. } => Notices {
                half_empty: !half_sent && remaining < capacity / 2,
                empty: !empty_sent && remaining == 0,
            },
            _ => Notices { half_empty: false, empty: false },
        }
    }
}

impl BlockPlan {
    /// The samples that the plan sends to the port, out of a buffer that
    /// holds `buffer`, oldest sample first.
    pub open spec fn spec_played<S>(self, buffer: Seq<S>) -> Seq<S> {
        buffer.subrange(self.consumed() - self.emitted(), self.consumed())
    }

    /// The samples that the plan drops, out of a buffer that holds `buffer`.
    pub open spec fn spec_skipped<S>(self, buffer: Seq<S>) -> Seq<S> {
        buffer.subrange(0, self.consumed() - self.emitted())
    }

    /// What is left of a buffer that holds `buffer` once the plan is carried out.
    pub open spec fn spec_left<S>(self, buffer: Seq<S>) -> Seq<S> {
        buffer.subrange(self.consumed(), buffer.len() as int)
    }
}

/// A plan never takes more samples than the buffer holds, and plays a whole
/// block or nothing.
pub proof fn lemma_plan_fits_buffer(
    state: StreamState,
    sample_rate: u64,
    now: u64,
    nframes: usize,
    buffered: usize,
    port: Option<PortId>,
)
    ensures
        ({
            let plan = spec_plan(state, sample_rate, now, nframes, buffered, port);
            &&& 0 <= plan.emitted() <= plan.consumed() <= buffered
            &&& plan.emitted() == 0 || plan.emitted() == nframes
            &&& plan.emitted() == nframes ==> plan is Play || nframes == 0
        }),
{
}

/// Before its start time a stream takes nothing from its buffer and sends
/// nothing to a port.
pub proof fn lemma_silent_before_start(
    state: StreamState,
    sample_rate: u64,
    now: u64,
    nframes: usize,
    buffered: usize,
    port: Option<PortId>,
)
    requires
        now < state.start_time,
    ensures
        spec_plan(state, sample_rate, now, nframes, buffered, port).consumed() == 0,
        spec_plan(state, sample_rate, now, nframes, buffered, port).emitted() == 0,
{
}

/// The position counts the samples taken from the buffer: whatever the plan,
/// unless it is to wait for the start time, the position does not go back
/// and moves on by what the plan takes, up to the largest value. A plan to
/// wait puts the position at zero.
pub proof fn lemma_position_counts_consumed(
    state: StreamState,
    sample_rate: u64,
    now: u64,
    nframes: usize,
    buffered: usize,
    port: Option<PortId>,
    remaining: usize,
)
    ensures
        ({
            let plan = spec_plan(state, sample_rate, now, nframes, buffered, port);
            let next = plan.spec_outcome(state, remaining);
            &&& plan is Wait ==> next.position == 0
            &&& !(plan is Wait) ==> next.position >= state.position && next.position
                == spec_advance(state.position, plan.consumed())
            &&& !(plan is Wait) && state.position + plan.consumed() <= u64::MAX ==> next.position
                == state.position + plan.consumed()
        }),
{
}

/// Catching up: a stream that plays, is patched and has started is behind by
/// `spec_lag` samples. With that many samples and a block more in its
/// buffer it drops the lag and plays the block; with fewer samples than the
/// lag it drops all it has; in between it drops the lag and plays nothing.
/// Where the buffer held the lag, the stream is on schedule afterwards.
pub proof fn lemma_catch_up(
    state: StreamState,
    sample_rate: u64,
    now: u64,
    nframes: usize,
    buffered: usize,
    port: PortId,
)
    requires
        state.alive,
        state.active,
        state.start_time <= now,
    ensures
        ({
            let owed = spec_elapsed_samples(state.start_time, now, sample_rate);
            let lag = spec_lag(state.position, owed);
            let plan = spec_plan(state, sample_rate, now, nframes, buffered, Some(port));
            &&& lag >= 0
            &&& buffered >= lag + nframes ==> plan.consumed() == lag + nframes && plan.emitted()
                == nframes
            &&& lag <= buffered < lag + nframes ==> plan.consumed() == lag && plan.emitted() == 0
            &&& buffered < lag ==> plan.consumed() == buffered && plan.emitted() == 0
            &&& buffered >= lag ==> state.position + lag + 1 >= owed
        }),
{
}

/// A stream whose patch names no present channel is deactivated and stays alive.
pub proof fn lemma_unpatched_stream_deactivates(
    state: StreamState,
    sample_rate: u64,
    now: u64,
    nframes: usize,
    buffered: usize,
    remaining: usize,
)
    requires
        state.alive,
        state.active,
    ensures
        ({
            let plan = spec_plan(state, sample_rate, now, nframes, buffered, None);
            let next = plan.spec_outcome(state, remaining);
            &&& plan is Unpatch
            &&& !next.active
            &&& next.alive
            &&& plan.consumed() == 0
        }),
{
}

/// A stream that is to die when empty dies in the block that empties its
/// buffer, and is a candidate for removal in every block after that.
pub proof fn lemma_kill_when_empty(
    state: StreamState,
    plan: BlockPlan,
    sample_rate: u64,
    now: u64,
    nframes: usize,
    buffered: usize,
    port: Option<PortId>,
)
    requires
        plan is Play,
        state.kill_when_empty,
    ensures
        !plan.spec_outcome(state, 0).alive,
        spec_plan(plan.spec_outcome(state, 0), sample_rate, now, nframes, buffered, port) is Reap,
{
}

/// Giving up a sender that is not the original writes nothing, so the stream
/// stays as it is; giving up the original leaves the stream dead and
/// inactive, and the audio thread then picks it for removal.
pub proof fn lemma_only_the_original_ends_the_stream(
    state: StreamState,
    sample_rate: u64,
    now: u64,
    nframes: usize,
    buffered: usize,
    port: Option<PortId>,
)
    ensures
        state.spec_apply(StreamUpdate::spec_release(false)) == state,
        !state.spec_apply(StreamUpdate::spec_release(true)).alive,
        !state.spec_apply(StreamUpdate::spec_release(true)).active,
        spec_plan(
            state.spec_apply(StreamUpdate::spec_release(true)),
            sample_rate,
            now,
            nframes,
            buffered,
            port,
        ) is Reap,
{
}

/// A stream that is started for the time `start` plays nothing while the
/// clock reads less, and plays from the first sample of its buffer, dropping
/// none, in a block at `start` for which its buffer holds enough.
pub proof fn lemma_started_stream_plays_at_its_time(
    state: StreamState,
    start: u64,
    sample_rate: u64,
    now: u64,
    nframes: usize,
    buffered: usize,
    port: PortId,
)
    requires
        state.alive,
        state.position == 0,
    ensures
        ({
            let begun = state.spec_apply(StreamUpdate::spec_play_from(start));
            &&& now < start ==> spec_plan(begun, sample_rate, now, nframes, buffered, Some(port))
                is Wait
            &&& buffered >= nframes ==> spec_plan(
                begun,
                sample_rate,
                start,
                nframes,
                buffered,
                Some(port),
            ) == (BlockPlan::Play { dropped: 0, frames: nframes, port })
        }),
{
}

/// A stream that was put back to its beginning at `now` is on schedule at
/// `now`: it has nothing to catch up.
pub proof fn lemma_rewound_stream_is_on_schedule(state: StreamState, now: u64, sample_rate: u64)
    ensures
        ({
            let rewound = state.spec_apply(StreamUpdate::spec_rewind(now));
            spec_lag(
                rewound.position,
                spec_elapsed_samples(rewound.start_time, now, sample_rate),
            ) == 0
        }),
{
}

/// The audio thread leaves a dead stream alone and never brings one back to
/// life, and neither does the control thread when it starts a stream, puts
/// it back to its beginning or gives a sender up.
pub proof fn lemma_dead_stream_stays_dead(
    state: StreamState,
    sample_rate: u64,
    now: u64,
    nframes: usize,
    buffered: usize,
    port: Option<PortId>,
    remaining: usize,
    time: u64,
    original: bool,
)
    requires
        !state.alive,
    ensures
        spec_plan(state, sample_rate, now, nframes, buffered, port) is Reap,
        spec_plan(state, sample_rate, now, nframes, buffered, port).spec_update(state, remaining)
            == StreamUpdate::spec_none(),
        forall|plan: BlockPlan| !(#[trigger] plan.spec_outcome(state, remaining)).alive,
        !state.spec_apply(StreamUpdate::spec_play_from(time)).alive,
        !state.spec_apply(StreamUpdate::spec_rewind(time)).alive,
        !state.spec_apply(StreamUpdate::spec_release(original)).alive,
{
}

/// Each notice goes out once: a notice that went out does not fall due
/// again, whatever the plan and the buffer.
pub proof fn lemma_notices_fall_due_once(
    plan: BlockPlan,
    remaining: usize,
    capacity: usize,
    half_sent: bool,
    empty_sent: bool,
)
    ensures
        half_sent ==> !plan.spec_notices(remaining, capacity, half_sent, empty_sent).half_empty,
        empty_sent ==> !plan.spec_notices(remaining, capacity, half_sent, empty_sent).empty,
{
}

/// A plan takes samples from the front of the buffer and keeps their order:
/// the buffer is what the plan drops, then what it plays, then what it leaves.
pub proof fn lemma_plan_keeps_order<S>(plan: BlockPlan, buffer: Seq<S>)
    requires
        plan.consumed() <= buffer.len(),
    ensures
        buffer == plan.spec_skipped(buffer) + plan.spec_played(buffer) + plan.spec_left(buffer),
        plan.spec_played(buffer).len() == plan.emitted(),
        plan.spec_skipped(buffer).len() + plan.spec_played(buffer).len() == plan.consumed(),
{
    assert(buffer =~= plan.spec_skipped(buffer) + plan.spec_played(buffer) + plan.spec_left(
        buffer,
    ));
}

} // verus!
