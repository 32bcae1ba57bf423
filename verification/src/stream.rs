//! Streams: the cells that both sides of a stream share, the control
//! thread's handle to them and the audio thread's.
use vstd::prelude::*;
use std::sync::Arc;
use std::sync::atomic::{AtomicBool, AtomicU32, AtomicU64, AtomicUsize, Ordering};
use time::Duration;
use uuid::Uuid;
use crate::param::{Parameter, UNITY_GAIN};
use crate::schedule::{
    position_millis, spec_position_millis, Notices, StreamState, StreamUpdate,
};

verus! {

/// `uuid::Uuid`: the identifier of a stream, carried through as it is.
#[verifier::external_type_specification]
#[verifier::external_body]
pub struct ExUuid(Uuid);

/// `time::Duration`: a span of time, carried through as it is.
#[verifier::external_type_specification]
#[verifier::external_body]
pub struct ExDuration(Duration);

/// The position of a stream in whole milliseconds, as an `i64`.
pub open spec fn position_millis_of(position: u64, sample_rate: u64) -> i64 {
    spec_position_millis(position, sample_rate) as i64
}

/// The duration of a number of milliseconds.
pub uninterp spec fn millis_duration(millis: i64) -> Duration;

/// `Duration::milliseconds`: the duration of that many milliseconds.
#[verifier::external_body]
fn duration_of_millis(millis: i64) -> (d: Duration)
    ensures
        d == millis_duration(millis),
{
    Duration::milliseconds(millis)
}

/// `time::precise_time_ns`: the monotonic clock, in nanoseconds since an
/// epoch that is not specified. Nothing is claimed of the reading.
#[verifier::external_body]
fn clock_ns() -> (now: u64) {
    time::precise_time_ns()
}

/// `Uuid::new_v4`: a random identifier. Nothing is claimed of it.
#[verifier::external_body]
fn fresh_uuid() -> (id: Uuid) {
    Uuid::new_v4()
}

/// `Arc::clone`: one more pointer to the same allocation.
#[verifier::external_body]
fn share<T>(cell: &Arc<T>) -> (other: Arc<T>)
    ensures
        other == *cell,
{
    cell.clone()
}

/// `AtomicBool::store` with relaxed ordering, an ordering with which it does
/// not panic.
#[verifier::external_body]
fn store_flag(cell: &AtomicBool, value: bool)
    opens_invariants none
    no_unwind
{
    cell.store(value, Ordering::Relaxed)
}

/// The cells of one stream. Each is read and written on its own, by either
/// thread, with relaxed ordering: no cell's meaning depends on another's.
pub struct StreamCells {
    position: AtomicU64,
    active: AtomicBool,
    alive: AtomicBool,
    kill_when_empty: AtomicBool,
    start_time: AtomicU64,
    output_patch: AtomicUsize,
    volume: AtomicU32,
}

impl StreamCells {
    /// Cells that hold `state` and the gain `volume`.
    pub(crate) fn new(state: StreamState, volume: u32) -> (cells: StreamCells) {
        StreamCells {
            position: AtomicU64::new(state.position),
            active: AtomicBool::new(state.active),
            alive: AtomicBool::new(state.alive),
            kill_when_empty: AtomicBool::new(state.kill_when_empty),
            start_time: AtomicU64::new(state.start_time),
            output_patch: AtomicUsize::new(state.output_patch),
            volume: AtomicU32::new(volume),
        }
    }

    /// Reads every cell once.
    pub(crate) fn load(&self) -> (state: StreamState) {
        StreamState {
            active: self.active.load(Ordering::Relaxed),
            alive: self.alive.load(Ordering::Relaxed),
            kill_when_empty: self.kill_when_empty.load(Ordering::Relaxed),
            position: self.position.load(Ordering::Relaxed),
            start_time: self.start_time.load(Ordering::Relaxed),
            output_patch: self.output_patch.load(Ordering::Relaxed),
        }
    }

    /// Writes the values of `update` to their cells: the start time before
    /// the position, and whether the stream is active last.
    pub(crate) fn write(&self, update: StreamUpdate) {
        if let Some(start_time) = update.start_time {
            self.start_time.store(start_time, Ordering::Relaxed);
        }
        if let Some(position) = update.position {
            self.position.store(position, Ordering::Relaxed);
        }
        if let Some(alive) = update.alive {
            self.alive.store(alive, Ordering::Relaxed);
        }
        if let Some(active) = update.active {
            self.active.store(active, Ordering::Relaxed);
        }
    }

    /// Writes whether the stream is active and alive where `update` says so.
    /// It writes no other cell, and it does not unwind.
    pub(crate) fn write_flags(&self, update: StreamUpdate)
        opens_invariants none
        no_unwind
    {
        if let Some(active) = update.active {
            store_flag(&self.active, active);
        }
        if let Some(alive) = update.alive {
            store_flag(&self.alive, alive);
        }
    }

    /// Marks the stream as accepted by the audio thread.
    pub(crate) fn publish(&self) {
        self.alive.store(true, Ordering::Release);
    }

    /// The gain of the stream, read the way the audio thread reads it.
    pub(crate) fn volume(&self) -> (bits: u32) {
        self.volume.load(Ordering::Acquire)
    }
}

/// Reads a shared gain the way the audio thread reads it.
fn load_gain(cell: &Arc<AtomicU32>) -> (bits: u32) {
    cell.load(Ordering::Acquire)
}

/// Replaces a gain and returns the one it held.
fn swap_gain(cell: &AtomicU32, bits: u32) -> (previous: u32) {
    cell.swap(bits, Ordering::AcqRel)
}

/// The number of players that the audio thread holds, kept where the
/// control thread can read it.
pub struct PlayerCount {
    cell: Arc<AtomicUsize>,
}

impl PlayerCount {
    /// A count of zero.
    pub(crate) fn new() -> (count: PlayerCount) {
        PlayerCount { cell: Arc::new(AtomicUsize::new(0)) }
    }

    /// One more handle to the same count.
    pub(crate) fn share(&self) -> (other: PlayerCount)
        ensures
            other == *self,
    {
        PlayerCount { cell: share(&self.cell) }
    }

    /// Publishes the count. A stream that is marked alive afterwards is
    /// counted by whoever sees the mark.
    pub(crate) fn set(&self, count: usize) {
        self.cell.store(count, Ordering::Release);
    }

    /// Reads the count.
    pub(crate) fn get(&self) -> (count: usize) {
        self.cell.load(Ordering::Relaxed)
    }
}

/// The control thread's handle to a stream.
///
/// `T` is the producer end of the stream's buffer, or `()` for a handle that
/// cannot feed the stream.
pub struct Sender<T> {
    cells: Arc<StreamCells>,
    master_vol: Arc<AtomicU32>,
    buf: T,
    sample_rate: u64,
    original: bool,
    uuid: Uuid,
}

/// A `Sender` which cannot write data to its stream's buffer.
pub type PlainSender = Sender<()>;

impl<T> Sender<T> {
    /// The cells of the stream that the handle controls.
    pub closed spec fn cells(&self) -> Arc<StreamCells> {
        self.cells
    }

    /// The master gain that the stream is played with.
    pub closed spec fn master(&self) -> Arc<AtomicU32> {
        self.master_vol
    }

    /// The sample rate of the stream, in Hz.
    pub closed spec fn rate(&self) -> u64 {
        self.sample_rate
    }

    /// The end of the stream's buffer that the handle holds.
    pub closed spec fn buffer(&self) -> T {
        self.buf
    }

    /// Whether dropping the handle ends the stream.
    pub closed spec fn is_original(&self) -> bool {
        self.original
    }

    /// The identifier of the stream.
    pub closed spec fn id(&self) -> Uuid {
        self.uuid
    }

    /// Set whether this stream will die when its buffer runs out.
    pub fn set_kill_when_empty(&mut self, val: bool)
        ensures
            *final(self) == *old(self),
    {
        self.cells.kill_when_empty.store(val, Ordering::Relaxed);
    }

    /// Query whether this stream will die when its buffer runs out.
    pub fn kill_when_empty(&mut self) -> (val: bool)
        ensures
            *final(self) == *old(self),
    {
        self.cells.kill_when_empty.load(Ordering::Relaxed)
    }

    /// Set whether this stream will play samples or not.
    ///
    /// While a stream is not active the audio thread leaves it alone.
    pub fn set_active(&mut self, active: bool)
        ensures
            *final(self) == *old(self),
    {
        self.cells.active.store(active, Ordering::Relaxed);
    }

    /// Start playing the stream, from this moment on: the start time becomes
    /// the current reading of the clock, and the stream becomes active.
    pub fn unpause(&mut self)
        ensures
            *final(self) == *old(self),
    {
        let now = clock_ns();
        self.play_from_time(now);
    }

    /// Start playing the stream as if it was supposed to start at `time`: the
    /// start time becomes `time`, and the stream becomes active.
    pub fn play_from_time(&mut self, time: u64)
        ensures
            *final(self) == *old(self),
    {
        self.cells.write(StreamUpdate::play_from(time));
    }

    /// Set the master volume, for every stream that shares it.
    pub fn set_master_volume(&mut self, vol: Parameter<u32>)
        ensures
            *final(self) == *old(self),
    {
        let _ = swap_gain(&self.master_vol, vol.raw());
    }

    /// Get the master volume that this stream is played with.
    pub fn master_volume(&self) -> (vol: Parameter<u32>) {
        Parameter::Raw(load_gain(&self.master_vol))
    }

    /// Set the volume of this stream.
    pub fn set_volume(&mut self, vol: Parameter<u32>)
        ensures
            *final(self) == *old(self),
    {
        let _ = swap_gain(&self.cells.volume, vol.raw());
    }

    /// Get the volume of this stream.
    pub fn volume(&self) -> (vol: Parameter<u32>) {
        Parameter::Raw(self.cells.volume())
    }

    /// Get whether this stream will play samples or not.
    pub fn active(&self) -> (active: bool) {
        self.cells.active.load(Ordering::Relaxed)
    }

    /// Query whether this stream is alive. Once it is not, the audio thread
    /// no longer looks at it and nothing done to it has an effect.
    pub fn alive(&self) -> (alive: bool) {
        self.cells.alive.load(Ordering::Relaxed)
    }

    /// Resets this stream's position to 0.
    ///
    /// The start time is set to the current reading of the clock as well: the
    /// audio thread compares the two, and one without the other would have
    /// the stream drop its whole buffer to catch up, or stall.
    pub fn reset_position(&mut self)
        ensures
            *final(self) == *old(self),
    {
        let now = clock_ns();
        self.cells.write(StreamUpdate::rewind(now));
    }

    /// Get the stream's position in samples: the samples taken from its
    /// buffer since it started.
    pub fn position_samples(&self) -> (position: u64) {
        self.cells.position.load(Ordering::Relaxed)
    }

    /// Get the stream's position as a `Duration` of whole milliseconds.
    pub fn position(&self) -> (d: Duration)
        ensures
            exists|position: u64|
                d == millis_duration(
                    #[trigger] position_millis_of(position, self.rate()),
                ),
    {
        let position = self.position_samples();
        let millis = position_millis(position, self.sample_rate);
        assert(millis == position_millis_of(position, self.rate()));
        duration_of_millis(millis)
    }

    /// Get this stream's output patch: the index of the channel it is patched to.
    pub fn output_patch(&self) -> (patch: usize) {
        self.cells.output_patch.load(Ordering::Relaxed)
    }

    /// Set this stream's output patch.
    ///
    /// The audio thread deactivates a stream whose patch names no channel.
    pub fn set_output_patch(&mut self, patch: usize)
        ensures
            *final(self) == *old(self),
    {
        self.cells.output_patch.store(patch, Ordering::Relaxed);
    }

    /// Set this stream's start time: the reading of the monotonic clock at
    /// which it starts playing.
    ///
    /// The stream keeps its position in step with this time and drops
    /// samples where it has to catch up.
    pub fn set_start_time(&mut self, st: u64)
        ensures
            *final(self) == *old(self),
    {
        self.cells.start_time.store(st, Ordering::Relaxed);
    }

    /// Reads every cell of the stream once.
    pub fn state(&self) -> (state: StreamState) {
        self.cells.load()
    }

    /// One more pointer to the master volume of this stream, for a stream
    /// that is to share it.
    pub(crate) fn share_master(&self) -> (master: Arc<AtomicU32>)
        ensures
            master == self.master(),
    {
        share(&self.master_vol)
    }

    /// The sample rate of this sender. It can differ from the output sample rate.
    pub fn sample_rate(&self) -> (rate: u64)
        ensures
            rate == self.rate(),
    {
        self.sample_rate
    }

    /// The buffer to write samples to.
    pub fn buf(&mut self) -> (buf: &mut T)
        ensures
            *buf == old(self).buffer(),
            final(self).buffer() == *final(buf),
            final(self).cells() == old(self).cells(),
            final(self).master() == old(self).master(),
            final(self).rate() == old(self).rate(),
            final(self).is_original() == old(self).is_original(),
            final(self).id() == old(self).id(),
    {
        &mut self.buf
    }

    /// Get this sender's UUID.
    pub fn uuid(&self) -> (id: Uuid)
        ensures
            id == self.id(),
    {
        self.uuid
    }

    /// Make a `PlainSender` from this sender: a handle to the same stream
    /// that cannot feed it and whose drop leaves it alone.
    pub fn make_plain(&self) -> (plain: PlainSender)
        ensures
            plain.cells() == self.cells(),
            plain.master() == self.master(),
            plain.rate() == self.rate(),
            plain.id() == self.id(),
            !plain.is_original(),
    {
        Sender {
            cells: share(&self.cells),
            master_vol: share(&self.master_vol),
            buf: (),
            sample_rate: self.sample_rate,
            original: false,
            uuid: self.uuid,
        }
    }

    /// The reading of the monotonic clock that start times are compared with.
    pub fn precise_time_ns() -> (now: u64) {
        clock_ns()
    }
}

impl<T> Sender<T> {
    /// Gives the stream up, as dropping the sender does, and says whether
    /// that ended it: the original writes `StreamUpdate::spec_release(true)`,
    /// which deactivates the stream and marks it dead, and any other sender
    /// writes nothing.
    pub fn terminate(&mut self) -> (ended: bool)
        ensures
            ended == old(self).is_original(),
            *final(self) == *old(self),
        opens_invariants none
        no_unwind
    {
        self.cells.write_flags(StreamUpdate::release(self.original));
        self.original
    }
}

impl<T> Drop for Sender<T> {
    /// Ends the stream if this sender is the original.
    fn drop(&mut self)
        opens_invariants none
        no_unwind
    {
        let _ = self.terminate();
    }
}

/// The audio thread's handle to a stream.
///
/// `C` is the consumer end of the stream's buffer.
pub struct Player<C> {
    buf: C,
    sample_rate: u64,
    cells: Arc<StreamCells>,
    master_vol: Arc<AtomicU32>,
    uuid: Uuid,
    half_sent: bool,
    empty_sent: bool,
}

impl<C> Player<C> {
    /// The cells of the stream that the handle plays.
    pub closed spec fn cells(&self) -> Arc<StreamCells> {
        self.cells
    }

    /// The master gain that the stream is played with.
    pub closed spec fn master(&self) -> Arc<AtomicU32> {
        self.master_vol
    }

    /// The sample rate of the stream, in Hz.
    pub closed spec fn rate(&self) -> u64 {
        self.sample_rate
    }

    /// The end of the stream's buffer that the handle holds.
    pub closed spec fn buffer(&self) -> C {
        self.buf
    }

    /// The identifier of the stream.
    pub closed spec fn id(&self) -> Uuid {
        self.uuid
    }

    /// Whether the control thread was told that the buffer fell below half.
    pub closed spec fn half_sent(&self) -> bool {
        self.half_sent
    }

    /// Whether the control thread was told that the buffer ran empty.
    pub closed spec fn empty_sent(&self) -> bool {
        self.empty_sent
    }

    /// Whether `other` is a handle to the same stream: the same cells,
    /// master volume, buffer, sample rate and identifier. The notices that
    /// went out may differ.
    pub open spec fn same_stream(&self, other: &Player<C>) -> bool {
        &&& other.cells() == self.cells()
        &&& other.master() == self.master()
        &&& other.rate() == self.rate()
        &&& other.buffer() == self.buffer()
        &&& other.id() == self.id()
    }

    /// This player with the notices of `notices` marked as sent: a notice
    /// that went out before stays marked, and nothing else changes.
    pub closed spec fn with_notices(self, notices: Notices) -> Player<C> {
        Player {
            half_sent: self.half_sent || notices.half_empty,
            empty_sent: self.empty_sent || notices.empty,
            ..self
        }
    }

    /// Whether `next` is this player with the notices of `notices` marked as sent.
    pub open spec fn noted(&self, next: &Player<C>, notices: Notices) -> bool {
        &&& self.same_stream(next)
        &&& next.half_sent() == (self.half_sent() || notices.half_empty)
        &&& next.empty_sent() == (self.empty_sent() || notices.empty)
    }

    /// The buffer to read samples from.
    pub fn buf(&self) -> (buf: &C)
        ensures
            *buf == self.buffer(),
    {
        &self.buf
    }

    /// The sample rate of the stream, in Hz.
    pub fn sample_rate(&self) -> (rate: u64)
        ensures
            rate == self.rate(),
    {
        self.sample_rate
    }

    /// The identifier of the stream.
    pub fn uuid(&self) -> (id: Uuid)
        ensures
            id == self.id(),
    {
        self.uuid
    }

    /// Whether the notice of a half-empty buffer went out.
    pub fn half_empty_sent(&self) -> (sent: bool)
        ensures
            sent == self.half_sent(),
    {
        self.half_sent
    }

    /// Whether the notice of an empty buffer went out.
    pub fn empty_sent_already(&self) -> (sent: bool)
        ensures
            sent == self.empty_sent(),
    {
        self.empty_sent
    }

    /// Reads every cell of the stream once.
    pub(crate) fn observe(&self) -> (state: StreamState) {
        self.cells.load()
    }

    /// Writes the values of `update` to the cells of the stream.
    pub(crate) fn commit(&self, update: StreamUpdate) {
        self.cells.write(update)
    }

    /// Marks the stream as accepted by the audio thread.
    pub(crate) fn publish(&self) {
        self.cells.publish()
    }

    /// The volume to play the stream with.
    pub fn volume(&self) -> (vol: Parameter<u32>) {
        Parameter::Raw(self.cells.volume())
    }

    /// The master volume to play the stream with.
    pub fn master_volume(&self) -> (vol: Parameter<u32>) {
        Parameter::Raw(load_gain(&self.master_vol))
    }

    /// Marks the notices of `notices` as sent.
    pub(crate) fn note(&mut self, notices: Notices)
        ensures
            *final(self) == old(self).with_notices(notices),
            old(self).noted(final(self), notices),
    {
        if notices.half_empty {
            self.half_sent = true;
        }
        if notices.empty {
            self.empty_sent = true;
        }
    }
}

/// Marking notices as sent leaves the stream of a player as it is, keeps
/// what was marked before, and marks what `notices` holds.
pub proof fn lemma_with_notices<C>(player: Player<C>, notices: Notices)
    ensures
        player.noted(&player.with_notices(notices), notices),
        player.same_stream(&player.with_notices(notices)),
        !notices.half_empty && !notices.empty ==> player.with_notices(notices) == player,
{
}

/// Makes a stream of `sample_rate` Hz: the sender for the control thread,
/// which holds `producer`, and the player for the audio thread, which holds
/// `consumer`. Both hold the same cells.
///
/// The stream starts in the state `StreamState::spec_initial()`, with a
/// volume of one. Its master volume is `master` where one is given, and else
/// a new one of one.
pub(crate) fn new_stream<P, C>(
    sample_rate: u64,
    master: Option<Arc<AtomicU32>>,
    producer: P,
    consumer: C,
) -> (stream: (Sender<P>, Player<C>))
    ensures
        stream.0.is_original(),
        stream.0.rate() == sample_rate,
        stream.0.buffer() == producer,
        master matches Some(shared) ==> stream.0.master() == shared,
        stream.1.cells() == stream.0.cells(),
        stream.1.master() == stream.0.master(),
        stream.1.id() == stream.0.id(),
        stream.1.rate() == sample_rate,
        stream.1.buffer() == consumer,
        !stream.1.half_sent(),
        !stream.1.empty_sent(),
{
    let cells = Arc::new(StreamCells::new(StreamState::initial(), UNITY_GAIN));
    let master_vol = match master {
        Some(shared) => shared,
        None => Arc::new(AtomicU32::new(UNITY_GAIN)),
    };
    let uuid = fresh_uuid();
    let player = Player {
        buf: consumer,
        sample_rate,
        cells: share(&cells),
        master_vol: share(&master_vol),
        uuid,
        half_sent: false,
        empty_sent: false,
    };
    let sender = Sender { cells, master_vol, buf: producer, sample_rate, original: true, uuid };
    (sender, player)
}

} // verus!
