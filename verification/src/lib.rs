//! Realtime audio engine core.
//!
//! A control thread creates streams, patches them to output channels and
//! schedules them against a monotonic nanosecond clock. One realtime thread
//! visits every stream once per audio block and decides what to do with it.
//! The two sides share a handful of atomic cells per stream and talk through
//! bounded single-producer single-consumer queues that the embedding program
//! owns.
//!
//! Every rule of the engine is a function on plain values with an exact
//! contract (`schedule`, `channels`). The types that own the shared cells
//! (`stream`, `device`, `engine`) read the cells, call those functions and
//! write back what they say. What is read from a cell is whatever the other
//! thread wrote last, so their contracts speak of the values that were read
//! and of what follows from them.
//!
//! Samples and gains are single-precision numbers that the library never
//! computes with: it carries a gain as its bits and leaves the samples in
//! their buffers, whose ends it holds without looking inside.
use vstd::prelude::*;

pub mod channels;
pub mod device;
pub mod engine;
pub mod errors;
pub mod param;
pub mod schedule;
pub mod stream;
pub mod timeline;

verus! {

/// The maximum number of streams that can play concurrently.
pub const MAX_PLAYERS: usize = 256;

/// The number of channel slots. One slot is kept free, so at most
/// `MAX_CHANS - 1` channels are live at any time.
pub const MAX_CHANS: usize = 64;

/// The size of a stream's buffer, in samples.
pub const STREAM_BUFFER_SIZE: usize = 100_000;

/// The size of the command queue between control thread and audio thread, in messages.
pub const CONTROL_BUFFER_SIZE: usize = MAX_PLAYERS * 2;

/// One second, in nanoseconds.
pub const ONE_SECOND_IN_NANOSECONDS: u64 = 1_000_000_000;

/// The output patch of a stream that is patched to no channel.
pub const NO_PATCH: usize = usize::MAX;

} // verus!
