//! The control thread's side of the engine.
//!
//! The engine keeps the channel table and makes streams. Whatever it
//! changes, it returns the command that tells the audio thread; the
//! embedding program owns the server connection and the queues, and sends
//! the command on.
use vstd::prelude::*;
use std::sync::Arc;
use std::sync::atomic::AtomicU32;
use crate::channels::{ChannelTable, PortId};
use crate::device::{AudioThreadCommand, DeviceContext};
use crate::errors::{EngineError, EngineResult};
use crate::stream::{new_stream, Player, PlayerCount, Sender};
use crate::CONTROL_BUFFER_SIZE;

verus! {

/// Main engine context.
///
/// `H` is the handle through which the messages of the audio thread are
/// received.
pub struct EngineContext<H> {
    channels: ChannelTable,
    length: PlayerCount,
    rx: Option<H>,
}

impl<H> EngineContext<H> {
    /// The control thread's channel table.
    pub closed spec fn channels(&self) -> ChannelTable {
        self.channels
    }

    /// The count through which the audio thread tells how many players it holds.
    pub closed spec fn counter(&self) -> PlayerCount {
        self.length
    }

    /// The handle to the messages of the audio thread, until it is taken.
    pub closed spec fn handle(&self) -> Option<H> {
        self.rx
    }

    /// The engine is consistent: its channel table is.
    pub open spec fn wf(&self) -> bool {
        self.channels().wf()
    }

    /// The name under which the connection to the audio server is made:
    /// the given one, or "SQA Engine".
    pub fn client_name<'a>(name: Option<&'a str>) -> (client: &'a str)
        ensures
            client@ == match name {
                Some(given) => given@,
                None => "SQA Engine"@,
            },
    {
        match name {
            Some(given) => given,
            None => "SQA Engine",
        }
    }

    /// Whether the command queue, which holds `queued` commands, takes one
    /// more. A full queue is reported as `LimitExceeded`. Every operation
    /// that leaves a command for the audio thread asks this first, and does
    /// nothing where the queue is full.
    pub fn command_room(queued: usize) -> (r: EngineResult<()>)
        ensures
            queued < CONTROL_BUFFER_SIZE ==> r is Ok,
            queued >= CONTROL_BUFFER_SIZE ==> (r matches Err(e) && e is LimitExceeded),
    {
        if queued < CONTROL_BUFFER_SIZE {
            Ok(())
        } else {
            Err(EngineError::LimitExceeded)
        }
    }

    /// Initialise the engine for an audio server that runs at `sample_rate`
    /// Hz: the context of the control thread, which keeps `handle`, and the
    /// context to install as the server's realtime handler. Neither holds a
    /// channel or a stream, and both share one count of players.
    pub fn new<C>(handle: H, sample_rate: u64) -> (r: (EngineContext<H>, DeviceContext<C>))
        ensures
            r.0.wf(),
            r.0.channels().slots() == Seq::<Option<PortId>>::empty(),
            r.0.channels().holes() == Seq::<usize>::empty(),
            r.0.handle() == Some(handle),
            r.1.wf(),
            r.1.players() == Seq::<Player<C>>::empty(),
            r.1.channels().same_as(&r.0.channels()),
            r.1.counter() == r.0.counter(),
            r.1.rate() == sample_rate,
            r.1.reap_candidate() is None,
    {
        let length = PlayerCount::new();
        let device = DeviceContext::new(sample_rate, length.share());
        let engine = EngineContext { channels: ChannelTable::new(), length, rx: Some(handle) };
        (engine, device)
    }

    /// Obtain the handle to the messages of the audio thread.
    /// Can only be called once: returns `None` after the first call.
    ///
    /// The messages must be received continually. Once their queue is full,
    /// the audio thread can no longer hand over the players it removes or
    /// rejects, and they are never freed.
    pub fn get_handle(&mut self) -> (handle: Option<H>)
        ensures
            handle == old(self).handle(),
            final(self).handle() is None,
            final(self).channels() == old(self).channels(),
            final(self).counter() == old(self).counter(),
    {
        self.rx.take()
    }

    /// The number of players that the audio thread holds, as it last published it.
    pub fn num_senders(&self) -> (count: usize) {
        self.length.get()
    }

    /// The port of the channel at `index`, if a channel lives there.
    pub fn port_at(&self, index: usize) -> (port: Option<PortId>)
        ensures
            port == self.channels().spec_port_at(index),
    {
        self.channels.port_at(index)
    }

    /// Registers `port` as a new channel, with `queued` commands waiting in
    /// the command queue. Returns the index of the channel and the command
    /// that has the audio thread do the same.
    ///
    /// A freed index is handed out again before a new one is made, the
    /// oldest first. Fails with `LimitExceeded`, and changes nothing, when
    /// the command queue is full or `MAX_CHANS - 1` channels are live.
    pub fn new_channel<C>(&mut self, port: PortId, queued: usize) -> (r: EngineResult<
        (usize, AudioThreadCommand<C>),
    >)
        requires
            old(self).wf(),
        ensures
            final(self).wf(),
            final(self).handle() == old(self).handle(),
            final(self).counter() == old(self).counter(),
            queued >= CONTROL_BUFFER_SIZE || old(self).channels().full() ==> (r matches Err(e)
                && e is LimitExceeded && final(self).channels().same_as(&old(self).channels())),
            queued >= CONTROL_BUFFER_SIZE ==> final(self).channels() == old(self).channels(),
            queued < CONTROL_BUFFER_SIZE ==> old(self).channels().inserted(
                &final(self).channels(),
                port,
            ),
            queued < CONTROL_BUFFER_SIZE && !old(self).channels().full() ==> (r matches Ok(made)
                && made.0 == old(self).channels().next_index() && made.1
                == AudioThreadCommand::<C>::AddChannel(port)),
    {
        match Self::command_room(queued) {
            Ok(()) => {},
            Err(e) => { return Err(e); },
        }
        match self.channels.insert(port) {
            Ok(index) => Ok((index, AudioThreadCommand::AddChannel(port))),
            Err(e) => Err(e),
        }
    }

    /// Removes the channel at `idx`, with `queued` commands waiting in the
    /// command queue. Returns the port to unregister and the command that
    /// has the audio thread do the same.
    ///
    /// Fails with `LimitExceeded`, and changes nothing, when the command
    /// queue is full. Fails with `NoSuchChannel`, and changes nothing, when
    /// the queue has room and no channel lives at `idx`: when it was never
    /// handed out, or was freed since.
    pub fn remove_channel<C>(&mut self, idx: usize, queued: usize) -> (r: EngineResult<
        (PortId, AudioThreadCommand<C>),
    >)
        requires
            old(self).wf(),
        ensures
            final(self).wf(),
            final(self).handle() == old(self).handle(),
            final(self).counter() == old(self).counter(),
            queued >= CONTROL_BUFFER_SIZE ==> (r matches Err(e) && e is LimitExceeded) && final(
                self).channels() == old(self).channels(),
            queued < CONTROL_BUFFER_SIZE ==> old(self).channels().removed(
                &final(self).channels(),
                idx,
            ),
            queued < CONTROL_BUFFER_SIZE && old(self).channels().spec_port_at(idx) is None ==> (
            r matches Err(e) && e is NoSuchChannel),
            queued < CONTROL_BUFFER_SIZE ==> (old(self).channels().spec_port_at(idx) matches Some(
                port,
            ) ==> (r matches Ok(gone) && gone.0 == port && gone.1
                == AudioThreadCommand::<C>::RemoveChannel(idx))),
    {
        match Self::command_room(queued) {
            Ok(()) => {},
            Err(e) => { return Err(e); },
        }
        match self.channels.remove(idx) {
            Ok(port) => Ok((port, AudioThreadCommand::RemoveChannel(idx))),
            Err(e) => Err(e),
        }
    }

    /// Makes a stream of `sample_rate` Hz with a master volume of its own,
    /// with `queued` commands waiting in the command queue. Returns the
    /// original sender, which holds `producer`, and the command that hands
    /// the player, which holds `consumer`, to the audio thread.
    ///
    /// Fails with `LimitExceeded`, and makes no stream, when the command
    /// queue is full.
    pub fn new_sender<P, C>(
        &mut self,
        sample_rate: u64,
        producer: P,
        consumer: C,
        queued: usize,
    ) -> (r: EngineResult<(Sender<P>, AudioThreadCommand<C>)>)
        ensures
            *final(self) == *old(self),
            queued >= CONTROL_BUFFER_SIZE ==> (r matches Err(e) && e is LimitExceeded),
            queued < CONTROL_BUFFER_SIZE ==> (r matches Ok(made) && spec_new_stream(
                made.0,
                made.1,
                sample_rate,
                producer,
                consumer,
            )),
    {
        self.new_sender_ext(sample_rate, None, producer, consumer, queued)
    }

    /// Makes a stream with the sample rate of `master` that shares its
    /// master volume, with `queued` commands waiting in the command queue.
    ///
    /// Fails with `LimitExceeded`, and makes no stream, when the command
    /// queue is full.
    pub fn new_sender_with_master<T, P, C>(
        &mut self,
        master: &Sender<T>,
        producer: P,
        consumer: C,
        queued: usize,
    ) -> (r: EngineResult<(Sender<P>, AudioThreadCommand<C>)>)
        ensures
            *final(self) == *old(self),
            queued >= CONTROL_BUFFER_SIZE ==> (r matches Err(e) && e is LimitExceeded),
            queued < CONTROL_BUFFER_SIZE ==> (r matches Ok(made) && made.0.master()
                == master.master() && spec_new_stream(
                made.0,
                made.1,
                master.rate(),
                producer,
                consumer,
            )),
    {
        match Self::command_room(queued) {
            Ok(()) => {},
            Err(e) => { return Err(e); },
        }
        let shared = master.share_master();
        self.new_sender_ext(master.sample_rate(), Some(shared), producer, consumer, queued)
    }

    fn new_sender_ext<P, C>(
        &mut self,
        sample_rate: u64,
        master_vol: Option<Arc<AtomicU32>>,
        producer: P,
        consumer: C,
        queued: usize,
    ) -> (r: EngineResult<(Sender<P>, AudioThreadCommand<C>)>)
        ensures
            *final(self) == *old(self),
            queued >= CONTROL_BUFFER_SIZE ==> (r matches Err(e) && e is LimitExceeded),
            queued < CONTROL_BUFFER_SIZE ==> (r matches Ok(made) && spec_new_stream(
                made.0,
                made.1,
                sample_rate,
                producer,
                consumer,
            ) && (master_vol matches Some(shared) ==> made.0.master() == shared)),
    {
        match Self::command_room(queued) {
            Ok(()) => {},
            Err(e) => { return Err(e); },
        }
        let (sender, player) = new_stream(sample_rate, master_vol, producer, consumer);
        Ok((sender, AudioThreadCommand::AddPlayer(player)))
    }
}

/// Whether `sender` and `command` are what making a stream of `sample_rate`
/// Hz gives: the original sender, which holds `producer`, and the command
/// to add the player of the same stream, which holds `consumer` and of
/// which no notice went out.
pub open spec fn spec_new_stream<P, C>(
    sender: Sender<P>,
    command: AudioThreadCommand<C>,
    sample_rate: u64,
    producer: P,
    consumer: C,
) -> bool {
    &&& sender.is_original()
    &&& sender.rate() == sample_rate
    &&& sender.buffer() == producer
    &&& command matches AudioThreadCommand::AddPlayer(player)
    &&& player.cells() == sender.cells()
    &&& player.master() == sender.master()
    &&& player.id() == sender.id()
    &&& player.rate() == sample_rate
    &&& player.buffer() == consumer
    &&& !player.half_sent()
    &&& !player.empty_sent()
}

} // verus!
