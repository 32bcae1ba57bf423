//! The audio thread's side of the engine.
//!
//! The audio server calls the embedding program once per block, and the
//! program calls `DeviceContext::process` with the command it took from the
//! command queue. The device context decides what happens to each player;
//! the program does it to the player's buffer and the port, and afterwards
//! sends off the messages that the block left in the outbox. Nothing here
//! waits for anything.
//!
//! The steps of `process` can be called one by one as well: `handle`, then
//! `plan_player` and `finish_player` for each player, then `end_block`.
use vstd::prelude::*;
use uuid::Uuid;
use crate::channels::{ChannelTable, PortId};
use crate::schedule::{plan_block, spec_plan, BlockPlan, StreamState};
use crate::schedule::Notices;
use crate::stream::{lemma_with_notices, Player, PlayerCount};
use crate::{MAX_PLAYERS, STREAM_BUFFER_SIZE};

verus! {

/// What the control thread asks of the audio thread.
pub enum AudioThreadCommand<C> {
    /// Take up a new player.
    AddPlayer(Player<C>),
    /// Register a port as a new channel.
    AddChannel(PortId),
    /// Remove the channel at an index.
    RemoveChannel(usize),
}

/// What the audio thread tells the control thread. A message that holds a
/// player hands it over, so that it is freed on the control thread.
pub enum AudioThreadMessage<C> {
    /// A dead player was removed.
    PlayerEnded(Player<C>),
    /// A new player found no room.
    PlayerRejected(Player<C>),
    /// The buffer of a stream fell below half of its capacity.
    HalfEmpty(Uuid),
    /// The buffer of a stream ran empty.
    Empty(Uuid),
}

/// `std::mem::forget`: the value is given up and its destructor never runs.
#[verifier::external_body]
fn forget<T>(value: T) {
    std::mem::forget(value)
}

impl<C> AudioThreadMessage<C> {
    /// Gives up a message that the queue to the control thread had no room
    /// for. A player in it is leaked: to free it could block, and the audio
    /// thread must not. A notice is simply lost.
    pub fn abandon(self) {
        match self {
            AudioThreadMessage::PlayerEnded(player) => forget(player),
            AudioThreadMessage::PlayerRejected(player) => forget(player),
            AudioThreadMessage::HalfEmpty(_) => {},
            AudioThreadMessage::Empty(_) => {},
        }
    }
}

/// The number of players left at the end of a block that began with `count`
/// players: one less where a dead player was found.
pub open spec fn spec_count_after_block(count: nat, found_dead: bool) -> nat {
    if found_dead && count > 0 {
        (count - 1) as nat
    } else {
        count
    }
}

/// The candidate for removal once the player at `index` got `plan`: a player
/// that is to be reaped becomes the candidate unless there is one already.
pub open spec fn spec_note_candidate(before: Option<usize>, index: usize, plan: BlockPlan) -> Option<
    usize,
> {
    if plan is Reap && before is None {
        Some(index)
    } else {
        before
    }
}

/// The candidate for removal once the players got `plans`, one after the
/// other from the first, in a block that began without a candidate.
pub open spec fn spec_candidate_after(plans: Seq<BlockPlan>) -> Option<usize>
    decreases plans.len(),
{
    if plans.len() == 0 {
        None
    } else {
        spec_note_candidate(
            spec_candidate_after(plans.drop_last()),
            (plans.len() - 1) as usize,
            plans.last(),
        )
    }
}

/// Whether `next` holds handles to the same streams as `players`, in the
/// same order.
pub open spec fn same_streams<C>(players: Seq<Player<C>>, next: Seq<Player<C>>) -> bool {
    &&& next.len() == players.len()
    &&& forall|index: int|
        #![trigger players[index]]
        #![trigger next[index]]
        0 <= index < players.len() ==> players[index].same_stream(&next[index])
}

/// The players once `command` is carried out: a new player goes to the end
/// where there is room for it.
pub open spec fn spec_taken_up<C>(
    players: Seq<Player<C>>,
    command: Option<AudioThreadCommand<C>>,
) -> Seq<Player<C>> {
    match command {
        Some(AudioThreadCommand::AddPlayer(player)) => if players.len() < MAX_PLAYERS {
            players.push(player)
        } else {
            players
        },
        _ => players,
    }
}

/// The players once the one at `reaped`, if any, is removed: the last player
/// takes its place.
pub open spec fn spec_reaped<C>(players: Seq<Player<C>>, reaped: Option<usize>) -> Seq<Player<C>> {
    match reaped {
        Some(index) => players.update(index as int, players.last()).drop_last(),
        None => players,
    }
}

/// What one block saw and decided, player by player in the order of the
/// visit: the cells as they were read, the samples that waited in the
/// buffer, the plan, and the samples left once the plan was carried out.
pub struct BlockLog {
    pub states: Seq<StreamState>,
    pub buffered: Seq<usize>,
    pub plans: Seq<BlockPlan>,
    pub remaining: Seq<usize>,
}

impl BlockLog {
    /// The log of a block that has visited no player yet.
    pub open spec fn empty() -> BlockLog {
        BlockLog {
            states: Seq::empty(),
            buffered: Seq::empty(),
            plans: Seq::empty(),
            remaining: Seq::empty(),
        }
    }

    /// The log with the visit of one more player.
    pub open spec fn push(
        self,
        state: StreamState,
        buffered: usize,
        plan: BlockPlan,
        remaining: usize,
    ) -> BlockLog {
        BlockLog {
            states: self.states.push(state),
            buffered: self.buffered.push(buffered),
            plans: self.plans.push(plan),
            remaining: self.remaining.push(remaining),
        }
    }

    /// Whether the log holds the visits of `count` players.
    pub open spec fn covers(self, count: nat) -> bool {
        &&& self.states.len() == count
        &&& self.buffered.len() == count
        &&& self.plans.len() == count
        &&& self.remaining.len() == count
    }

    /// The notices that fell due for the player at `index`, given which of
    /// its notices went out before the block.
    pub open spec fn notices<C>(self, players: Seq<Player<C>>, index: int) -> Notices {
        self.plans[index].spec_notices(
            self.remaining[index],
            STREAM_BUFFER_SIZE,
            players[index].half_sent(),
            players[index].empty_sent(),
        )
    }
}

/// Whether the log tells the visit of the player at `index` as a block does
/// it: `size` gave the samples that waited, the plan is the one for the
/// cells as read and for that size, `carry_out` was called with the player
/// and that plan, and `size` then gave the samples that were left.
pub open spec fn spec_visit<C, S: Fn(&C) -> usize, X: Fn(&Player<C>, BlockPlan) -> ()>(
    size: S,
    carry_out: X,
    channels: ChannelTable,
    players: Seq<Player<C>>,
    now: u64,
    nframes: usize,
    log: BlockLog,
    index: int,
) -> bool {
    &&& call_ensures(size, (&players[index].buffer(),), log.buffered[index])
    &&& log.plans[index] == spec_plan(
        log.states[index],
        players[index].rate(),
        now,
        nframes,
        log.buffered[index],
        channels.spec_port_at(log.states[index].output_patch),
    )
    &&& call_ensures(carry_out, (&players[index], log.plans[index]), ())
    &&& call_ensures(size, (&players[index].buffer(),), log.remaining[index])
}

/// Whether the log tells the visit of every player of `players`.
pub open spec fn spec_visits<C, S: Fn(&C) -> usize, X: Fn(&Player<C>, BlockPlan) -> ()>(
    size: S,
    carry_out: X,
    channels: ChannelTable,
    players: Seq<Player<C>>,
    now: u64,
    nframes: usize,
    log: BlockLog,
) -> bool {
    &&& log.covers(players.len())
    &&& forall|index: int|
        0 <= index < players.len() ==> #[trigger] spec_visit(
            size,
            carry_out,
            channels,
            players,
            now,
            nframes,
            log,
            index,
        )
}

/// The players once all were visited: each with the notices marked that
/// fell due for it.
pub open spec fn spec_visited<C>(players: Seq<Player<C>>, log: BlockLog) -> Seq<Player<C>> {
    Seq::new(players.len(), |index: int| players[index].with_notices(log.notices(players, index)))
}

/// The messages for the notices `notices` of the stream `id`: the one for a
/// buffer below half first.
pub open spec fn spec_messages_of<C>(id: Uuid, notices: Notices) -> Seq<AudioThreadMessage<C>> {
    let half = if notices.half_empty {
        seq![AudioThreadMessage::<C>::HalfEmpty(id)]
    } else {
        Seq::<AudioThreadMessage<C>>::empty()
    };
    let empty = if notices.empty {
        seq![AudioThreadMessage::<C>::Empty(id)]
    } else {
        Seq::<AudioThreadMessage<C>>::empty()
    };
    half + empty
}

/// The messages for the notices of the first `upto` players, in the order
/// of the visit.
pub open spec fn spec_notice_messages<C>(players: Seq<Player<C>>, log: BlockLog, upto: nat) -> Seq<
    AudioThreadMessage<C>,
>
    decreases upto,
{
    if upto == 0 {
        Seq::empty()
    } else {
        spec_notice_messages(players, log, (upto - 1) as nat) + spec_messages_of(
            players[upto - 1].id(),
            log.notices(players, upto - 1),
        )
    }
}

/// The message for a player that `command` brought and that found no room.
pub open spec fn spec_rejection<C>(
    players: Seq<Player<C>>,
    command: Option<AudioThreadCommand<C>>,
) -> Seq<AudioThreadMessage<C>> {
    match command {
        Some(AudioThreadCommand::AddPlayer(player)) => if players.len() < MAX_PLAYERS {
            Seq::empty()
        } else {
            seq![AudioThreadMessage::PlayerRejected(player)]
        },
        _ => Seq::empty(),
    }
}

/// The message that hands out the player at `reaped`, if any.
pub open spec fn spec_ending<C>(players: Seq<Player<C>>, reaped: Option<usize>) -> Seq<
    AudioThreadMessage<C>,
> {
    match reaped {
        Some(index) => seq![AudioThreadMessage::PlayerEnded(players[index as int])],
        None => Seq::empty(),
    }
}

/// Whether a block that began with the players `before` and got `command`
/// went as `log` tells, removed the player at `reaped`, left the players
/// `after` and sent the messages `sent`:
/// every player that is held once the command is carried out was visited,
/// in order; the player removed is the first whose plan was to reap;
/// the players left are the visited ones without it; and the messages are
/// the rejection, if any, then the notices in the order of the visit, then
/// the removed player, if any.
pub open spec fn spec_block<C, S: Fn(&C) -> usize, X: Fn(&Player<C>, BlockPlan) -> ()>(
    size: S,
    carry_out: X,
    before: Seq<Player<C>>,
    command: Option<AudioThreadCommand<C>>,
    channels: ChannelTable,
    now: u64,
    nframes: usize,
    log: BlockLog,
    reaped: Option<usize>,
    after: Seq<Player<C>>,
    sent: Seq<AudioThreadMessage<C>>,
) -> bool {
    let taken = spec_taken_up(before, command);
    &&& spec_visits(size, carry_out, channels, taken, now, nframes, log)
    &&& reaped == spec_candidate_after(log.plans)
    &&& after == spec_reaped(spec_visited(taken, log), reaped)
    &&& sent == spec_rejection(before, command) + spec_notice_messages(taken, log, taken.len())
        + spec_ending(spec_visited(taken, log), reaped)
}

/// Whether `message` is a notice that fell due for the player at `index`:
/// the player's block was played, the notice had not gone out for it
/// before, and its buffer was left below half, for `HalfEmpty`, or empty,
/// for `Empty`.
pub open spec fn spec_is_notice_of<C>(
    message: AudioThreadMessage<C>,
    players: Seq<Player<C>>,
    log: BlockLog,
    index: int,
) -> bool {
    ||| message == AudioThreadMessage::<C>::HalfEmpty(players[index].id())
        && !players[index].half_sent() && log.plans[index] is Play && log.remaining[index]
        < STREAM_BUFFER_SIZE / 2
    ||| message == AudioThreadMessage::<C>::Empty(players[index].id())
        && !players[index].empty_sent() && log.plans[index] is Play && log.remaining[index] == 0
}

/// Whether `message` is a notice that fell due for one of the first `upto`
/// players.
pub open spec fn spec_is_notice<C>(
    message: AudioThreadMessage<C>,
    players: Seq<Player<C>>,
    log: BlockLog,
    upto: nat,
) -> bool {
    exists|index: int| 0 <= index < upto && spec_is_notice_of(message, players, log, index)
}

/// The notices of a block: there are at most two for each player, one of
/// each kind, and each is a notice that fell due for a player that was
/// visited and for which it had not gone out before.
pub proof fn lemma_notice_messages<C>(players: Seq<Player<C>>, log: BlockLog, upto: nat)
    requires
        upto <= players.len(),
        log.covers(players.len()),
    ensures
        spec_notice_messages(players, log, upto).len() <= 2 * upto,
        forall|notices: Notices, id: Uuid|
            (#[trigger] spec_messages_of::<C>(id, notices)).len() == (if notices.half_empty {
                1int
            } else {
                0int
            }) + (if notices.empty {
                1int
            } else {
                0int
            }),
        forall|k: int|
            0 <= k < spec_notice_messages(players, log, upto).len() ==> spec_is_notice(
                #[trigger] spec_notice_messages(players, log, upto)[k],
                players,
                log,
                upto,
            ),
    decreases upto,
{
    if upto > 0 {
        let earlier = spec_notice_messages(players, log, (upto - 1) as nat);
        let last = spec_messages_of::<C>(players[upto - 1].id(), log.notices(players, upto - 1));
        let all = spec_notice_messages(players, log, upto);
        lemma_notice_messages(players, log, (upto - 1) as nat);
        assert(all == earlier + last);
        assert forall|k: int| 0 <= k < all.len() implies spec_is_notice(
            #[trigger] all[k],
            players,
            log,
            upto,
        ) by {
            if k < earlier.len() {
                assert(all[k] == earlier[k]);
                assert(spec_is_notice(earlier[k], players, log, (upto - 1) as nat));
                let index = choose|index: int|
                    0 <= index < upto - 1 && spec_is_notice_of(earlier[k], players, log, index);
                assert(spec_is_notice_of(all[k], players, log, index));
            } else {
                assert(all[k] == last[k - earlier.len()]);
                assert(spec_is_notice_of(all[k], players, log, upto - 1));
            }
        }
    }
}

/// The messages for the notices of the first players depend on the visits
/// of those players alone.
pub proof fn lemma_notice_messages_of_prefix<C>(
    players: Seq<Player<C>>,
    log: BlockLog,
    longer: BlockLog,
    upto: nat,
)
    requires
        upto <= log.plans.len(),
        upto <= log.remaining.len(),
        forall|index: int| 0 <= index < upto ==> log.plans[index] == longer.plans[index],
        forall|index: int| 0 <= index < upto ==> log.remaining[index] == longer.remaining[index],
    ensures
        spec_notice_messages(players, log, upto) == spec_notice_messages(players, longer, upto),
    decreases upto,
{
    if upto > 0 {
        lemma_notice_messages_of_prefix(players, log, longer, (upto - 1) as nat);
    }
}

/// The state of the audio thread: the players it holds, its copy of the
/// channel table, and the dead player it has picked for removal in this block.
///
/// The players stand in a vector that is made with room for `MAX_PLAYERS`
/// and never holds more, so that taking up a player does not allocate.
pub struct DeviceContext<C> {
    players: Vec<Player<C>>,
    channels: ChannelTable,
    length: PlayerCount,
    sample_rate: u64,
    to_remove: Option<usize>,
}

impl<C> DeviceContext<C> {
    /// The players, in the order in which they are visited.
    pub closed spec fn players(&self) -> Seq<Player<C>> {
        self.players@
    }

    /// The audio thread's copy of the channel table.
    pub closed spec fn channels(&self) -> ChannelTable {
        self.channels
    }

    /// The count through which the control thread learns how many players there are.
    pub closed spec fn counter(&self) -> PlayerCount {
        self.length
    }

    /// The sample rate of the audio server, in Hz.
    pub closed spec fn rate(&self) -> u64 {
        self.sample_rate
    }

    /// The index of the dead player picked for removal at the end of this
    /// block: the first one that was seen dead.
    pub closed spec fn reap_candidate(&self) -> Option<usize> {
        self.to_remove
    }

    /// The context is consistent: no more than `MAX_PLAYERS` players, a
    /// consistent channel table, and a candidate for removal that exists.
    pub open spec fn wf(&self) -> bool {
        &&& self.players().len() <= MAX_PLAYERS
        &&& self.channels().wf()
        &&& self.reap_candidate() matches Some(index) ==> index < self.players().len()
    }

    /// Whether `next` differs from this context in the players alone.
    pub open spec fn same_but_players(&self, next: &DeviceContext<C>) -> bool {
        &&& next.channels() == self.channels()
        &&& next.counter() == self.counter()
        &&& next.rate() == self.rate()
        &&& next.reap_candidate() == self.reap_candidate()
    }

    /// A context without players or channels for a server that runs at
    /// `sample_rate` Hz.
    pub(crate) fn new(sample_rate: u64, length: PlayerCount) -> (device: DeviceContext<C>)
        ensures
            device.wf(),
            device.players() == Seq::<Player<C>>::empty(),
            device.channels().slots() == Seq::<Option<PortId>>::empty(),
            device.channels().holes() == Seq::<usize>::empty(),
            device.counter() == length,
            device.rate() == sample_rate,
            device.reap_candidate() is None,
    {
        DeviceContext {
            players: Vec::with_capacity(MAX_PLAYERS),
            channels: ChannelTable::new(),
            length,
            sample_rate,
            to_remove: None,
        }
    }

    /// The number of players.
    pub fn num_players(&self) -> (count: usize)
        ensures
            count == self.players().len(),
    {
        self.players.len()
    }

    /// The player at `index`.
    pub fn player(&self, index: usize) -> (player: &Player<C>)
        requires
            index < self.players().len(),
        ensures
            *player == self.players()[index as int],
    {
        &self.players[index]
    }

    /// The sample rate of the audio server, in Hz.
    pub fn sample_rate(&self) -> (rate: u64)
        ensures
            rate == self.rate(),
    {
        self.sample_rate
    }

    /// The port of the channel at `index`, if a channel lives there.
    pub fn port_at(&self, index: usize) -> (port: Option<PortId>)
        ensures
            port == self.channels().spec_port_at(index),
    {
        self.channels.port_at(index)
    }

    /// Carries out one command of the control thread.
    ///
    /// A new player is taken up at the end of the players, counted and then
    /// marked alive; where `MAX_PLAYERS` players are held already it comes
    /// back in a `PlayerRejected` message and stays unmarked. A channel is
    /// added or removed as the control thread did it on its own table.
    pub fn handle(&mut self, cmd: AudioThreadCommand<C>) -> (reply: Option<AudioThreadMessage<C>>)
        requires
            old(self).wf(),
        ensures
            final(self).wf(),
            final(self).counter() == old(self).counter(),
            final(self).rate() == old(self).rate(),
            final(self).reap_candidate() == old(self).reap_candidate(),
            match cmd {
                AudioThreadCommand::AddPlayer(player) => {
                    &&& final(self).channels() == old(self).channels()
                    &&& if old(self).players().len() < MAX_PLAYERS {
                        reply is None && final(self).players() == old(self).players().push(player)
                    } else {
                        reply == Some(AudioThreadMessage::PlayerRejected(player)) && final(
                            self).players() == old(self).players()
                    }
                },
                AudioThreadCommand::AddChannel(port) => {
                    &&& reply is None
                    &&& final(self).players() == old(self).players()
                    &&& old(self).channels().inserted(&final(self).channels(), port)
                },
                AudioThreadCommand::RemoveChannel(index) => {
                    &&& reply is None
                    &&& final(self).players() == old(self).players()
                    &&& old(self).channels().removed(&final(self).channels(), index)
                },
            },
    {
        match cmd {
            AudioThreadCommand::AddPlayer(player) => {
                if self.players.len() < MAX_PLAYERS {
                    self.players.push(player);
                    let count = self.players.len();
                    self.length.set(count);
                    self.players[count - 1].publish();
                    None
                } else {
                    Some(AudioThreadMessage::PlayerRejected(player))
                }
            },
            AudioThreadCommand::AddChannel(port) => {
                let _ = self.channels.insert(port);
                None
            },
            AudioThreadCommand::RemoveChannel(index) => {
                let _ = self.channels.remove(index);
                None
            },
        }
    }

    /// Looks at the player at `index` and decides what this block does with
    /// it, given that `buffered` samples wait in its buffer.
    ///
    /// Returns the cells as they were read and the plan for them. A player
    /// that is seen dead becomes the candidate for removal unless there is
    /// one already.
    pub fn plan_player(&mut self, index: usize, now: u64, nframes: usize, buffered: usize) -> (r: (
        StreamState,
        BlockPlan,
    ))
        requires
            old(self).wf(),
            index < old(self).players().len(),
        ensures
            final(self).wf(),
            final(self).players() == old(self).players(),
            final(self).channels() == old(self).channels(),
            final(self).counter() == old(self).counter(),
            final(self).rate() == old(self).rate(),
            r.1 == spec_plan(
                r.0,
                old(self).players()[index as int].rate(),
                now,
                nframes,
                buffered,
                old(self).channels().spec_port_at(r.0.output_patch),
            ),
            final(self).reap_candidate() == spec_note_candidate(
                old(self).reap_candidate(),
                index,
                r.1,
            ),
    {
        let state = self.players[index].observe();
        let port = self.channels.port_at(state.output_patch);
        let plan = plan_block(state, self.players[index].sample_rate(), now, nframes, buffered, port);
        match plan {
            BlockPlan::Reap => {
                if self.to_remove.is_none() {
                    self.to_remove = Some(index);
                }
            },
            _ => {},
        }
        (state, plan)
    }

    /// Records that `plan` was carried out for the player at `index`, whose
    /// cells read `observed` when the plan was made and whose buffer now
    /// holds `remaining` samples.
    ///
    /// Writes the cells that the plan changes and returns what they hold
    /// now, with the `HalfEmpty` and the `Empty` message where one falls
    /// due. Each of the two is handed out once for a stream.
    pub fn finish_player(
        &mut self,
        index: usize,
        observed: StreamState,
        plan: BlockPlan,
        remaining: usize,
    ) -> (r: (StreamState, Option<AudioThreadMessage<C>>, Option<AudioThreadMessage<C>>))
        requires
            old(self).wf(),
            index < old(self).players().len(),
        ensures
            final(self).wf(),
            old(self).same_but_players(final(self)),
            r.0 == plan.spec_outcome(observed, remaining),
            final(self).players().len() == old(self).players().len(),
            forall|other: int|
                0 <= other < old(self).players().len() && other != index ==> final(
                    self).players()[other] == old(self).players()[other],
            ({
                let before = old(self).players()[index as int];
                let notices = plan.spec_notices(
                    remaining,
                    STREAM_BUFFER_SIZE,
                    before.half_sent(),
                    before.empty_sent(),
                );
                &&& final(self).players() == old(self).players().update(
                    index as int,
                    before.with_notices(notices),
                )
                &&& before.noted(&final(self).players()[index as int], notices)
                &&& r.1 == if notices.half_empty {
                    Some(AudioThreadMessage::<C>::HalfEmpty(before.id()))
                } else {
                    None
                }
                &&& r.2 == if notices.empty {
                    Some(AudioThreadMessage::<C>::Empty(before.id()))
                } else {
                    None
                }
            }),
    {
        let update = plan.update(observed, remaining);
        let next = observed.apply(update);
        let player = &mut self.players[index];
        player.commit(update);
        let notices = plan.notices(
            remaining,
            STREAM_BUFFER_SIZE,
            player.half_empty_sent(),
            player.empty_sent_already(),
        );
        let id = player.uuid();
        player.note(notices);
        let half = if notices.half_empty {
            Some(AudioThreadMessage::HalfEmpty(id))
        } else {
            None
        };
        let empty = if notices.empty {
            Some(AudioThreadMessage::Empty(id))
        } else {
            None
        };
        (next, half, empty)
    }

    /// One call of the audio server: carries out `command`, visits every
    /// player, and removes the first one that was found dead. Returns the
    /// index that the removed player had.
    ///
    /// The visit of a player asks `size` for the samples that wait, reads the
    /// cells, makes the plan, has `carry_out` do it, asks `size` again for
    /// what is left, writes the cells that the plan changes and marks the
    /// notices that fell due. What the block saw is a `BlockLog`; the
    /// players it leaves and the messages it sends are exactly those of
    /// `spec_block` for that log.
    ///
    /// `size` tells how many samples wait in a buffer. `carry_out` does to a
    /// player's buffer and port what the plan says: it drops that many
    /// samples and then, for a plan to play, moves that many into the port's
    /// buffer, each multiplied by the volume and the master volume and added
    /// to what is there. The messages for the control thread are put at the
    /// end of `outbox`, in the order in which they arise; with room for two
    /// messages per player and two more, the outbox does not grow.
    pub fn process<S, X>(
        &mut self,
        command: Option<AudioThreadCommand<C>>,
        now: u64,
        nframes: usize,
        size: S,
        carry_out: X,
        outbox: &mut Vec<AudioThreadMessage<C>>,
    ) -> (reaped: Option<usize>) where S: Fn(&C) -> usize, X: Fn(&Player<C>, BlockPlan) -> ()
        requires
            old(self).wf(),
            forall|buf: &C| call_requires(size, (buf,)),
            forall|player: &Player<C>, plan: BlockPlan| call_requires(carry_out, (player, plan)),
        ensures
            final(self).wf(),
            final(self).reap_candidate() is None,
            final(self).counter() == old(self).counter(),
            final(self).rate() == old(self).rate(),
            match command {
                Some(AudioThreadCommand::AddChannel(port)) => old(self).channels().inserted(
                    &final(self).channels(),
                    port,
                ),
                Some(AudioThreadCommand::RemoveChannel(index)) => old(self).channels().removed(
                    &final(self).channels(),
                    index,
                ),
                _ => final(self).channels() == old(self).channels(),
            },
            reaped matches Some(index) ==> index < spec_taken_up(old(self).players(), command).len(),
            same_streams(
                spec_reaped(spec_taken_up(old(self).players(), command), reaped),
                final(self).players(),
            ),
            final(self).players().len() == spec_count_after_block(
                spec_taken_up(old(self).players(), command).len(),
                reaped is Some,
            ),
            final(outbox)@.len() >= old(outbox)@.len(),
            final(outbox)@.subrange(0, old(outbox)@.len() as int) == old(outbox)@,
            command matches Some(AudioThreadCommand::AddPlayer(player)) ==> (old(
                self).players().len() >= MAX_PLAYERS ==> final(outbox)@.len() > old(
                outbox)@.len() && final(outbox)@[old(outbox)@.len() as int]
                == AudioThreadMessage::PlayerRejected(player)),
            reaped matches Some(index) ==> final(outbox)@.len() > old(outbox)@.len() && (final(
                outbox)@.last() matches AudioThreadMessage::PlayerEnded(gone) && spec_taken_up(
                old(self).players(),
                command,
            )[index as int].same_stream(&gone)),
            exists|log: BlockLog| #[trigger]
                spec_block(
                    size,
                    carry_out,
                    old(self).players(),
                    command,
                    final(self).channels(),
                    now,
                    nframes,
                    log,
                    reaped,
                    final(self).players(),
                    final(outbox)@.subrange(
                        old(outbox)@.len() as int,
                        final(outbox)@.len() as int,
                    ),
                ),
    {
        self.to_remove = None;
        let ghost sent = outbox@;
        match command {
            Some(command) => {
                match self.handle(command) {
                    Some(reply) => {
                        outbox.push(reply);
                    },
                    None => {},
                }
            },
            None => {},
        }
        let ghost taken = self.players();
        let ghost channels = self.channels();
        let ghost begun = outbox@;
        let ghost mut seen = BlockLog::empty();
        assert(taken == spec_taken_up(old(self).players(), command));
        assert(begun =~= sent + spec_rejection(old(self).players(), command));
        let count = self.players.len();
        let mut index: usize = 0;
        while index < count
            invariant
                self.wf(),
                index <= count,
                count == self.players().len(),
                count == taken.len(),
                same_streams(taken, self.players()),
                self.channels() == channels,
                self.counter() == old(self).counter(),
                self.rate() == old(self).rate(),
                self.reap_candidate() matches Some(found) ==> found < count,
                outbox@.len() >= begun.len(),
                outbox@.subrange(0, begun.len() as int) == begun,
                forall|buf: &C| call_requires(size, (buf,)),
                forall|player: &Player<C>, plan: BlockPlan|
                    call_requires(carry_out, (player, plan)),
                seen.covers(index as nat),
                self.reap_candidate() == spec_candidate_after(seen.plans),
                forall|later: int| index <= later < count ==> self.players()[later] == taken[later],
                forall|earlier: int|
                    0 <= earlier < index ==> self.players()[earlier] == (
                    #[trigger] taken[earlier]).with_notices(seen.notices(taken, earlier)),
                forall|earlier: int|
                    0 <= earlier < index ==> #[trigger] spec_visit(
                        size,
                        carry_out,
                        channels,
                        taken,
                        now,
                        nframes,
                        seen,
                        earlier,
                    ),
                outbox@ == begun + spec_notice_messages(taken, seen, index as nat),
            decreases count - index,
        {
            let ghost before = self.players();
            let ghost logged = seen;
            let ghost queued = outbox@;
            let buffered = size(self.players[index].buf());
            let (state, plan) = self.plan_player(index, now, nframes, buffered);
            carry_out(&self.players[index], plan);
            let remaining = size(self.players[index].buf());
            let (_, half, empty) = self.finish_player(index, state, plan, remaining);
            match half {
                Some(notice) => {
                    outbox.push(notice);
                },
                None => {},
            }
            match empty {
                Some(notice) => {
                    outbox.push(notice);
                },
                None => {},
            }
            proof {
                seen = logged.push(state, buffered, plan, remaining);
                let notices = seen.notices(taken, index as int);
                assert(before[index as int] == taken[index as int]);
                assert forall|other: int| 0 <= other < taken.len() implies (#[trigger] taken[other]).same_stream(
                    &self.players()[other],
                ) by {
                    assert(taken[other].same_stream(&before[other]));
                    if other != index {
                        assert(self.players()[other] == before[other]);
                    } else {
                        lemma_with_notices(taken[other], notices);
                    }
                }
                assert(seen.plans.drop_last() =~= logged.plans);
                assert forall|earlier: int| 0 <= earlier < index + 1 implies self.players()[earlier]
                    == (#[trigger] taken[earlier]).with_notices(seen.notices(taken, earlier)) by {
                    if earlier < index {
                        assert(self.players()[earlier] == before[earlier]);
                        assert(seen.notices(taken, earlier) == logged.notices(taken, earlier));
                    }
                }
                assert forall|earlier: int| 0 <= earlier < index + 1 implies #[trigger] spec_visit(
                    size,
                    carry_out,
                    channels,
                    taken,
                    now,
                    nframes,
                    seen,
                    earlier,
                ) by {
                    if earlier < index {
                        assert(spec_visit(
                            size,
                            carry_out,
                            channels,
                            taken,
                            now,
                            nframes,
                            logged,
                            earlier,
                        ));
                    }
                }
                lemma_notice_messages_of_prefix(taken, logged, seen, index as nat);
                assert(outbox@ =~= queued + spec_messages_of::<C>(taken[index as int].id(), notices));
                assert(outbox@ =~= begun + spec_notice_messages(taken, seen, (index + 1) as nat));
                assert(outbox@.subrange(0, begun.len() as int) =~= begun);
            }
            index += 1;
        }
        let reaped = self.to_remove;
        let ghost visited = self.players();
        let ghost queued = outbox@;
        match self.end_block() {
            Some(reply) => {
                outbox.push(reply);
            },
            None => {},
        }
        proof {
            assert(begun.subrange(0, sent.len() as int) =~= sent);
            if begun.len() > sent.len() {
                assert(outbox@.subrange(0, begun.len() as int)[sent.len() as int] == begun[sent.len() as int]);
            }
            assert(outbox@.subrange(0, sent.len() as int) =~= sent);
            let left = spec_reaped(taken, reaped);
            assert forall|other: int| 0 <= other < left.len() implies (#[trigger] left[other]).same_stream(
                &self.players()[other],
            ) by {
                match reaped {
                    Some(gone) => {
                        if other == gone {
                            assert(taken[taken.len() - 1].same_stream(&visited[taken.len() - 1]));
                        } else {
                            assert(taken[other].same_stream(&visited[other]));
                        }
                    },
                    None => {
                        assert(taken[other].same_stream(&visited[other]));
                    },
                }
            }
            if let Some(gone) = reaped {
                assert(taken[gone as int].same_stream(&visited[gone as int]));
            }
            assert(visited =~= spec_visited(taken, seen));
            assert(spec_visits(size, carry_out, self.channels(), taken, now, nframes, seen));
            assert(outbox@ =~= queued + spec_ending(visited, reaped));
            assert(outbox@.subrange(sent.len() as int, outbox@.len() as int) =~= spec_rejection(
                old(self).players(),
                command,
            ) + spec_notice_messages(taken, seen, taken.len()) + spec_ending(visited, reaped));
            assert(spec_block(
                size,
                carry_out,
                old(self).players(),
                command,
                self.channels(),
                now,
                nframes,
                seen,
                reaped,
                self.players(),
                outbox@.subrange(sent.len() as int, outbox@.len() as int),
            ));
        }
        reaped
    }

    /// Ends the block: removes the candidate for removal, if there is one,
    /// and hands the player out in a `PlayerEnded` message. The last player
    /// takes the place of the removed one.
    pub fn end_block(&mut self) -> (reply: Option<AudioThreadMessage<C>>)
        requires
            old(self).wf(),
        ensures
            final(self).wf(),
            final(self).channels() == old(self).channels(),
            final(self).counter() == old(self).counter(),
            final(self).rate() == old(self).rate(),
            final(self).reap_candidate() is None,
            final(self).players().len() == spec_count_after_block(
                old(self).players().len(),
                old(self).reap_candidate() is Some,
            ),
            match old(self).reap_candidate() {
                Some(index) => reply == Some(
                    AudioThreadMessage::PlayerEnded(old(self).players()[index as int]),
                ),
                None => reply is None,
            },
            final(self).players() == spec_reaped(old(self).players(), old(self).reap_candidate()),
    {
        match self.to_remove.take() {
            Some(index) => {
                let player = self.players.swap_remove(index);
                self.length.set(self.players.len());
                Some(AudioThreadMessage::PlayerEnded(player))
            },
            None => None,
        }
    }
}

/// The candidate for removal is the first player that was found dead, and
/// there is one whenever a player was found dead.
pub proof fn lemma_candidate_is_first_dead(plans: Seq<BlockPlan>)
    requires
        plans.len() <= usize::MAX,
    ensures
        match spec_candidate_after(plans) {
            Some(index) => {
                &&& index < plans.len()
                &&& plans[index as int] is Reap
                &&& forall|earlier: int| 0 <= earlier < index ==> !(plans[earlier] is Reap)
            },
            None => forall|any: int| 0 <= any < plans.len() ==> !(plans[any] is Reap),
        },
    decreases plans.len(),
{
    if plans.len() > 0 {
        let init = plans.drop_last();
        lemma_candidate_is_first_dead(init);
        match spec_candidate_after(init) {
            Some(index) => {
                assert(plans[index as int] == init[index as int]);
                assert forall|earlier: int| 0 <= earlier < index implies !(plans[earlier] is Reap) by {
                    assert(plans[earlier] == init[earlier]);
                }
            },
            None => {
                assert forall|any: int| 0 <= any < plans.len() - 1 implies !(plans[any] is Reap) by {
                    assert(plans[any] == init[any]);
                }
            },
        }
    }
}

/// Dead players go one per block: where `counts` holds the number of
/// players at the start of consecutive blocks, each of which finds a dead
/// player, the number goes down by one per block until none is left.
pub proof fn lemma_dead_players_drain(counts: Seq<nat>)
    requires
        counts.len() > 0,
        forall|block: int|
            0 <= block < counts.len() - 1 ==> #[trigger] counts[block + 1]
                == spec_count_after_block(counts[block], true),
    ensures
        counts.last() == if counts[0] >= counts.len() - 1 {
            counts[0] - (counts.len() - 1)
        } else {
            0
        },
        counts.len() > counts[0] ==> counts.last() == 0,
    decreases counts.len(),
{
    if counts.len() > 1 {
        let earlier = counts.drop_last();
        assert forall|block: int| 0 <= block < earlier.len() - 1 implies #[trigger] earlier[block
            + 1] == spec_count_after_block(earlier[block], true) by {
            assert(earlier[block + 1] == counts[block + 1]);
        }
        lemma_dead_players_drain(earlier);
        assert(counts[counts.len() - 2 + 1] == spec_count_after_block(
            counts[counts.len() - 2],
            true,
        ));
    }
}

/// Once a channel is removed, a playing stream that is patched to it is
/// deactivated in the next block, and stays alive.
pub proof fn lemma_removed_channel_deactivates(
    table: ChannelTable,
    next: ChannelTable,
    index: usize,
    state: StreamState,
    sample_rate: u64,
    now: u64,
    nframes: usize,
    buffered: usize,
    remaining: usize,
)
    requires
        table.removed(&next, index),
        state.alive,
        state.active,
        state.output_patch == index,
    ensures
        ({
            let plan = spec_plan(
                state,
                sample_rate,
                now,
                nframes,
                buffered,
                next.spec_port_at(state.output_patch),
            );
            &&& plan is Unpatch
            &&& !plan.spec_outcome(state, remaining).active
            &&& plan.spec_outcome(state, remaining).alive
        }),
{
}

} // verus!
