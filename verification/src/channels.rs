//! Output channels: the table that maps a channel index to a port.
//!
//! The control thread and the audio thread each keep a table and apply the
//! same operations to it in the same order, so that an index means the same
//! port on both sides.
use vstd::prelude::*;
use arrayvec::ArrayVec;
use crate::errors::{EngineError, EngineResult};
use crate::MAX_CHANS;

verus! {

/// An output port of the audio server, known by its identity alone.
#[derive(Clone, Copy, Debug, PartialEq, Eq, Structural)]
pub struct PortId(pub usize);

/// `arrayvec::ArrayVec`: a vector of at most `CAP` items that keeps them in
/// place, without allocating.
#[verifier::external_type_specification]
#[verifier::external_body]
#[verifier::reject_recursive_types(T)]
pub struct ExArrayVec<T, const CAP: usize>(ArrayVec<T, CAP>);

/// The slots that a vector of channel slots holds, first to last.
pub uninterp spec fn slot_items(v: ArrayVec<Option<PortId>, MAX_CHANS>) -> Seq<Option<PortId>>;

/// The indices that a vector of freed indices holds, first to last.
pub uninterp spec fn hole_items(v: ArrayVec<usize, MAX_CHANS>) -> Seq<usize>;

/// `ArrayVec::new`: a vector that holds nothing.
#[verifier::external_body]
fn slots_new() -> (v: ArrayVec<Option<PortId>, MAX_CHANS>)
    ensures
        slot_items(v) == Seq::<Option<PortId>>::empty(),
{
    ArrayVec::new()
}

/// `ArrayVec::len`: the number of items held.
#[verifier::external_body]
fn slots_len(v: &ArrayVec<Option<PortId>, MAX_CHANS>) -> (n: usize)
    ensures
        n == slot_items(*v).len(),
{
    v.len()
}

/// `ArrayVec::push`, which panics on a full vector: the item becomes the last one.
#[verifier::external_body]
fn slots_push(v: &mut ArrayVec<Option<PortId>, MAX_CHANS>, item: Option<PortId>)
    requires
        slot_items(*old(v)).len() < MAX_CHANS,
    ensures
        slot_items(*final(v)) == slot_items(*old(v)).push(item),
{
    v.push(item)
}

/// `ArrayVec`'s `Deref` to a slice, read at an index in bounds: a copy of the item there.
#[verifier::external_body]
fn slots_get(v: &ArrayVec<Option<PortId>, MAX_CHANS>, index: usize) -> (item: Option<PortId>)
    requires
        index < slot_items(*v).len(),
    ensures
        item == slot_items(*v)[index as int],
{
    v[index]
}

/// `ArrayVec`'s `DerefMut` to a slice, written at an index in bounds: the
/// item there is replaced, the others stay.
#[verifier::external_body]
fn slots_set(v: &mut ArrayVec<Option<PortId>, MAX_CHANS>, index: usize, item: Option<PortId>)
    requires
        index < slot_items(*old(v)).len(),
    ensures
        slot_items(*final(v)) == slot_items(*old(v)).update(index as int, item),
{
    v[index] = item;
}

/// `ArrayVec::new`: a vector that holds nothing.
#[verifier::external_body]
fn holes_new() -> (v: ArrayVec<usize, MAX_CHANS>)
    ensures
        hole_items(v) == Seq::<usize>::empty(),
{
    ArrayVec::new()
}

/// `ArrayVec::len`: the number of items held.
#[verifier::external_body]
fn holes_len(v: &ArrayVec<usize, MAX_CHANS>) -> (n: usize)
    ensures
        n == hole_items(*v).len(),
{
    v.len()
}

/// `ArrayVec::push`, which panics on a full vector: the item becomes the last one.
#[verifier::external_body]
fn holes_push(v: &mut ArrayVec<usize, MAX_CHANS>, item: usize)
    requires
        hole_items(*old(v)).len() < MAX_CHANS,
    ensures
        hole_items(*final(v)) == hole_items(*old(v)).push(item),
{
    v.push(item)
}

/// `ArrayVec::pop_at`: with an index in bounds the item there leaves and the
/// later ones move down by one; with any other index nothing changes.
#[verifier::external_body]
fn holes_pop_at(v: &mut ArrayVec<usize, MAX_CHANS>, index: usize) -> (item: Option<usize>)
    ensures
        index < hole_items(*old(v)).len() ==> item == Some(hole_items(*old(v))[index as int])
            && hole_items(*final(v)) == hole_items(*old(v)).remove(index as int),
        index >= hole_items(*old(v)).len() ==> item is None && hole_items(*final(v)) == hole_items(*old(v)),
{
    v.pop_at(index)
}

/// Distinct numbers below `bound` are at most `bound` many.
proof fn lemma_distinct_below(s: Seq<usize>, bound: nat)
    requires
        s.no_duplicates(),
        forall|k: int| 0 <= k < s.len() ==> s[k] < bound,
    ensures
        s.len() <= bound,
    decreases bound,
{
    if s.len() == 0 {
    } else if bound == 0 {
        assert(s[0] < bound);
    } else {
        let top = (bound - 1) as usize;
        if s.contains(top) {
            let j = choose|j: int| 0 <= j < s.len() && s[j] == top;
            let rest = s.remove(j);
            assert forall|k: int| 0 <= k < rest.len() implies rest[k] < bound - 1 by {
                if k < j {
                    assert(rest[k] == s[k]);
                    assert(s[k] != s[j]);
                } else {
                    assert(rest[k] == s[k + 1]);
                    assert(s[k + 1] != s[j]);
                }
            }
            assert forall|a: int, b: int| 0 <= a < rest.len() && 0 <= b < rest.len() && a
                != b implies rest[a] != rest[b] by {
                let a2 = if a < j { a } else { a + 1 };
                let b2 = if b < j { b } else { b + 1 };
                assert(rest[a] == s[a2] && rest[b] == s[b2]);
            }
            lemma_distinct_below(rest, (bound - 1) as nat);
        } else {
            assert forall|k: int| 0 <= k < s.len() implies s[k] < bound - 1 by {
                assert(s.contains(s[k]));
            }
            lemma_distinct_below(s, (bound - 1) as nat);
        }
    }
}

/// The channels of one side: a slot for each index ever handed out, and the
/// indices that were freed and wait to be handed out again, oldest first.
pub struct ChannelTable {
    chans: ArrayVec<Option<PortId>, MAX_CHANS>,
    holes: ArrayVec<usize, MAX_CHANS>,
}

impl ChannelTable {
    /// The slots by index: the port of a live channel, or nothing.
    pub closed spec fn slots(&self) -> Seq<Option<PortId>> {
        slot_items(self.chans)
    }

    /// The freed indices, oldest first.
    pub closed spec fn holes(&self) -> Seq<usize> {
        hole_items(self.holes)
    }

    /// The table is consistent: one slot stays free, and the freed indices
    /// are exactly the indices of the empty slots, each listed once.
    pub open spec fn wf(&self) -> bool {
        &&& self.slots().len() < MAX_CHANS
        &&& self.holes().len() <= self.slots().len()
        &&& self.holes().no_duplicates()
        &&& forall|k: int|
            0 <= k < self.holes().len() ==> (#[trigger] self.holes()[k]) < self.slots().len()
                && self.slots()[self.holes()[k] as int] is None
        &&& forall|i: int|
            0 <= i < self.slots().len() && (#[trigger] self.slots()[i]) is None
                ==> self.holes().contains(i as usize)
    }

    /// The number of live channels.
    pub open spec fn live(&self) -> int {
        self.slots().len() - self.holes().len()
    }

    /// The port of the channel at `index`, if a channel lives there.
    pub open spec fn spec_port_at(&self, index: usize) -> Option<PortId> {
        if index < self.slots().len() {
            self.slots()[index as int]
        } else {
            None
        }
    }

    /// Whether one more channel would go over the limit.
    pub open spec fn full(&self) -> bool {
        self.live() == MAX_CHANS - 1
    }

    /// The index that the next channel gets: the oldest freed index, or else
    /// the first index never handed out.
    pub open spec fn next_index(&self) -> int {
        if self.holes().len() > 0 {
            self.holes()[0] as int
        } else {
            self.slots().len() as int
        }
    }

    /// The slots once `port` is registered.
    pub open spec fn slots_with(&self, port: PortId) -> Seq<Option<PortId>> {
        if self.holes().len() > 0 {
            self.slots().update(self.holes()[0] as int, Some(port))
        } else {
            self.slots().push(Some(port))
        }
    }

    /// The freed indices once a channel is registered.
    pub open spec fn holes_after_insert(&self) -> Seq<usize> {
        if self.holes().len() > 0 {
            self.holes().remove(0)
        } else {
            self.holes()
        }
    }

    /// Whether two tables hold the same channels at the same indices and
    /// would hand out the same indices next.
    pub open spec fn same_as(&self, other: &ChannelTable) -> bool {
        self.slots() == other.slots() && self.holes() == other.holes()
    }

    /// Whether `next` is this table after `port` was registered: unchanged
    /// where the limit was reached, and else with `port` at the next index.
    pub open spec fn inserted(&self, next: &ChannelTable, port: PortId) -> bool {
        if self.full() {
            next.same_as(self)
        } else {
            next.slots() == self.slots_with(port) && next.holes() == self.holes_after_insert()
        }
    }

    /// Whether `next` is this table after the channel at `index` was removed:
    /// unchanged where no channel lives there, and else with that slot
    /// emptied and `index` as the youngest freed index.
    pub open spec fn removed(&self, next: &ChannelTable, index: usize) -> bool {
        if self.spec_port_at(index) is None {
            next.same_as(self)
        } else {
            next.slots() == self.slots().update(index as int, None) && next.holes()
                == self.holes().push(index)
        }
    }

    /// A table without channels.
    pub fn new() -> (table: ChannelTable)
        ensures
            table.wf(),
            table.slots() == Seq::<Option<PortId>>::empty(),
            table.holes() == Seq::<usize>::empty(),
    {
        ChannelTable { chans: slots_new(), holes: holes_new() }
    }

    /// The number of live channels.
    pub fn live_count(&self) -> (n: usize)
        requires
            self.wf(),
        ensures
            n == self.live(),
    {
        slots_len(&self.chans) - holes_len(&self.holes)
    }

    /// The port of the channel at `index`, if a channel lives there.
    pub fn port_at(&self, index: usize) -> (port: Option<PortId>)
        ensures
            port == self.spec_port_at(index),
    {
        if index < slots_len(&self.chans) {
            slots_get(&self.chans, index)
        } else {
            None
        }
    }

    /// Registers `port` as a new channel and returns its index.
    ///
    /// A freed index is handed out again before a new one is made, the oldest
    /// first. Fails with `LimitExceeded`, and changes nothing, when
    /// `MAX_CHANS - 1` channels are live.
    pub fn insert(&mut self, port: PortId) -> (r: EngineResult<usize>)
        requires
            old(self).wf(),
        ensures
            final(self).wf(),
            old(self).inserted(final(self), port),
            old(self).full() ==> (r matches Err(e) && e is LimitExceeded && final(self).slots() == old(
                self).slots() && final(self).holes() == old(self).holes()),
            !old(self).full() ==> (r matches Ok(index) && index == old(self).next_index() && final(
                self).slots() == old(self).slots_with(port) && final(self).holes() == old(
                self).holes_after_insert()),
    {
        if slots_len(&self.chans) - holes_len(&self.holes) == MAX_CHANS - 1 {
            return Err(EngineError::LimitExceeded);
        }
        let ghost before = *self;
        match holes_pop_at(&mut self.holes, 0) {
            Some(index) => {
                slots_set(&mut self.chans, index, Some(port));
                proof {
                    let holes = before.holes();
                    let rest = self.holes();
                    assert(holes[0] == index);
                    assert forall|k: int| 0 <= k < rest.len() implies rest[k] == holes[k + 1] by {}
                    assert forall|k: int| 0 <= k < rest.len() implies (#[trigger] rest[k])
                        < self.slots().len() && self.slots()[rest[k] as int] is None by {
                        assert(holes[k + 1] != holes[0]);
                    }
                    assert forall|i: int|
                        0 <= i < self.slots().len() && (#[trigger] self.slots()[i]) is None implies rest.contains(
                        i as usize,
                    ) by {
                        assert(before.slots()[i] is None);
                        assert(holes.contains(i as usize));
                        let k = choose|k: int| 0 <= k < holes.len() && holes[k] == i as usize;
                        assert(k != 0);
                        assert(rest[k - 1] == i as usize);
                    }
                }
                Ok(index)
            },
            None => {
                let index = slots_len(&self.chans);
                slots_push(&mut self.chans, Some(port));
                Ok(index)
            },
        }
    }

    /// Removes the channel at `index` and returns its port.
    ///
    /// The slot is emptied and the index is kept to be handed out again.
    /// Fails with `NoSuchChannel`, and changes nothing, when no channel lives
    /// at `index`.
    pub fn remove(&mut self, index: usize) -> (r: EngineResult<PortId>)
        requires
            old(self).wf(),
        ensures
            final(self).wf(),
            old(self).removed(final(self), index),
            old(self).spec_port_at(index) is None <==> r is Err,
            old(self).spec_port_at(index) is None <==> index >= old(self).slots().len() || old(self).holes().contains(index),
            r matches Err(e) ==> e is NoSuchChannel && final(self).slots() == old(self).slots()
                && final(self).holes() == old(self).holes(),
            r matches Ok(port) ==> old(self).spec_port_at(index) == Some(port) && final(self).slots() == old(self).slots().update(index as int, None) && final(self).holes()
                == old(self).holes().push(index),
    {
        proof {
            if index < self.slots().len() && self.holes().contains(index) {
                let k = choose|k: int| 0 <= k < self.holes().len() && self.holes()[k] == index;
                assert(self.slots()[self.holes()[k] as int] is None);
            }
        }
        let port = match self.port_at(index) {
            Some(port) => port,
            None => { return Err(EngineError::NoSuchChannel); },
        };
        let ghost before = *self;
        proof {
            let grown = before.holes().push(index);
            assert forall|a: int, b: int| 0 <= a < grown.len() && 0 <= b < grown.len() && a
                != b implies grown[a] != grown[b] by {
                if a == grown.len() - 1 {
                    assert(before.holes()[b] == grown[b]);
                } else if b == grown.len() - 1 {
                    assert(before.holes()[a] == grown[a]);
                }
            }
            assert forall|k: int| 0 <= k < grown.len() implies grown[k] < before.slots().len() by {
                if k < grown.len() - 1 {
                    assert(before.holes()[k] == grown[k]);
                }
            }
            lemma_distinct_below(grown, before.slots().len());
        }
        slots_set(&mut self.chans, index, None);
        holes_push(&mut self.holes, index);
        proof {
            let grown = self.holes();
            assert forall|i: int|
                0 <= i < self.slots().len() && (#[trigger] self.slots()[i]) is None implies grown.contains(
                i as usize,
            ) by {
                if i == index {
                    assert(grown[grown.len() - 1] == index);
                } else {
                    assert(before.slots()[i] is None);
                    let k = choose|k: int|
                        0 <= k < before.holes().len() && before.holes()[k] == i as usize;
                    assert(grown[k] == i as usize);
                }
            }
        }
        Ok(port)
    }
}

/// Two tables that agree still agree after the same port was registered in both.
pub proof fn lemma_insert_keeps_tables_equal(
    control: ChannelTable,
    control_next: ChannelTable,
    audio: ChannelTable,
    audio_next: ChannelTable,
    port: PortId,
)
    requires
        control.same_as(&audio),
        control.inserted(&control_next, port),
        audio.inserted(&audio_next, port),
    ensures
        control_next.same_as(&audio_next),
{
}

/// Two tables that agree still agree after the same index was removed from both.
pub proof fn lemma_remove_keeps_tables_equal(
    control: ChannelTable,
    control_next: ChannelTable,
    audio: ChannelTable,
    audio_next: ChannelTable,
    index: usize,
)
    requires
        control.same_as(&audio),
        control.removed(&control_next, index),
        audio.removed(&audio_next, index),
    ensures
        control_next.same_as(&audio_next),
{
}

/// An index keeps its port: registering a channel changes no live channel,
/// and removing one changes no other.
pub proof fn lemma_indices_are_stable(
    table: ChannelTable,
    next: ChannelTable,
    port: PortId,
    index: usize,
    other: usize,
)
    requires
        table.wf(),
    ensures
        table.inserted(&next, port) && table.spec_port_at(other) is Some ==> next.spec_port_at(
            other,
        ) == table.spec_port_at(other),
        table.removed(&next, index) && other != index ==> next.spec_port_at(other)
            == table.spec_port_at(other),
{
    if table.inserted(&next, port) && table.spec_port_at(other) is Some && !table.full()
        && table.holes().len() > 0 {
        assert(table.slots()[table.holes()[0] as int] is None);
    }
}

/// Once a channel is removed, no channel lives at its index.
pub proof fn lemma_removed_channel_is_gone(table: ChannelTable, next: ChannelTable, index: usize)
    requires
        table.removed(&next, index),
    ensures
        next.spec_port_at(index) is None,
{
}

/// Where no index waits to be handed out again, the index of a removed
/// channel is the one that the next channel gets.
pub proof fn lemma_freed_index_is_reused(table: ChannelTable, next: ChannelTable, index: usize)
    requires
        table.wf(),
        table.holes().len() == 0,
        table.spec_port_at(index) is Some,
        table.removed(&next, index),
    ensures
        !next.full(),
        next.next_index() == index,
{
}

/// A table never holds more than `MAX_CHANS - 1` live channels.
pub proof fn lemma_live_channels_bounded(table: ChannelTable)
    requires
        table.wf(),
    ensures
        0 <= table.live() <= MAX_CHANS - 1,
{
}

} // verus!
