//! A directed channel.
//!
//! One payload slot is read-only to the workers, the other is writable.
//! Reconciliation flushes: it clones the writable slot into the read-only
//! slot and leaves the writable slot as it is.

use crate::{ChannelKey, DataKey};
use core::marker::PhantomData;
use vstd::pervasive::cloned;
use vstd::prelude::*;

verus! {

/// Where a directed channel stands in its control block: alone, or as the
/// first or the second half of a bidirected channel.
#[derive(Clone, Copy, Debug, PartialEq, Eq, Structural)]
pub enum Place {
    Alone,
    First,
    Second,
}

/// The identity of a directed channel: its control block, and its place in
/// that block.
#[derive(Clone, Copy, Debug, PartialEq, Eq, Structural)]
pub struct DirectedId {
    pub block: u64,
    pub place: Place,
}

/// What a directed channel is at one moment: its identity and its two
/// payloads.
pub struct DirectedState<Data> {
    pub id: DirectedId,
    pub read_only: Data,
    pub writable: Data,
}

impl<Data> DirectedState<Data> {
    /// The two payloads, that of the read-only slot first.
    pub open spec fn payloads(self) -> (Data, Data) {
        (self.read_only, self.writable)
    }

    /// Whether the pointers are those of this channel: every read-only
    /// pointer names its read-only slot, and the writable pointer names its
    /// writable slot.
    pub open spec fn accepts(
        self,
        read_only_pointers: Seq<ReadOnlyDataPointer<Data>>,
        writable_pointer: DirectedId,
    ) -> bool {
        &&& writable_pointer == self.id
        &&& forall|i: int|
            0 <= i < read_only_pointers.len() ==> (#[trigger] read_only_pointers[i])@ == self.id
    }

    /// Whether the two pointers are those of this channel: the one names its
    /// read-only slot, the other its writable slot.
    pub open spec fn accepts_single(
        self,
        read_only_pointer: DirectedId,
        writable_pointer: DirectedId,
    ) -> bool {
        &&& read_only_pointer == self.id
        &&& writable_pointer == self.id
    }

    /// The state after a worker has overwritten the writable slot.
    pub open spec fn write(self, data: Data) -> Self {
        DirectedState { id: self.id, read_only: self.read_only, writable: data }
    }

    /// Whether a worker's write to the writable slot leads from this state
    /// to `after`.
    pub open spec fn writes_to(self, after: Self) -> bool {
        after == self.write(after.writable)
    }
}

impl<Data: Clone> DirectedState<Data> {
    /// Whether a flush leads from this state to `after`: the read-only slot
    /// has become a clone of the writable slot, and nothing else has changed.
    pub open spec fn flushes_to(self, after: Self) -> bool {
        &&& after.id == self.id
        &&& after.writable == self.writable
        &&& cloned(self.writable, after.read_only)
    }
}

/// A directed channel: a read-only and a writable payload slot under one
/// identity.
#[derive(Debug)]
pub struct DirectedChannel<Data> {
    id: DirectedId,
    read_only: Data,
    write_only: Data,
}

/// The owner of a directed channel. Its reconciliation needs a
/// [`ChannelKey`].
#[derive(Debug)]
#[must_use]
pub struct DirectedChannelPointer<Data> {
    channel: Box<DirectedChannel<Data>>,
}

/// A pointer to the read-only slot of a directed channel. It owns nothing:
/// the slot is reached through the channel, under a [`DataKey`].
#[derive(Debug)]
#[must_use]
pub struct ReadOnlyDataPointer<Data> {
    channel: DirectedId,
    data: PhantomData<Data>,
}

/// A pointer to the writable slot of a directed channel. It owns nothing:
/// the slot is reached through the channel, under a [`DataKey`].
#[derive(Debug)]
#[must_use]
pub struct WriteOnlyDataPointer<Data> {
    channel: DirectedId,
    data: PhantomData<Data>,
}

impl<Data> View for DirectedChannel<Data> {
    type V = DirectedState<Data>;

    closed spec fn view(&self) -> DirectedState<Data> {
        DirectedState { id: self.id, read_only: self.read_only, writable: self.write_only }
    }
}

impl<Data> View for DirectedChannelPointer<Data> {
    type V = DirectedState<Data>;

    closed spec fn view(&self) -> DirectedState<Data> {
        self.channel@
    }
}

impl<Data> View for ReadOnlyDataPointer<Data> {
    type V = DirectedId;

    /// The identity of the channel whose read-only slot the pointer names.
    closed spec fn view(&self) -> DirectedId {
        self.channel
    }
}

impl<Data> View for WriteOnlyDataPointer<Data> {
    type V = DirectedId;

    /// The identity of the channel whose writable slot the pointer names.
    closed spec fn view(&self) -> DirectedId {
        self.channel
    }
}

impl<Data> DirectedChannel<Data> {
    /// Builds a channel in place, for the owners that embed it.
    pub(crate) fn new(id: DirectedId, read_only: Data, write_only: Data) -> (channel: Self)
        ensures
            channel@ == (DirectedState { id, read_only, writable: write_only }),
    {
        DirectedChannel { id, read_only, write_only }
    }

    /// Takes a channel apart, for the owners that embed it.
    pub(crate) fn into_payloads(self) -> (payloads: (Data, Data))
        ensures
            payloads == self@.payloads(),
    {
        (self.read_only, self.write_only)
    }

    /// Creates a directed channel under the given block id and hands out its
    /// owner, a pointer to the read-only slot and a pointer to the writable
    /// slot.
    pub fn create(id: u64, read_only: Data, write_only: Data) -> (pointers: (
        DirectedChannelPointer<Data>,
        ReadOnlyDataPointer<Data>,
        WriteOnlyDataPointer<Data>,
    ))
        ensures
            pointers.0@ == (DirectedState {
                id: DirectedId { block: id, place: Place::Alone },
                read_only,
                writable: write_only,
            }),
            pointers.1@ == pointers.0@.id,
            pointers.2@ == pointers.0@.id,
    {
        let identity = DirectedId { block: id, place: Place::Alone };
        let channel_pointer = DirectedChannelPointer {
            channel: Box::new(DirectedChannel { id: identity, read_only, write_only }),
        };
        let read_only_data_pointer = ReadOnlyDataPointer { channel: identity, data: PhantomData };
        let write_only_data_pointer = WriteOnlyDataPointer { channel: identity, data: PhantomData };
        (channel_pointer, read_only_data_pointer, write_only_data_pointer)
    }

    /// Takes the channel apart and returns the payload of the read-only slot
    /// and that of the writable slot. Any number of read-only pointers may be
    /// handed in; each must name this channel, and so must the writable
    /// pointer.
    pub fn destroy(
        channel_pointer: DirectedChannelPointer<Data>,
        read_only_data_pointers: Vec<ReadOnlyDataPointer<Data>>,
        write_only_data_pointer: WriteOnlyDataPointer<Data>,
    ) -> (payloads: (Data, Data))
        requires
            channel_pointer@.accepts(read_only_data_pointers@, write_only_data_pointer@),
        ensures
            payloads == channel_pointer@.payloads(),
    {
        let DirectedChannelPointer { channel } = channel_pointer;
        let channel = *channel;
        (channel.read_only, channel.write_only)
    }

    /// Takes the channel apart as [`DirectedChannel::destroy`] does, with a
    /// single read-only pointer.
    pub fn destroy_single(
        channel_pointer: DirectedChannelPointer<Data>,
        read_only_data_pointer: ReadOnlyDataPointer<Data>,
        write_only_data_pointer: WriteOnlyDataPointer<Data>,
    ) -> (payloads: (Data, Data))
        requires
            channel_pointer@.accepts_single(read_only_data_pointer@, write_only_data_pointer@),
        ensures
            payloads == channel_pointer@.payloads(),
    {
        Self::destroy(channel_pointer, vec![read_only_data_pointer], write_only_data_pointer)
    }
}

impl<Data: Clone> DirectedChannel<Data> {
    /// Creates a directed channel whose two slots start from the same
    /// payload: the read-only slot from a clone of it, the writable slot from
    /// the payload itself.
    pub fn create_equal(id: u64, data: Data) -> (pointers: (
        DirectedChannelPointer<Data>,
        ReadOnlyDataPointer<Data>,
        WriteOnlyDataPointer<Data>,
    ))
        ensures
            pointers.0@.id == (DirectedId { block: id, place: Place::Alone }),
            cloned(data, pointers.0@.read_only),
            pointers.0@.writable == data,
            pointers.1@ == pointers.0@.id,
            pointers.2@ == pointers.0@.id,
    {
        Self::create(id, data.clone(), data)
    }

    /// Clones the writable payload into the read-only slot.
    pub fn flush(&mut self, channel_key: &ChannelKey)
        ensures
            old(self)@.flushes_to(final(self)@),
    {
        self.read_only = self.write_only.clone();
    }
}

impl<Data: Clone> DirectedChannelPointer<Data> {
    /// Clones the writable payload into the read-only slot.
    pub fn flush(&mut self, channel_key: &ChannelKey)
        ensures
            old(self)@.flushes_to(final(self)@),
    {
        let channel: &mut DirectedChannel<Data> = &mut self.channel;
        channel.flush(channel_key);
    }
}

impl<Data> DirectedChannelPointer<Data> {
    /// The channel that this pointer owns, for reading its slots.
    pub fn channel(&self) -> (channel: &DirectedChannel<Data>)
        ensures
            channel@ == self@,
    {
        &self.channel
    }

    /// The channel that this pointer owns, for writing its slots.
    pub fn channel_mut(&mut self) -> (channel: &mut DirectedChannel<Data>)
        ensures
            channel@ == old(self)@,
            final(self)@ == final(channel)@,
    {
        &mut self.channel
    }

    /// Whether the pointers are those of the channel that this pointer owns:
    /// the condition under which the channel may be destroyed with them.
    pub fn owns(
        &self,
        read_only_data_pointers: &Vec<ReadOnlyDataPointer<Data>>,
        write_only_data_pointer: &WriteOnlyDataPointer<Data>,
    ) -> (owned: bool)
        ensures
            owned == self@.accepts(read_only_data_pointers@, write_only_data_pointer@),
    {
        if !write_only_data_pointer.points_into(&self.channel) {
            return false;
        }
        let mut index: usize = 0;
        while index < read_only_data_pointers.len()
            invariant
                index <= read_only_data_pointers.len(),
                write_only_data_pointer@ == self@.id,
                self@.accepts(
                    read_only_data_pointers@.take(index as int),
                    write_only_data_pointer@,
                ),
            decreases read_only_data_pointers.len() - index,
        {
            if !read_only_data_pointers[index].points_into(&self.channel) {
                return false;
            }
            index += 1;
        }
        assert(read_only_data_pointers@.take(index as int) == read_only_data_pointers@);
        true
    }

    /// Whether the two pointers are those of the channel that this pointer
    /// owns.
    pub fn owns_single(
        &self,
        read_only_data_pointer: &ReadOnlyDataPointer<Data>,
        write_only_data_pointer: &WriteOnlyDataPointer<Data>,
    ) -> (owned: bool)
        ensures
            owned == self@.accepts_single(read_only_data_pointer@, write_only_data_pointer@),
    {
        read_only_data_pointer.points_into(&self.channel) && write_only_data_pointer.points_into(
            &self.channel,
        )
    }

    /// Shorthand for [`DirectedChannel::destroy`].
    pub fn destroy(
        self,
        read_only_data_pointers: Vec<ReadOnlyDataPointer<Data>>,
        write_only_data_pointer: WriteOnlyDataPointer<Data>,
    ) -> (payloads: (Data, Data))
        requires
            self@.accepts(read_only_data_pointers@, write_only_data_pointer@),
        ensures
            payloads == self@.payloads(),
    {
        DirectedChannel::destroy(self, read_only_data_pointers, write_only_data_pointer)
    }

    /// Shorthand for [`DirectedChannel::destroy_single`].
    pub fn destroy_single(
        self,
        read_only_data_pointer: ReadOnlyDataPointer<Data>,
        write_only_data_pointer: WriteOnlyDataPointer<Data>,
    ) -> (payloads: (Data, Data))
        requires
            self@.accepts_single(read_only_data_pointer@, write_only_data_pointer@),
        ensures
            payloads == self@.payloads(),
    {
        DirectedChannel::destroy_single(self, read_only_data_pointer, write_only_data_pointer)
    }
}

impl<Data> ReadOnlyDataPointer<Data> {
    /// A pointer to the read-only slot of the channel with the given
    /// identity, for the owners that embed a directed channel.
    pub(crate) fn new(channel: DirectedId) -> (pointer: Self)
        ensures
            pointer@ == channel,
    {
        ReadOnlyDataPointer { channel, data: PhantomData }
    }

    /// Whether this pointer names the read-only slot of `channel`.
    pub fn points_into(&self, channel: &DirectedChannel<Data>) -> (named: bool)
        ensures
            named == (self@ == channel@.id),
    {
        self.channel == channel.id
    }

    /// Reads the read-only slot of the channel that this pointer names.
    pub fn get<'a>(&self, data_key: &DataKey, channel: &'a DirectedChannel<Data>) -> (data: &'a Data)
        requires
            self@ == channel@.id,
        ensures
            *data == channel@.read_only,
    {
        &channel.read_only
    }
}

impl<Data> WriteOnlyDataPointer<Data> {
    /// A pointer to the writable slot of the channel with the given
    /// identity, for the owners that embed a directed channel.
    pub(crate) fn new(channel: DirectedId) -> (pointer: Self)
        ensures
            pointer@ == channel,
    {
        WriteOnlyDataPointer { channel, data: PhantomData }
    }

    /// Whether this pointer names the writable slot of `channel`.
    pub fn points_into(&self, channel: &DirectedChannel<Data>) -> (named: bool)
        ensures
            named == (self@ == channel@.id),
    {
        self.channel == channel.id
    }

    /// Reads the writable slot of the channel that this pointer names.
    pub fn get<'a>(&self, data_key: &DataKey, channel: &'a DirectedChannel<Data>) -> (data: &'a Data)
        requires
            self@ == channel@.id,
        ensures
            *data == channel@.writable,
    {
        &channel.write_only
    }

    /// Opens the writable slot of the channel that this pointer names for
    /// writing. Nothing but that slot can change through the reference.
    pub fn get_mut<'a>(
        &mut self,
        data_key: &DataKey,
        channel: &'a mut DirectedChannel<Data>,
    ) -> (data: &'a mut Data)
        requires
            old(self)@ == old(channel)@.id,
        ensures
            *data == old(channel)@.writable,
            final(channel)@ == old(channel)@.write(*final(data)),
            final(self)@ == old(self)@,
    {
        &mut channel.write_only
    }
}

impl<Data> Clone for ReadOnlyDataPointer<Data> {
    fn clone(&self) -> (pointer: Self)
        ensures
            pointer == *self,
    {
        *self
    }
}

impl<Data> Copy for ReadOnlyDataPointer<Data> {
}

/// The reconciliation of a directed channel, for owners held without their
/// payload type.
pub trait DirectedSwapChannel: Send + Sync {
    /// Performs [`DirectedChannelPointer::flush`].
    fn flush(&mut self, channel_key: &ChannelKey);
}

impl<Data: Clone + Send + Sync> DirectedSwapChannel for DirectedChannelPointer<Data> {
    /// Clones the writable payload into the read-only slot, as the pointer's
    /// own `flush` does.
    fn flush(&mut self, channel_key: &ChannelKey)
        ensures
            old(self)@.flushes_to(final(self)@),
    {
        DirectedChannelPointer::flush(self, channel_key);
    }
}

/// Whether `trace` is a run of states of one channel that starts with a
/// flush and goes on with writes of the workers only.
pub open spec fn flush_then_writes<Data: Clone>(trace: Seq<DirectedState<Data>>) -> bool {
    &&& trace.len() >= 2
    &&& trace[0].flushes_to(trace[1])
    &&& forall|i: int| 1 <= i < trace.len() - 1 ==> (#[trigger] trace[i]).writes_to(trace[i + 1])
}

/// A read right after a flush sees a clone of what the writable slot held
/// before the flush, and the writable slot still holds it.
pub proof fn lemma_read_after_flush<Data: Clone>(
    before: DirectedState<Data>,
    after: DirectedState<Data>,
)
    requires
        before.flushes_to(after),
    ensures
        cloned(before.writable, after.read_only),
        after.writable == before.writable,
        after.id == before.id,
{
}

/// A write of a worker changes the writable slot and nothing else: the
/// read-only slot is written by a flush alone.
pub proof fn lemma_write_keeps_read_only<Data>(state: DirectedState<Data>, data: Data)
    ensures
        state.writes_to(state.write(data)),
        state.write(data).read_only == state.read_only,
        state.write(data).writable == data,
        state.write(data).id == state.id,
{
}

/// However the workers write after a flush, the read-only slot stays a clone
/// of what the writable slot held at that flush.
pub proof fn lemma_read_only_keeps_last_flush<Data: Clone>(trace: Seq<DirectedState<Data>>)
    requires
        flush_then_writes(trace),
    ensures
        cloned(trace[0].writable, trace.last().read_only),
        trace.last().id == trace[0].id,
    decreases trace.len(),
{
    if trace.len() > 2 {
        let shorter = trace.drop_last();
        lemma_read_only_keeps_last_flush(shorter);
    }
}

/// For a payload type whose clones always equal their sources: however
/// the workers write after a flush, the read-only slot equals what the
/// writable slot held at that flush.
pub proof fn lemma_read_only_equals_last_flush<Data: Clone>(trace: Seq<DirectedState<Data>>)
    requires
        flush_then_writes(trace),
        forall|source: Data, copy: Data| #[trigger] cloned(source, copy) ==> source == copy,
    ensures
        trace.last().read_only == trace[0].writable,
{
    lemma_read_only_keeps_last_flush(trace);
}

/// A channel that has just been created from `read_only` and `writable` can
/// be destroyed with its two data pointers, and with any number of copies of
/// its read-only pointer, and the payloads that come back are `read_only`
/// and `writable`, in this order.
pub proof fn lemma_create_destroy_round_trip<Data>(
    id: u64,
    read_only: Data,
    writable: Data,
    copies: Seq<ReadOnlyDataPointer<Data>>,
)
    requires
        forall|i: int|
            0 <= i < copies.len() ==> (#[trigger] copies[i])@ == (DirectedId {
                block: id,
                place: Place::Alone,
            }),
    ensures
        ({
            let state = DirectedState {
                id: DirectedId { block: id, place: Place::Alone },
                read_only,
                writable,
            };
            &&& state.accepts_single(state.id, state.id)
            &&& state.accepts(copies, state.id)
            &&& state.payloads() == (read_only, writable)
        }),
{
}

/// The data pointers of a channel stay its data pointers through every
/// flush and every write.
pub proof fn lemma_pointers_outlive_reconciliation<Data: Clone>(
    state: DirectedState<Data>,
    after: DirectedState<Data>,
    read_only_pointers: Seq<ReadOnlyDataPointer<Data>>,
    writable_pointer: DirectedId,
)
    requires
        state.accepts(read_only_pointers, writable_pointer),
        state.flushes_to(after) || state.writes_to(after),
    ensures
        after.accepts(read_only_pointers, writable_pointer),
{
}

/// A data pointer into another channel is never accepted in any place of a
/// destruction.
pub proof fn lemma_foreign_pointer_rejected<Data>(
    state: DirectedState<Data>,
    foreign: DirectedId,
    other: DirectedId,
    pointers: Seq<ReadOnlyDataPointer<Data>>,
)
    requires
        foreign != state.id,
    ensures
        !state.accepts_single(foreign, other),
        !state.accepts_single(other, foreign),
        !state.accepts(pointers, foreign),
        (exists|i: int| 0 <= i < pointers.len() && (#[trigger] pointers[i])@ == foreign)
            ==> !state.accepts(pointers, other),
{
}

} // verus!
