//! An undirected swap channel.
//!
//! Both payload slots can be read and written through their data pointers,
//! and reconciliation swaps the two payloads.

use crate::{ChannelKey, DataKey};
use core::marker::PhantomData;
use vstd::pervasive::cloned;
use vstd::prelude::*;

verus! {

/// One of the two payload slots of an undirected channel.
#[derive(Clone, Copy, Debug, PartialEq, Eq, Structural)]
pub enum Slot {
    First,
    Second,
}

impl Slot {
    /// The slot on the other side of the channel.
    pub open spec fn other(self) -> Slot {
        match self {
            Slot::First => Slot::Second,
            Slot::Second => Slot::First,
        }
    }
}

/// The address of a payload slot: the channel it lies in, and which of the
/// channel's two slots it is.
#[derive(Clone, Copy, Debug, PartialEq, Eq, Structural)]
pub struct SlotAddress {
    pub channel: u64,
    pub slot: Slot,
}

/// What an undirected channel is at one moment: its id and its two
/// payloads.
pub struct UndirectedState<Data> {
    pub id: u64,
    pub first: Data,
    pub second: Data,
}

impl<Data> UndirectedState<Data> {
    /// The payload in `slot`.
    pub open spec fn read(self, slot: Slot) -> Data {
        match slot {
            Slot::First => self.first,
            Slot::Second => self.second,
        }
    }

    /// The state after `slot` has been overwritten with `data`.
    pub open spec fn write(self, slot: Slot, data: Data) -> Self {
        match slot {
            Slot::First => UndirectedState { id: self.id, first: data, second: self.second },
            Slot::Second => UndirectedState { id: self.id, first: self.first, second: data },
        }
    }

    /// The state after a swap.
    pub open spec fn swapped(self) -> Self {
        UndirectedState { id: self.id, first: self.second, second: self.first }
    }

    /// The state after `count` swaps.
    pub open spec fn swapped_times(self, count: nat) -> Self
        decreases count,
    {
        if count == 0 {
            self
        } else {
            self.swapped_times((count - 1) as nat).swapped()
        }
    }

    /// The address of `slot` in this channel.
    pub open spec fn address(self, slot: Slot) -> SlotAddress {
        SlotAddress { channel: self.id, slot }
    }

    /// The two payloads, that of the first slot first.
    pub open spec fn payloads(self) -> (Data, Data) {
        (self.first, self.second)
    }

    /// Whether `address` is the address of a slot of this channel.
    pub open spec fn holds(self, address: SlotAddress) -> bool {
        address.channel == self.id
    }

    /// Whether the two addresses are the addresses of the two slots of this
    /// channel, in either order.
    pub open spec fn accepts(self, address1: SlotAddress, address2: SlotAddress) -> bool {
        &&& self.holds(address1)
        &&& self.holds(address2)
        &&& address2.slot == address1.slot.other()
    }

    /// Whether `address1` is the address of one slot of this channel and
    /// every pointer of `pointers` names the other slot.
    pub open spec fn accepts_immutable(
        self,
        address1: SlotAddress,
        pointers: Seq<ImmutableUndirectedDataPointer<Data>>,
    ) -> bool {
        &&& self.holds(address1)
        &&& forall|i: int|
            0 <= i < pointers.len() ==> self.accepts(address1, (#[trigger] pointers[i])@)
    }
}

/// An undirected channel: two payload slots under one channel id.
#[derive(Debug)]
pub struct UndirectedChannel<Data> {
    id: u64,
    data1: Data,
    data2: Data,
}

/// The owner of an undirected channel. Its reconciliation needs a
/// [`ChannelKey`].
#[derive(Debug)]
#[must_use]
pub struct UndirectedChannelPointer<Data> {
    channel: Box<UndirectedChannel<Data>>,
}

/// A pointer to one payload slot of an undirected channel. It owns nothing:
/// the slot is reached through the channel, under a [`DataKey`].
#[derive(Debug)]
#[must_use]
pub struct UndirectedDataPointer<Data> {
    address: SlotAddress,
    data: PhantomData<Data>,
}

/// A pointer to one payload slot of an undirected channel that only reads.
#[derive(Debug)]
#[must_use]
pub struct ImmutableUndirectedDataPointer<Data> {
    address: SlotAddress,
    data: PhantomData<Data>,
}

impl<Data> View for UndirectedChannel<Data> {
    type V = UndirectedState<Data>;

    closed spec fn view(&self) -> UndirectedState<Data> {
        UndirectedState { id: self.id, first: self.data1, second: self.data2 }
    }
}

impl<Data> View for UndirectedChannelPointer<Data> {
    type V = UndirectedState<Data>;

    closed spec fn view(&self) -> UndirectedState<Data> {
        self.channel@
    }
}

impl<Data> View for UndirectedDataPointer<Data> {
    type V = SlotAddress;

    closed spec fn view(&self) -> SlotAddress {
        self.address
    }
}

impl<Data> View for ImmutableUndirectedDataPointer<Data> {
    type V = SlotAddress;

    closed spec fn view(&self) -> SlotAddress {
        self.address
    }
}

impl<Data> UndirectedChannel<Data> {
    /// Creates an undirected channel under the given id and hands out its
    /// owner and one data pointer to each slot.
    pub fn create(id: u64, data1: Data, data2: Data) -> (pointers: (
        UndirectedChannelPointer<Data>,
        UndirectedDataPointer<Data>,
        UndirectedDataPointer<Data>,
    ))
        ensures
            pointers.0@ == (UndirectedState { id, first: data1, second: data2 }),
            pointers.1@ == pointers.0@.address(Slot::First),
            pointers.2@ == pointers.0@.address(Slot::Second),
    {
        let channel_pointer = UndirectedChannelPointer {
            channel: Box::new(UndirectedChannel { id, data1, data2 }),
        };
        let data_pointer1 = UndirectedDataPointer {
            address: SlotAddress { channel: id, slot: Slot::First },
            data: PhantomData,
        };
        let data_pointer2 = UndirectedDataPointer {
            address: SlotAddress { channel: id, slot: Slot::Second },
            data: PhantomData,
        };
        (channel_pointer, data_pointer1, data_pointer2)
    }

    /// Takes the channel apart and returns its two payloads, that of the
    /// first slot first. The two data pointers must name the two slots of
    /// this channel, in either order.
    pub fn destroy(
        channel_pointer: UndirectedChannelPointer<Data>,
        data_pointer1: UndirectedDataPointer<Data>,
        data_pointer2: UndirectedDataPointer<Data>,
    ) -> (payloads: (Data, Data))
        requires
            channel_pointer@.accepts(data_pointer1@, data_pointer2@),
        ensures
            payloads == channel_pointer@.payloads(),
    {
        let UndirectedChannelPointer { channel } = channel_pointer;
        let channel = *channel;
        (channel.data1, channel.data2)
    }

    /// Takes the channel apart and returns its two payloads, that of the
    /// first slot first. One slot is named by the data pointer that could
    /// write it; the other slot may have been read through any number of
    /// immutable pointers, all of which are handed in.
    pub fn destroy_immutable(
        channel_pointer: UndirectedChannelPointer<Data>,
        data_pointer1: UndirectedDataPointer<Data>,
        data_pointer2: Vec<ImmutableUndirectedDataPointer<Data>>,
    ) -> (payloads: (Data, Data))
        requires
            channel_pointer@.accepts_immutable(data_pointer1@, data_pointer2@),
        ensures
            payloads == channel_pointer@.payloads(),
    {
        let UndirectedChannelPointer { channel } = channel_pointer;
        let channel = *channel;
        (channel.data1, channel.data2)
    }
}

impl<Data: Clone> UndirectedChannel<Data> {
    /// Creates an undirected channel whose two slots start from the same
    /// payload: the first slot from a clone of it, the second from the
    /// payload itself.
    pub fn create_equal(id: u64, data: Data) -> (pointers: (
        UndirectedChannelPointer<Data>,
        UndirectedDataPointer<Data>,
        UndirectedDataPointer<Data>,
    ))
        ensures
            pointers.0@.id == id,
            cloned(data, pointers.0@.first),
            pointers.0@.second == data,
            pointers.1@ == pointers.0@.address(Slot::First),
            pointers.2@ == pointers.0@.address(Slot::Second),
    {
        Self::create(id, data.clone(), data)
    }
}

impl<Data> UndirectedChannelPointer<Data> {
    /// Swaps the two payloads of the channel.
    pub fn swap(&mut self, channel_key: &ChannelKey)
        ensures
            final(self)@ == old(self)@.swapped(),
    {
        let channel: &mut UndirectedChannel<Data> = &mut self.channel;
        core::mem::swap(&mut channel.data1, &mut channel.data2);
    }

    /// The channel that this pointer owns, for reading its slots.
    pub fn channel(&self) -> (channel: &UndirectedChannel<Data>)
        ensures
            channel@ == self@,
    {
        &self.channel
    }

    /// The channel that this pointer owns, for writing its slots.
    pub fn channel_mut(&mut self) -> (channel: &mut UndirectedChannel<Data>)
        ensures
            channel@ == old(self)@,
            final(self)@ == final(channel)@,
    {
        &mut self.channel
    }

    /// Whether the two data pointers name the two slots of the channel that
    /// this pointer owns, in either order: the condition under which the
    /// channel may be destroyed with them.
    pub fn owns(
        &self,
        data_pointer1: &UndirectedDataPointer<Data>,
        data_pointer2: &UndirectedDataPointer<Data>,
    ) -> (owned: bool)
        ensures
            owned == self@.accepts(data_pointer1@, data_pointer2@),
    {
        let id: u64 = self.channel.id;
        let first = SlotAddress { channel: id, slot: Slot::First };
        let second = SlotAddress { channel: id, slot: Slot::Second };
        (first == data_pointer1.address && second == data_pointer2.address) || (first
            == data_pointer2.address && second == data_pointer1.address)
    }

    /// Whether the data pointer names one slot of the channel that this
    /// pointer owns and every immutable pointer names the other slot: the
    /// condition under which the channel may be destroyed with them.
    pub fn owns_immutable(
        &self,
        data_pointer1: &UndirectedDataPointer<Data>,
        data_pointer2: &Vec<ImmutableUndirectedDataPointer<Data>>,
    ) -> (owned: bool)
        ensures
            owned == self@.accepts_immutable(data_pointer1@, data_pointer2@),
    {
        let id: u64 = self.channel.id;
        let first = SlotAddress { channel: id, slot: Slot::First };
        let second = SlotAddress { channel: id, slot: Slot::Second };
        if data_pointer1.address.channel != id {
            return false;
        }
        let mut index: usize = 0;
        while index < data_pointer2.len()
            invariant
                index <= data_pointer2.len(),
                id == self@.id,
                first == (SlotAddress { channel: id, slot: Slot::First }),
                second == (SlotAddress { channel: id, slot: Slot::Second }),
                self@.accepts_immutable(data_pointer1@, data_pointer2@.take(index as int)),
            decreases data_pointer2.len() - index,
        {
            let address2 = data_pointer2[index].address;
            if !((first == data_pointer1.address && second == address2) || (first == address2
                && second == data_pointer1.address)) {
                return false;
            }
            index += 1;
        }
        assert(data_pointer2@.take(index as int) == data_pointer2@);
        true
    }

    /// Shorthand for [`UndirectedChannel::destroy`].
    pub fn destroy(
        self,
        data_pointer1: UndirectedDataPointer<Data>,
        data_pointer2: UndirectedDataPointer<Data>,
    ) -> (payloads: (Data, Data))
        requires
            self@.accepts(data_pointer1@, data_pointer2@),
        ensures
            payloads == self@.payloads(),
    {
        UndirectedChannel::destroy(self, data_pointer1, data_pointer2)
    }

    /// Shorthand for [`UndirectedChannel::destroy_immutable`].
    pub fn destroy_immutable(
        self,
        data_pointer1: UndirectedDataPointer<Data>,
        data_pointer2: Vec<ImmutableUndirectedDataPointer<Data>>,
    ) -> (payloads: (Data, Data))
        requires
            self@.accepts_immutable(data_pointer1@, data_pointer2@),
        ensures
            payloads == self@.payloads(),
    {
        UndirectedChannel::destroy_immutable(self, data_pointer1, data_pointer2)
    }
}

impl<Data> UndirectedDataPointer<Data> {
    /// Whether this pointer names a slot of `channel`.
    pub fn points_into(&self, channel: &UndirectedChannel<Data>) -> (named: bool)
        ensures
            named == channel@.holds(self@),
    {
        self.address.channel == channel.id
    }

    /// Reads the slot that this pointer names.
    pub fn get<'a>(&self, data_key: &DataKey, channel: &'a UndirectedChannel<Data>) -> (data:
        &'a Data)
        requires
            channel@.holds(self@),
        ensures
            *data == channel@.read(self@.slot),
    {
        match self.address.slot {
            Slot::First => &channel.data1,
            Slot::Second => &channel.data2,
        }
    }

    /// Opens the slot that this pointer names for writing. Nothing but that
    /// slot can change through the reference.
    pub fn get_mut<'a>(
        &mut self,
        data_key: &DataKey,
        channel: &'a mut UndirectedChannel<Data>,
    ) -> (data: &'a mut Data)
        requires
            old(channel)@.holds(old(self)@),
        ensures
            *data == old(channel)@.read(old(self)@.slot),
            final(channel)@ == old(channel)@.write(old(self)@.slot, *final(data)),
            final(self)@ == old(self)@,
    {
        match self.address.slot {
            Slot::First => &mut channel.data1,
            Slot::Second => &mut channel.data2,
        }
    }

    /// Gives up the right to write the slot: the immutable pointer names the
    /// same slot.
    pub fn into_immutable(self) -> (pointer: ImmutableUndirectedDataPointer<Data>)
        ensures
            pointer@ == self@,
    {
        ImmutableUndirectedDataPointer { address: self.address, data: PhantomData }
    }
}

impl<Data> ImmutableUndirectedDataPointer<Data> {
    /// Whether this pointer names a slot of `channel`.
    pub fn points_into(&self, channel: &UndirectedChannel<Data>) -> (named: bool)
        ensures
            named == channel@.holds(self@),
    {
        self.address.channel == channel.id
    }

    /// Reads the slot that this pointer names.
    pub fn get<'a>(&self, data_key: &DataKey, channel: &'a UndirectedChannel<Data>) -> (data:
        &'a Data)
        requires
            channel@.holds(self@),
        ensures
            *data == channel@.read(self@.slot),
    {
        match self.address.slot {
            Slot::First => &channel.data1,
            Slot::Second => &channel.data2,
        }
    }
}

impl<Data> Clone for ImmutableUndirectedDataPointer<Data> {
    fn clone(&self) -> (pointer: Self)
        ensures
            pointer == *self,
    {
        *self
    }
}

impl<Data> Copy for ImmutableUndirectedDataPointer<Data> {
}

/// The reconciliation of an undirected channel, for owners held without
/// their payload type.
pub trait UndirectedSwapChannel: Send + Sync {
    /// Performs [`UndirectedChannelPointer::swap`].
    fn swap(&mut self, channel_key: &ChannelKey);
}

impl<Data: Send + Sync> UndirectedSwapChannel for UndirectedChannelPointer<Data> {
    /// Swaps the two payloads of the channel, as the pointer's own `swap`
    /// does.
    fn swap(&mut self, channel_key: &ChannelKey)
        ensures
            final(self)@ == old(self)@.swapped(),
    {
        UndirectedChannelPointer::swap(self, channel_key);
    }
}

/// A read right after a swap sees what the other slot held before the swap.
/// This holds in every state, so it holds after every swap of a run,
/// whatever reads, writes and swaps went before.
pub proof fn lemma_read_after_swap<Data>(state: UndirectedState<Data>, slot: Slot)
    ensures
        state.swapped().read(slot) == state.read(slot.other()),
        state.swapped().id == state.id,
{
}

/// After an even number of swaps each slot holds what it held at the start,
/// after an odd number what the other slot held.
pub proof fn lemma_read_after_swaps<Data>(state: UndirectedState<Data>, count: nat, slot: Slot)
    ensures
        state.swapped_times(count).id == state.id,
        state.swapped_times(count).read(slot) == if count % 2 == 0 {
            state.read(slot)
        } else {
            state.read(slot.other())
        },
    decreases count,
{
    if count > 0 {
        lemma_read_after_swaps(state, (count - 1) as nat, slot);
        lemma_read_after_swaps(state, (count - 1) as nat, slot.other());
    }
}

/// A write through a data pointer is seen by the next read of the same slot
/// and leaves the other slot as it was.
pub proof fn lemma_read_after_write<Data>(state: UndirectedState<Data>, slot: Slot, data: Data)
    ensures
        state.write(slot, data).read(slot) == data,
        state.write(slot, data).read(slot.other()) == state.read(slot.other()),
        state.write(slot, data).id == state.id,
{
}

/// Writes to the two slots do not touch each other: in whichever order two
/// workers write their slots, the channel ends in the same state.
pub proof fn lemma_writes_to_both_slots_commute<Data>(
    state: UndirectedState<Data>,
    slot: Slot,
    data: Data,
    other_data: Data,
)
    ensures
        state.write(slot, data).write(slot.other(), other_data) == state.write(
            slot.other(),
            other_data,
        ).write(slot, data),
{
}

/// A channel that has just been created from `data1` and `data2` can be
/// destroyed with its two data pointers, handed in in either order, and the
/// payloads that come back are `data1` and `data2`.
pub proof fn lemma_create_destroy_round_trip<Data>(id: u64, data1: Data, data2: Data)
    ensures
        ({
            let state = UndirectedState { id, first: data1, second: data2 };
            &&& state.accepts(state.address(Slot::First), state.address(Slot::Second))
            &&& state.accepts(state.address(Slot::Second), state.address(Slot::First))
            &&& state.payloads() == (data1, data2)
        }),
{
}

/// The data pointers of a channel stay its data pointers through every swap
/// and every write.
pub proof fn lemma_pointers_outlive_reconciliation<Data>(
    state: UndirectedState<Data>,
    address1: SlotAddress,
    address2: SlotAddress,
    slot: Slot,
    data: Data,
)
    requires
        state.accepts(address1, address2),
    ensures
        state.swapped().accepts(address1, address2),
        state.write(slot, data).accepts(address1, address2),
{
}

/// A data pointer into another channel is never accepted: neither for
/// reading or writing a slot, nor in any place of a destruction.
pub proof fn lemma_foreign_pointer_rejected<Data>(
    state: UndirectedState<Data>,
    foreign: SlotAddress,
    other: SlotAddress,
    pointers: Seq<ImmutableUndirectedDataPointer<Data>>,
)
    requires
        foreign.channel != state.id,
    ensures
        !state.holds(foreign),
        !state.accepts(foreign, other),
        !state.accepts(other, foreign),
        !state.accepts_immutable(foreign, pointers),
        (exists|i: int| 0 <= i < pointers.len() && (#[trigger] pointers[i])@ == foreign)
            ==> !state.accepts_immutable(other, pointers),
{
}

/// Two channels under different ids never accept a pair of data pointers of
/// which one is the other channel's.
pub proof fn lemma_channels_do_not_mix<Data>(
    state1: UndirectedState<Data>,
    state2: UndirectedState<Data>,
    slot1: Slot,
    slot2: Slot,
)
    requires
        state1.id != state2.id,
    ensures
        !state1.accepts(state1.address(slot1), state2.address(slot2)),
        !state1.accepts(state2.address(slot2), state1.address(slot1)),
        !state2.accepts(state1.address(slot1), state2.address(slot2)),
        !state2.accepts(state2.address(slot2), state1.address(slot1)),
{
}

/// Two data pointers to the same slot are never accepted as a pair.
pub proof fn lemma_same_slot_rejected<Data>(state: UndirectedState<Data>, address: SlotAddress)
    ensures
        !state.accepts(address, address),
{
}

} // verus!
