//! A bidirected channel.
//!
//! Two directed channels under one owner. Each of the two endpoints reads
//! the read-only slot of one directed channel and writes the writable slot
//! of the other, so what one endpoint puts out reaches the other endpoint's
//! input with the next flush.

use crate::directed::{
    DirectedChannel, DirectedId, DirectedState, Place, ReadOnlyDataPointer, WriteOnlyDataPointer,
};
use crate::{ChannelKey, DataKey};
use vstd::pervasive::cloned;
use vstd::prelude::*;

verus! {

/// What a bidirected channel is at one moment: the states of its two
/// directed channels.
pub struct BidirectedState<Data1, Data2> {
    pub channel1: DirectedState<Data1>,
    pub channel2: DirectedState<Data2>,
}

/// What an endpoint of a bidirected channel names: the directed channel it
/// reads from and the directed channel it writes to.
pub struct EndpointAddress {
    pub input: DirectedId,
    pub output: DirectedId,
}

impl<Data1, Data2> BidirectedState<Data1, Data2> {
    /// Whether the two directed channels are the two halves of one control
    /// block.
    pub open spec fn well_formed(self) -> bool {
        &&& self.channel1.id.block == self.channel2.id.block
        &&& self.channel1.id.place == Place::First
        &&& self.channel2.id.place == Place::Second
    }

    /// What the first endpoint names: it reads from the first directed
    /// channel and writes to the second.
    pub open spec fn endpoint1(self) -> EndpointAddress {
        EndpointAddress { input: self.channel1.id, output: self.channel2.id }
    }

    /// What the second endpoint names: it reads from the second directed
    /// channel and writes to the first.
    pub open spec fn endpoint2(self) -> EndpointAddress {
        EndpointAddress { input: self.channel2.id, output: self.channel1.id }
    }

    /// Whether `endpoint1` and `endpoint2` are the first and the second
    /// endpoint of this channel.
    pub open spec fn accepts(self, endpoint1: EndpointAddress, endpoint2: EndpointAddress) -> bool {
        &&& endpoint1.input == self.channel1.id
        &&& endpoint1.output == self.channel2.id
        &&& endpoint2.input == self.channel2.id
        &&& endpoint2.output == self.channel1.id
    }

    /// The four payloads: the read-only and the writable payload of the
    /// first directed channel, then those of the second.
    pub open spec fn payloads(self) -> (Data1, Data1, Data2, Data2) {
        (
            self.channel1.read_only,
            self.channel1.writable,
            self.channel2.read_only,
            self.channel2.writable,
        )
    }

    /// What the first endpoint reads.
    pub open spec fn input1(self) -> Data1 {
        self.channel1.read_only
    }

    /// What the first endpoint has written.
    pub open spec fn output1(self) -> Data2 {
        self.channel2.writable
    }

    /// What the second endpoint reads.
    pub open spec fn input2(self) -> Data2 {
        self.channel2.read_only
    }

    /// What the second endpoint has written.
    pub open spec fn output2(self) -> Data1 {
        self.channel1.writable
    }

    /// The state after the first endpoint has written `data` to its output.
    pub open spec fn write_output1(self, data: Data2) -> Self {
        BidirectedState { channel1: self.channel1, channel2: self.channel2.write(data) }
    }

    /// The state after the second endpoint has written `data` to its output.
    pub open spec fn write_output2(self, data: Data1) -> Self {
        BidirectedState { channel1: self.channel1.write(data), channel2: self.channel2 }
    }
}

impl<Data1: Clone, Data2: Clone> BidirectedState<Data1, Data2> {
    /// Whether a flush leads from this state to `after`: both directed
    /// channels have been flushed.
    pub open spec fn flushes_to(self, after: Self) -> bool {
        &&& self.channel1.flushes_to(after.channel1)
        &&& self.channel2.flushes_to(after.channel2)
    }
}

/// A bidirected channel: two directed channels.
#[derive(Debug)]
pub struct BidirectedChannel<Data1, Data2> {
    channel1: DirectedChannel<Data1>,
    channel2: DirectedChannel<Data2>,
}

/// The owner of a bidirected channel. Its reconciliation needs a
/// [`ChannelKey`].
#[derive(Debug)]
#[must_use]
pub struct BidirectedChannelPointer<Data1, Data2> {
    channel: Box<BidirectedChannel<Data1, Data2>>,
}

/// An endpoint of a bidirected channel: a pointer to the read-only slot of
/// one of its directed channels, the input, and a pointer to the writable
/// slot of the other, the output.
#[derive(Debug)]
#[must_use]
pub struct BidirectedDataPointer<Input, Output> {
    input: ReadOnlyDataPointer<Input>,
    output: WriteOnlyDataPointer<Output>,
}

impl<Data1, Data2> View for BidirectedChannel<Data1, Data2> {
    type V = BidirectedState<Data1, Data2>;

    closed spec fn view(&self) -> BidirectedState<Data1, Data2> {
        BidirectedState { channel1: self.channel1@, channel2: self.channel2@ }
    }
}

impl<Data1, Data2> View for BidirectedChannelPointer<Data1, Data2> {
    type V = BidirectedState<Data1, Data2>;

    closed spec fn view(&self) -> BidirectedState<Data1, Data2> {
        self.channel@
    }
}

impl<Input, Output> View for BidirectedDataPointer<Input, Output> {
    type V = EndpointAddress;

    closed spec fn view(&self) -> EndpointAddress {
        EndpointAddress { input: self.input@, output: self.output@ }
    }
}

impl<Data1, Data2> BidirectedChannel<Data1, Data2> {
    /// Creates a bidirected channel under the given block id and hands out
    /// its owner and its two endpoints. The first endpoint's input is the
    /// read-only slot of the first directed channel and its output is the
    /// writable slot of the second; the second endpoint has it the other way
    /// round.
    pub fn create(
        id: u64,
        read_only1: Data1,
        write_only1: Data1,
        read_only2: Data2,
        write_only2: Data2,
    ) -> (pointers: (
        BidirectedChannelPointer<Data1, Data2>,
        BidirectedDataPointer<Data1, Data2>,
        BidirectedDataPointer<Data2, Data1>,
    ))
        ensures
            pointers.0@ == (BidirectedState {
                channel1: DirectedState {
                    id: DirectedId { block: id, place: Place::First },
                    read_only: read_only1,
                    writable: write_only1,
                },
                channel2: DirectedState {
                    id: DirectedId { block: id, place: Place::Second },
                    read_only: read_only2,
                    writable: write_only2,
                },
            }),
            pointers.1@ == pointers.0@.endpoint1(),
            pointers.2@ == pointers.0@.endpoint2(),
    {
        let identity1 = DirectedId { block: id, place: Place::First };
        let identity2 = DirectedId { block: id, place: Place::Second };
        let channel_pointer = BidirectedChannelPointer {
            channel: Box::new(
                BidirectedChannel {
                    channel1: DirectedChannel::new(identity1, read_only1, write_only1),
                    channel2: DirectedChannel::new(identity2, read_only2, write_only2),
                },
            ),
        };
        let input_data_pointer1 = ReadOnlyDataPointer::new(identity1);
        let output_data_pointer1 = WriteOnlyDataPointer::new(identity2);
        let input_data_pointer2 = ReadOnlyDataPointer::new(identity2);
        let output_data_pointer2 = WriteOnlyDataPointer::new(identity1);
        (
            channel_pointer,
            BidirectedDataPointer { input: input_data_pointer1, output: output_data_pointer1 },
            BidirectedDataPointer { input: input_data_pointer2, output: output_data_pointer2 },
        )
    }

    /// Takes the channel apart and returns the four payloads: the read-only
    /// and the writable payload of the first directed channel, then those of
    /// the second.
    pub fn destroy(
        channel_pointer: BidirectedChannelPointer<Data1, Data2>,
        data_pointer1: BidirectedDataPointer<Data1, Data2>,
        data_pointer2: BidirectedDataPointer<Data2, Data1>,
    ) -> (payloads: (Data1, Data1, Data2, Data2))
        requires
            channel_pointer@.accepts(data_pointer1@, data_pointer2@),
        ensures
            payloads == channel_pointer@.payloads(),
    {
        let BidirectedChannelPointer { channel } = channel_pointer;
        let BidirectedChannel { channel1, channel2 } = *channel;
        let (read_only1, write_only1) = channel1.into_payloads();
        let (read_only2, write_only2) = channel2.into_payloads();
        (read_only1, write_only1, read_only2, write_only2)
    }

    /// The first directed channel: the input of the first endpoint, the
    /// output of the second.
    pub fn channel1(&self) -> (channel: &DirectedChannel<Data1>)
        ensures
            channel@ == self@.channel1,
    {
        &self.channel1
    }

    /// The second directed channel: the input of the second endpoint, the
    /// output of the first.
    pub fn channel2(&self) -> (channel: &DirectedChannel<Data2>)
        ensures
            channel@ == self@.channel2,
    {
        &self.channel2
    }

    /// The first directed channel, for writing its writable slot.
    pub fn channel1_mut(&mut self) -> (channel: &mut DirectedChannel<Data1>)
        ensures
            channel@ == old(self)@.channel1,
            final(self)@ == (BidirectedState {
                channel1: final(channel)@,
                channel2: old(self)@.channel2,
            }),
    {
        &mut self.channel1
    }

    /// The second directed channel, for writing its writable slot.
    pub fn channel2_mut(&mut self) -> (channel: &mut DirectedChannel<Data2>)
        ensures
            channel@ == old(self)@.channel2,
            final(self)@ == (BidirectedState {
                channel1: old(self)@.channel1,
                channel2: final(channel)@,
            }),
    {
        &mut self.channel2
    }
}

impl<Data1: Clone, Data2: Clone> BidirectedChannel<Data1, Data2> {
    /// Creates a bidirected channel in which both slots of each directed
    /// channel start from the same payload.
    pub fn create_equal(id: u64, data1: Data1, data2: Data2) -> (pointers: (
        BidirectedChannelPointer<Data1, Data2>,
        BidirectedDataPointer<Data1, Data2>,
        BidirectedDataPointer<Data2, Data1>,
    ))
        ensures
            pointers.0@.channel1.id == (DirectedId { block: id, place: Place::First }),
            pointers.0@.channel2.id == (DirectedId { block: id, place: Place::Second }),
            cloned(data1, pointers.0@.channel1.read_only),
            pointers.0@.channel1.writable == data1,
            cloned(data2, pointers.0@.channel2.read_only),
            pointers.0@.channel2.writable == data2,
            pointers.1@ == pointers.0@.endpoint1(),
            pointers.2@ == pointers.0@.endpoint2(),
    {
        Self::create(id, data1.clone(), data1, data2.clone(), data2)
    }
}

impl<Data1: Clone, Data2: Clone> BidirectedChannelPointer<Data1, Data2> {
    /// Flushes both directed channels.
    pub fn flush(&mut self, key: &ChannelKey)
        ensures
            old(self)@.flushes_to(final(self)@),
    {
        let channel: &mut BidirectedChannel<Data1, Data2> = &mut self.channel;
        channel.channel1.flush(key);
        channel.channel2.flush(key);
    }
}

impl<Data1, Data2> BidirectedChannelPointer<Data1, Data2> {
    /// The channel that this pointer owns, for reading its slots.
    pub fn channel(&self) -> (channel: &BidirectedChannel<Data1, Data2>)
        ensures
            channel@ == self@,
    {
        &self.channel
    }

    /// The channel that this pointer owns, for writing its slots.
    pub fn channel_mut(&mut self) -> (channel: &mut BidirectedChannel<Data1, Data2>)
        ensures
            channel@ == old(self)@,
            final(self)@ == final(channel)@,
    {
        &mut self.channel
    }

    /// Whether the two endpoints are the first and the second endpoint of
    /// the channel that this pointer owns: the condition under which the
    /// channel may be destroyed with them.
    pub fn owns(
        &self,
        data_pointer1: &BidirectedDataPointer<Data1, Data2>,
        data_pointer2: &BidirectedDataPointer<Data2, Data1>,
    ) -> (owned: bool)
        ensures
            owned == self@.accepts(data_pointer1@, data_pointer2@),
    {
        data_pointer1.input.points_into(&self.channel.channel1)
            && data_pointer1.output.points_into(&self.channel.channel2)
            && data_pointer2.input.points_into(&self.channel.channel2)
            && data_pointer2.output.points_into(&self.channel.channel1)
    }

    /// Shorthand for [`BidirectedChannel::destroy`].
    pub fn destroy(
        self,
        data_pointer1: BidirectedDataPointer<Data1, Data2>,
        data_pointer2: BidirectedDataPointer<Data2, Data1>,
    ) -> (payloads: (Data1, Data1, Data2, Data2))
        requires
            self@.accepts(data_pointer1@, data_pointer2@),
        ensures
            payloads == self@.payloads(),
    {
        BidirectedChannel::destroy(self, data_pointer1, data_pointer2)
    }
}

impl<Input, Output> BidirectedDataPointer<Input, Output> {
    /// Whether `channel` is the directed channel that this endpoint reads
    /// from.
    pub fn inputs_from(&self, channel: &DirectedChannel<Input>) -> (named: bool)
        ensures
            named == (self@.input == channel@.id),
    {
        self.input.points_into(channel)
    }

    /// Whether `channel` is the directed channel that this endpoint writes
    /// to.
    pub fn outputs_to(&self, channel: &DirectedChannel<Output>) -> (named: bool)
        ensures
            named == (self@.output == channel@.id),
    {
        self.output.points_into(channel)
    }

    /// Reads the input of this endpoint: the read-only slot of the directed
    /// channel that it reads from.
    pub fn get_input<'a>(&self, data_key: &DataKey, channel: &'a DirectedChannel<Input>) -> (data:
        &'a Input)
        requires
            self@.input == channel@.id,
        ensures
            *data == channel@.read_only,
    {
        self.input.get(data_key, channel)
    }

    /// Opens the output of this endpoint for writing: the writable slot of
    /// the directed channel that it writes to.
    pub fn get_output<'a>(
        &mut self,
        data_key: &DataKey,
        channel: &'a mut DirectedChannel<Output>,
    ) -> (data: &'a mut Output)
        requires
            old(self)@.output == old(channel)@.id,
        ensures
            *data == old(channel)@.writable,
            final(channel)@ == old(channel)@.write(*final(data)),
            final(self)@ == old(self)@,
    {
        self.output.get_mut(data_key, channel)
    }
}

/// The reconciliation of a bidirected channel, for owners held without
/// their payload types.
pub trait IBidirectedChannel: Send + Sync {
    /// Performs [`BidirectedChannelPointer::flush`].
    fn flush(&mut self, channel_key: &ChannelKey);
}

impl<Data1: Clone + Send + Sync, Data2: Clone + Send + Sync> IBidirectedChannel for BidirectedChannelPointer<
    Data1,
    Data2,
> {
    /// Flushes both directed channels, as the pointer's own `flush` does.
    fn flush(&mut self, channel_key: &ChannelKey)
        ensures
            old(self)@.flushes_to(final(self)@),
    {
        BidirectedChannelPointer::flush(self, channel_key);
    }
}

/// A read right after a flush sees, at either endpoint's input, a clone of
/// what the other endpoint had last written to its output, and the outputs
/// still hold what was written.
pub proof fn lemma_read_after_flush<Data1: Clone, Data2: Clone>(
    before: BidirectedState<Data1, Data2>,
    after: BidirectedState<Data1, Data2>,
)
    requires
        before.flushes_to(after),
    ensures
        cloned(before.output2(), after.input1()),
        cloned(before.output1(), after.input2()),
        after.output1() == before.output1(),
        after.output2() == before.output2(),
        after.endpoint1() == before.endpoint1(),
        after.endpoint2() == before.endpoint2(),
{
}

/// For payload types whose clones always equal their sources: right after
/// a flush either endpoint's input equals what the other endpoint had last
/// written to its output.
pub proof fn lemma_flush_delivers_exactly<Data1: Clone, Data2: Clone>(
    before: BidirectedState<Data1, Data2>,
    after: BidirectedState<Data1, Data2>,
)
    requires
        before.flushes_to(after),
        forall|source: Data1, copy: Data1| #[trigger] cloned(source, copy) ==> source == copy,
        forall|source: Data2, copy: Data2| #[trigger] cloned(source, copy) ==> source == copy,
    ensures
        after.input1() == before.output2(),
        after.input2() == before.output1(),
{
}

/// What an endpoint writes to its output is what its output then holds, and
/// it changes neither input nor the other endpoint's output.
pub proof fn lemma_write_keeps_inputs<Data1, Data2>(
    state: BidirectedState<Data1, Data2>,
    data1: Data1,
    data2: Data2,
)
    ensures
        state.write_output1(data2).output1() == data2,
        state.write_output1(data2).output2() == state.output2(),
        state.write_output1(data2).input1() == state.input1(),
        state.write_output1(data2).input2() == state.input2(),
        state.write_output2(data1).output2() == data1,
        state.write_output2(data1).output1() == state.output1(),
        state.write_output2(data1).input1() == state.input1(),
        state.write_output2(data1).input2() == state.input2(),
{
}

/// The outputs of the two endpoints do not touch each other: in whichever
/// order the endpoints write, the channel ends in the same state.
pub proof fn lemma_writes_of_both_endpoints_commute<Data1, Data2>(
    state: BidirectedState<Data1, Data2>,
    data1: Data1,
    data2: Data2,
)
    ensures
        state.write_output1(data2).write_output2(data1) == state.write_output2(
            data1,
        ).write_output1(data2),
{
}

/// A channel that has just been created can be destroyed with its two
/// endpoints, and the payloads that come back are those it was created
/// from, in the same order.
pub proof fn lemma_create_destroy_round_trip<Data1, Data2>(
    id: u64,
    read_only1: Data1,
    writable1: Data1,
    read_only2: Data2,
    writable2: Data2,
)
    ensures
        ({
            let state = BidirectedState {
                channel1: DirectedState {
                    id: DirectedId { block: id, place: Place::First },
                    read_only: read_only1,
                    writable: writable1,
                },
                channel2: DirectedState {
                    id: DirectedId { block: id, place: Place::Second },
                    read_only: read_only2,
                    writable: writable2,
                },
            };
            &&& state.well_formed()
            &&& state.accepts(state.endpoint1(), state.endpoint2())
            &&& state.payloads() == (read_only1, writable1, read_only2, writable2)
        }),
{
}

/// The endpoints of a channel stay its endpoints, and the channel stays
/// well formed, through every flush.
pub proof fn lemma_endpoints_outlive_flush<Data1: Clone, Data2: Clone>(
    before: BidirectedState<Data1, Data2>,
    after: BidirectedState<Data1, Data2>,
    endpoint1: EndpointAddress,
    endpoint2: EndpointAddress,
)
    requires
        before.flushes_to(after),
    ensures
        before.well_formed() ==> after.well_formed(),
        before.accepts(endpoint1, endpoint2) ==> after.accepts(endpoint1, endpoint2),
{
}

/// An endpoint that names a directed channel of another control block in
/// its input or its output is never accepted in a destruction.
pub proof fn lemma_foreign_endpoint_rejected<Data1, Data2>(
    state: BidirectedState<Data1, Data2>,
    foreign: EndpointAddress,
    other: EndpointAddress,
)
    requires
        state.well_formed(),
        foreign.input.block != state.channel1.id.block || foreign.output.block
            != state.channel1.id.block,
    ensures
        !state.accepts(foreign, other),
        !state.accepts(other, foreign),
{
}

/// An endpoint whose input or output is paired to the wrong directed
/// channel is never accepted in a destruction: the first endpoint must read
/// from the first directed channel and write to the second, the second
/// endpoint must read from the second and write to the first.
pub proof fn lemma_wrong_pairing_rejected<Data1, Data2>(
    state: BidirectedState<Data1, Data2>,
    endpoint1: EndpointAddress,
    endpoint2: EndpointAddress,
)
    requires
        state.well_formed(),
        endpoint1.input == state.channel2.id || endpoint1.output == state.channel1.id
            || endpoint2.input == state.channel1.id || endpoint2.output == state.channel2.id,
    ensures
        !state.accepts(endpoint1, endpoint2),
{
}

/// The two endpoints of a channel are never accepted in each other's place.
pub proof fn lemma_swapped_endpoints_rejected<Data1, Data2>(state: BidirectedState<Data1, Data2>)
    requires
        state.well_formed(),
    ensures
        !state.accepts(state.endpoint2(), state.endpoint1()),
{
}

} // verus!
