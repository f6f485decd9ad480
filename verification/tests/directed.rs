use two_phase_channel::directed::{
    DirectedChannel, DirectedChannelPointer, DirectedSwapChannel, ReadOnlyDataPointer,
    WriteOnlyDataPointer,
};
use two_phase_channel::MasterKey;

fn assert_send_sync<T: Send + Sync>(_: &T) {}

#[test]
fn directed_test() {
    let mut master_key = MasterKey::create_unlimited();
    let (mut channel_pointer, read_only_data_pointer, mut write_only_data_pointer) =
        DirectedChannel::create(1, 0, 0);

    for i in 0..3 {
        let data_key = master_key.get_data_key();
        assert_eq!(
            *read_only_data_pointer.get(&data_key, channel_pointer.channel()),
            i
        );
        *write_only_data_pointer.get_mut(&data_key, channel_pointer.channel_mut()) = i + 1;

        let channel_key = data_key.into_channel_key();
        channel_pointer.flush(&channel_key);
    }

    assert!(channel_pointer.owns_single(&read_only_data_pointer, &write_only_data_pointer));
    let (read_only_data, write_only_data) = DirectedChannel::destroy_single(
        channel_pointer,
        read_only_data_pointer,
        write_only_data_pointer,
    );
    assert_eq!(read_only_data, 3);
    assert_eq!(write_only_data, 3);
}

#[test]
fn directed_ensure_channel_is_object_safe() {
    let mut master_key = MasterKey::create_unlimited();
    let (mut channel, read_only_data_pointer, write_only_data_pointer) =
        DirectedChannel::create(1, 1, 2);
    {
        let dyn_channel: &mut dyn DirectedSwapChannel = &mut channel;
        dyn_channel.flush(&master_key.get_channel_key());
    }
    assert_eq!(
        *read_only_data_pointer.get(&master_key.get_data_key(), channel.channel()),
        2
    );
    assert_eq!(
        *write_only_data_pointer.get(&master_key.get_data_key(), channel.channel()),
        2
    );
    assert!(channel.owns_single(&read_only_data_pointer, &write_only_data_pointer));
    let _ = DirectedChannel::destroy_single(channel, read_only_data_pointer, write_only_data_pointer);
}

#[test]
fn directed_read_only_slot_keeps_last_flush() {
    let mut master_key = MasterKey::create_unlimited();
    let (mut channel, reader, mut writer) = DirectedChannel::create(2, 100, 200);
    let data_key = master_key.get_data_key();
    // Before the first flush the read-only slot holds what it was created with.
    assert_eq!(*reader.get(&data_key, channel.channel()), 100);
    assert_eq!(*writer.get(&data_key, channel.channel()), 200);
    *writer.get_mut(&data_key, channel.channel_mut()) = 201;
    assert_eq!(*reader.get(&data_key, channel.channel()), 100);
    channel.flush(&data_key.into_channel_key());
    let data_key = master_key.get_data_key();
    assert_eq!(*reader.get(&data_key, channel.channel()), 201);
    assert_eq!(*writer.get(&data_key, channel.channel()), 201);
    // Writes after the flush do not reach the read-only slot.
    *writer.get_mut(&data_key, channel.channel_mut()) = 300;
    *writer.get_mut(&data_key, channel.channel_mut()) = 301;
    assert_eq!(*reader.get(&data_key, channel.channel()), 201);
    assert_eq!(*writer.get(&data_key, channel.channel()), 301);
    // A second flush without a write in between changes nothing.
    channel.flush(&data_key.into_channel_key());
    channel.flush(&master_key.get_channel_key());
    let data_key = master_key.get_data_key();
    assert_eq!(*reader.get(&data_key, channel.channel()), 301);
    assert_eq!(*writer.get(&data_key, channel.channel()), 301);
    assert_eq!(channel.destroy_single(reader, writer), (301, 301));
}

#[test]
fn directed_flush_clones_payload() {
    let mut master_key = MasterKey::create_unlimited();
    let (mut channel, reader, mut writer) =
        DirectedChannel::create(2, String::new(), String::from("first"));
    channel.flush(&master_key.get_channel_key());
    let data_key = master_key.get_data_key();
    writer.get_mut(&data_key, channel.channel_mut()).push_str(" and second");
    assert_eq!(reader.get(&data_key, channel.channel()), "first");
    assert_eq!(writer.get(&data_key, channel.channel()), "first and second");
    let (read_only, writable) = channel.destroy_single(reader, writer);
    assert_eq!(read_only, "first");
    assert_eq!(writable, "first and second");
}

#[test]
fn directed_round_trip_in_order() {
    let (channel, reader, writer) = DirectedChannel::create(3, 'r', 'w');
    assert!(channel.owns_single(&reader, &writer));
    assert_eq!(DirectedChannel::destroy_single(channel, reader, writer), ('r', 'w'));
}

#[test]
fn directed_round_trip_with_copied_readers() {
    let mut master_key = MasterKey::create_unlimited();
    let (channel, reader, writer) = DirectedChannel::create(3, 8, 9);
    let copy = reader;
    let clone = reader.clone();
    let data_key = master_key.get_data_key();
    assert_eq!(*copy.get(&data_key, channel.channel()), 8);
    assert_eq!(*clone.get(&data_key, channel.channel()), 8);
    assert!(channel.owns(&vec![reader, copy, clone], &writer));
    assert_eq!(
        DirectedChannel::destroy(channel, vec![reader, copy, clone], writer),
        (8, 9)
    );
}

#[test]
fn directed_destroy_without_readers() {
    let (channel, _reader, writer) = DirectedChannel::create(3, 8, 9);
    let none: Vec<ReadOnlyDataPointer<i32>> = Vec::new();
    assert!(channel.owns(&none, &writer));
    assert_eq!(channel.destroy(none, writer), (8, 9));
}

#[test]
fn directed_create_equal_fills_both_slots() {
    let mut master_key = MasterKey::create_unlimited();
    let (channel, reader, writer) = DirectedChannel::create_equal(4, vec![7u8; 3]);
    let data_key = master_key.get_data_key();
    assert_eq!(*reader.get(&data_key, channel.channel()), vec![7, 7, 7]);
    assert_eq!(*writer.get(&data_key, channel.channel()), vec![7, 7, 7]);
    assert_eq!(channel.destroy_single(reader, writer), (vec![7, 7, 7], vec![7, 7, 7]));
}

#[test]
fn directed_wrong_channel_destroy_is_refused() {
    let (channel_a, reader_a, writer_a) = DirectedChannel::create(1, 0, 0);
    let (channel_b, reader_b, writer_b) = DirectedChannel::create(2, 0, 0);
    assert!(!channel_a.owns_single(&reader_b, &writer_a));
    assert!(!channel_a.owns_single(&reader_a, &writer_b));
    assert!(!channel_a.owns_single(&reader_b, &writer_b));
    assert!(!channel_a.owns(&vec![reader_a, reader_b], &writer_a));
    assert!(!channel_a.owns(&vec![reader_b, reader_a], &writer_a));
    assert!(!channel_a.owns(&vec![reader_a, reader_a, reader_b], &writer_a));
    assert!(!channel_a.owns(&vec![reader_a], &writer_b));
    assert!(!channel_a.owns(&Vec::new(), &writer_b));
    assert!(channel_a.owns(&vec![reader_a, reader_a], &writer_a));
    assert!(channel_b.owns_single(&reader_b, &writer_b));
    let _ = channel_a.destroy_single(reader_a, writer_a);
    let _ = channel_b.destroy_single(reader_b, writer_b);
}

#[test]
fn directed_pointer_of_other_channel_does_not_point_in() {
    let (channel_a, reader_a, writer_a) = DirectedChannel::create(1, 0, 0);
    let (channel_b, reader_b, writer_b) = DirectedChannel::create(2, 0, 0);
    assert!(reader_a.points_into(channel_a.channel()));
    assert!(writer_a.points_into(channel_a.channel()));
    assert!(!reader_a.points_into(channel_b.channel()));
    assert!(!writer_a.points_into(channel_b.channel()));
    assert!(!reader_b.points_into(channel_a.channel()));
    assert!(!writer_b.points_into(channel_a.channel()));
    let _ = (channel_a, channel_b);
}

#[test]
fn directed_pointers_can_cross_threads() {
    let (channel, reader, writer): (
        DirectedChannelPointer<u64>,
        ReadOnlyDataPointer<u64>,
        WriteOnlyDataPointer<u64>,
    ) = DirectedChannel::create(1, 0, 0);
    assert_send_sync(&channel);
    assert_send_sync(&reader);
    assert_send_sync(&writer);
    let boxed: Box<dyn DirectedSwapChannel> = Box::new(channel);
    assert_send_sync(&boxed);
}

#[test]
fn directed_flush_through_trait_equals_direct_flush() {
    let mut master_key = MasterKey::create_unlimited();
    let (mut direct, direct_reader, mut direct_writer) = DirectedChannel::create(1, 0, 0);
    let (mut erased, erased_reader, mut erased_writer) = DirectedChannel::create(2, 0, 0);
    for i in 1..4 {
        let data_key = master_key.get_data_key();
        *direct_writer.get_mut(&data_key, direct.channel_mut()) = i * 10;
        *erased_writer.get_mut(&data_key, erased.channel_mut()) = i * 10;
        let channel_key = data_key.into_channel_key();
        direct.flush(&channel_key);
        {
            let dyn_channel: &mut dyn DirectedSwapChannel = &mut erased;
            dyn_channel.flush(&channel_key);
        }
        let data_key = channel_key.into_data_key();
        assert_eq!(*direct_reader.get(&data_key, direct.channel()), i * 10);
        assert_eq!(*erased_reader.get(&data_key, erased.channel()), i * 10);
    }
    assert_eq!(direct.destroy_single(direct_reader, direct_writer), (30, 30));
    assert_eq!(erased.destroy_single(erased_reader, erased_writer), (30, 30));
}
