use two_phase_channel::{ChannelKey, DataKey, MasterFlag, MasterKey};

fn assert_send_sync<T: Send + Sync>(_: &T) {}

#[test]
fn fresh_flag_reports_its_state() {
    assert!(!MasterFlag::new(false).master_exists());
    assert!(MasterFlag::new(true).master_exists());
}

#[test]
fn strict_master_sets_flag_between_create_and_destroy() {
    let mut flag = MasterFlag::new(false);
    assert!(!flag.master_exists());
    let master_key = MasterKey::create(&mut flag);
    assert!(flag.master_exists());
    assert!(!master_key.is_unlimited());
    master_key.destroy(&mut flag);
    assert!(!flag.master_exists());
}

#[test]
fn flag_stays_set_while_keys_are_derived() {
    let mut flag = MasterFlag::new(false);
    let mut master_key = MasterKey::create(&mut flag);
    {
        let data_key = master_key.get_data_key();
        let channel_key = data_key.into_channel_key();
        let _data_key = channel_key.into_data_key();
        assert!(flag.master_exists());
    }
    {
        let _channel_key = master_key.get_channel_key();
        assert!(flag.master_exists());
    }
    assert!(!master_key.is_unlimited());
    master_key.destroy(&mut flag);
    assert!(!flag.master_exists());
}

#[test]
fn second_strict_master_is_refused_while_first_lives() {
    let mut flag = MasterFlag::new(false);
    let master_key = MasterKey::create(&mut flag);
    // The condition under which a strict master key may be created is gone.
    assert!(flag.master_exists());
    master_key.destroy(&mut flag);
}

#[test]
fn strict_master_can_be_created_again_after_destroy() {
    let mut flag = MasterFlag::new(false);
    let first = MasterKey::create(&mut flag);
    first.destroy(&mut flag);
    assert!(!flag.master_exists());
    let second = MasterKey::create(&mut flag);
    assert!(flag.master_exists());
    second.destroy(&mut flag);
    assert!(!flag.master_exists());
}

#[test]
fn unlimited_master_leaves_clear_flag_clear() {
    let mut flag = MasterFlag::new(false);
    let master_key = MasterKey::create_unlimited();
    assert!(master_key.is_unlimited());
    assert!(!flag.master_exists());
    master_key.destroy(&mut flag);
    assert!(!flag.master_exists());
}

#[test]
fn unlimited_master_leaves_set_flag_set() {
    let mut flag = MasterFlag::new(false);
    let strict = MasterKey::create(&mut flag);
    let unlimited = MasterKey::create_unlimited();
    assert!(flag.master_exists());
    unlimited.destroy(&mut flag);
    assert!(flag.master_exists());
    strict.destroy(&mut flag);
    assert!(!flag.master_exists());
}

#[test]
fn several_unlimited_masters_may_live_together() {
    let mut first = MasterKey::create_unlimited();
    let mut second = MasterKey::create_unlimited();
    let data_key = first.get_data_key();
    let channel_key = second.get_channel_key();
    let _back: DataKey = channel_key.into_data_key();
    let _forth: ChannelKey = data_key.into_channel_key();
}

#[test]
fn keys_can_cross_threads() {
    let mut master_key = MasterKey::create_unlimited();
    assert_send_sync(&master_key);
    let data_key = master_key.get_data_key();
    assert_send_sync(&data_key);
    let channel_key = data_key.into_channel_key();
    assert_send_sync(&channel_key);
}
