use mad_rust::connection::command::{
    CommandTrait, Commands, DeviceConfig, DeviceList, DriverConfigurationDescriptor,
    RequestDeviceConfig,
};
use mad_rust::mmo7::buttons::ButtonConfigs;
use mad_rust::mmo7::devices::ConnectedDevices;
use mad_rust::mmo7::driver::{
    answer_message, device_found, device_list_bytes, device_lost, is_mmo7, mmo7_descriptor,
    reset_motion, try_answer_message, PID, VID,
};
use mad_rust::mmo7::mapper::Mapper;
use mad_rust::mmo7::profiles::ProfileStore;

fn s(text: &str) -> String {
    text.to_string()
}

#[test]
fn profiles_read_after_write() {
    let mut store = ProfileStore::new();
    assert!(!store.contains(&s("A")));
    let mut configs = ButtonConfigs::default();
    configs.button_2 = [vec![s("two")], vec![]];
    store.insert(s("A"), configs);
    store.insert(s("B"), ButtonConfigs::default());
    assert_eq!(store.get(&s("A")).unwrap().button_2[0], vec![s("two")]);
    assert!(store.get(&s("B")).unwrap().button_2[0].is_empty());
    let mut other = ButtonConfigs::default();
    other.button_2 = [vec![s("new")], vec![]];
    store.insert(s("A"), other);
    assert_eq!(store.get(&s("A")).unwrap().button_2[0], vec![s("new")]);
    assert!(store.get(&s("C")).is_none());
}

#[test]
fn default_profile_only_when_missing() {
    let mut store = ProfileStore::new();
    assert!(store.insert_default_if_missing(&s("A")));
    assert!(!store.insert_default_if_missing(&s("A")));
    assert!(store.contains(&s("A")));
}

#[test]
fn devices_set_behaviour() {
    let mut devices = ConnectedDevices::new();
    assert!(devices.insert(s("x")));
    assert!(!devices.insert(s("x")));
    assert!(devices.insert(s("y")));
    assert_eq!(devices.serial_numbers().len(), 2);
    assert!(devices.remove(&s("x")));
    assert!(!devices.remove(&s("x")));
    assert!(!devices.contains(&s("x")));
    assert_eq!(devices.serial_numbers(), vec![s("y")]);
}

#[test]
fn mmo7_identity() {
    assert!(is_mmo7(VID, PID));
    assert!(!is_mmo7(VID, PID + 1));
    let d = mmo7_descriptor(vec![9]);
    assert_eq!(d.device_name, "MMO7");
    assert_eq!(d.mode_count, 3);
    assert_eq!(d.shift_mode_count, 3);
    assert_eq!(d.button_name_vec.len(), 15);
    assert_eq!(d.button_name_vec[12], "Button 2");
    assert_eq!(d.button_name_vec[13], "Precision Aim");
}

#[test]
fn reset_motion_zeroes_bytes_three_and_five() {
    assert_eq!(reset_motion([1, 2, 3, 4, 5, 6, 7, 8]), [1, 2, 3, 0, 5, 0, 7, 8]);
}

#[test]
fn connection_opening_sends_descriptor_and_list() {
    let mut descriptor = mmo7_descriptor(vec![]);
    let mut devices = ConnectedDevices::new();
    devices.insert(s("M1"));
    let mut profiles = ProfileStore::new();
    let mut id = 0u32;
    let replies = answer_message(true, vec![], &mut descriptor, &devices, &mut profiles, &mut id);
    assert_eq!(replies.len(), 2);
    let back = DriverConfigurationDescriptor::from_bytes(replies[0].clone());
    assert_eq!(back.device_name, "MMO7");
    let list = DeviceList::from_bytes(replies[1].clone());
    assert_eq!(list.serial_number_vec, vec![s("M1")]);
    assert_eq!(id, 0);
}

#[test]
fn connection_end_does_nothing() {
    let mut descriptor = mmo7_descriptor(vec![]);
    let devices = ConnectedDevices::new();
    let mut profiles = ProfileStore::new();
    let mut id = 5u32;
    let replies = answer_message(false, vec![1], &mut descriptor, &devices, &mut profiles, &mut id);
    assert!(replies.is_empty());
    assert_eq!(id, 5);
}

#[test]
fn profile_request_is_answered_when_known() {
    let mut descriptor = mmo7_descriptor(vec![]);
    let devices = ConnectedDevices::new();
    let mut profiles = ProfileStore::new();
    let mut configs = ButtonConfigs::default();
    configs.hat_left = [vec![s("L")], vec![]];
    profiles.insert(s("M1"), configs);
    let mut id = 0u32;
    let request = RequestDeviceConfig::new(s("M1")).to_bytes();
    let replies = answer_message(true, request, &mut descriptor, &devices, &mut profiles, &mut id);
    assert_eq!(replies.len(), 1);
    let config = DeviceConfig::from_bytes(replies[0].clone());
    assert_eq!(config.serial_number, "M1");
    assert_eq!(config.config[8][0], vec![s("L")]);
    let unknown = RequestDeviceConfig::new(s("M2")).to_bytes();
    let replies = answer_message(true, unknown, &mut descriptor, &devices, &mut profiles, &mut id);
    assert!(replies.is_empty());
}

#[test]
fn received_profile_is_stored_and_version_moves() {
    let mut descriptor = mmo7_descriptor(vec![]);
    let devices = ConnectedDevices::new();
    let mut profiles = ProfileStore::new();
    let mut configs = ButtonConfigs::default();
    configs.back_button = [vec![s("{+CTRL}")], vec![]];
    let message = DeviceConfig::new(s("M1"), configs.to_config()).to_bytes();
    let mut id = u32::MAX;
    let replies = answer_message(true, message, &mut descriptor, &devices, &mut profiles, &mut id);
    assert!(replies.is_empty());
    assert_eq!(id, 0);
    assert_eq!(profiles.get(&s("M1")).unwrap().back_button[0], vec![s("{+CTRL}")]);
}

#[test]
fn unreadable_or_short_profile_is_refused() {
    let mut descriptor = mmo7_descriptor(vec![]);
    let devices = ConnectedDevices::new();
    let mut profiles = ProfileStore::new();
    let mut id = 1u32;
    assert!(try_answer_message(true, vec![3, 0], &mut descriptor, &devices, &mut profiles, &mut id)
        .is_none());
    let short = DeviceConfig::new(s("M1"), vec![]).to_bytes();
    assert!(try_answer_message(true, short, &mut descriptor, &devices, &mut profiles, &mut id)
        .is_none());
    assert_eq!(id, 1);
    assert!(!profiles.contains(&s("M1")));
    let list = DeviceList::new(vec![]).to_bytes();
    let replies =
        try_answer_message(true, list, &mut descriptor, &devices, &mut profiles, &mut id).unwrap();
    assert!(replies.is_empty());
}

#[test]
fn found_and_lost_devices() {
    let mut devices = ConnectedDevices::new();
    let mut profiles = ProfileStore::new();
    assert_eq!(device_found(&s("M1"), &mut devices, &mut profiles), (true, true));
    assert_eq!(device_found(&s("M1"), &mut devices, &mut profiles), (false, false));
    let bytes = device_lost(&s("M1"), &mut devices);
    match Commands::decode(bytes) {
        Some(Commands::DeviceList(l)) => assert!(l.serial_number_vec.is_empty()),
        _ => panic!("expected a device list"),
    }
    // the profile stays, so a second connection creates none
    assert_eq!(device_found(&s("M1"), &mut devices, &mut profiles), (true, false));
    let list = DeviceList::from_bytes(device_list_bytes(&devices));
    assert_eq!(list.serial_number_vec, vec![s("M1")]);
}

#[test]
fn mapper_refresh_reloads_changed_profile() {
    let mut profiles = ProfileStore::new();
    profiles.insert(s("M1"), ButtonConfigs::default());
    let mut mapper = Mapper::new(ButtonConfigs::default(), 0);
    assert!(!mapper.refresh(0, &profiles, &s("M1")));
    let mut configs = ButtonConfigs::default();
    configs.button_3 = [vec![s("q{+SHIFT}")], vec![]];
    profiles.insert(s("M1"), configs);
    assert!(mapper.refresh(1, &profiles, &s("M1")));
    let actions = mapper.emulate(&[128, 0, 0, 0, 0, 0, 0, 0]);
    assert_eq!(actions.len(), 3);
}

#[test]
fn stored_profile_is_served_back() {
    let mut descriptor = mmo7_descriptor(vec![]);
    let devices = ConnectedDevices::new();
    let mut profiles = ProfileStore::new();
    let mut configs = ButtonConfigs::default();
    configs.thumb_clockwise = [vec![s("cw")], vec![s("scw")]];
    let mut sent = configs.to_config();
    sent.push([vec![s("extra")], vec![]]);
    let message = DeviceConfig::new(s("M9"), sent).to_bytes();
    let mut id = 0u32;
    answer_message(true, message, &mut descriptor, &devices, &mut profiles, &mut id);
    assert_eq!(id, 1);
    let request = RequestDeviceConfig::new(s("M9")).to_bytes();
    let replies = answer_message(true, request, &mut descriptor, &devices, &mut profiles, &mut id);
    let back = DeviceConfig::from_bytes(replies[0].clone());
    assert_eq!(back.config.len(), 15);
    assert_eq!(back.config[6], [vec![s("cw")], vec![s("scw")]]);
}

#[test]
fn emulation_reloads_a_changed_profile() {
    let mut profiles = ProfileStore::new();
    profiles.insert(s("M1"), ButtonConfigs::default());
    let mut mapper = Mapper::new(ButtonConfigs::default(), 0);
    let report = [128u8, 0, 0, 0, 0, 0, 0, 0];
    let unchanged = mapper.emulate_with_profiles(&report, 0, &profiles, &s("M1"));
    assert_eq!(unchanged.len(), 1);
    let mut configs = ButtonConfigs::default();
    configs.button_3 = [vec![s("q{+SHIFT}")], vec![]];
    profiles.insert(s("M1"), configs);
    let release = [0u8; 8];
    mapper.emulate_with_profiles(&release, 0, &profiles, &s("M1"));
    let actions = mapper.emulate_with_profiles(&report, 1, &profiles, &s("M1"));
    assert_eq!(actions.len(), 3);
    assert_eq!(mapper.last_mouses_config_state_id, 1);
}
