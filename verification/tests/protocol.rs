use mad_rust::connection::command::{
    CommandTrait, Commands, DeviceConfig, DeviceList, DriverConfigurationDescriptor,
    RequestDeviceConfig, DEVICE_CONFIG_ID, DEVICE_LIST_ID, DRIVER_CONFIGURATION_DESCRIPTOR_ID,
    REQUEST_DEVICE_CONFIG_ID, UNKNOWN_ID,
};
use mad_rust::connection::frame::{
    classify_size, encode_message, end_packet, header_bytes, life_packet, size_from_header, Frame,
    MAX_MESSAGE_SIZE,
};
use mad_rust::connection::interface::{
    apply_device_config_bytes, interface_update, request_device_config_bytes,
    try_interface_update, Driver, InterfaceUpdate,
};
use mad_rust::mmo7::buttons::ButtonConfigs;

#[test]
fn request_is_encoded_field_by_field() {
    let mut request = RequestDeviceConfig::new("AB".to_string());
    assert_eq!(request.id, REQUEST_DEVICE_CONFIG_ID);
    assert_eq!(request.to_bytes(), vec![2, 2, 0, 0, 0, 0, 0, 0, 0, b'A', b'B']);
}

#[test]
fn device_list_round_trip() {
    let mut list = DeviceList::new(vec!["one".to_string(), "two".to_string()]);
    let bytes = list.to_bytes();
    assert_eq!(bytes[0], DEVICE_LIST_ID);
    let back = DeviceList::from_bytes(bytes.clone());
    assert_eq!(back.serial_number_vec, vec!["one".to_string(), "two".to_string()]);
    match Commands::decode(bytes) {
        Some(Commands::DeviceList(l)) => assert_eq!(l.serial_number_vec.len(), 2),
        _ => panic!("not a device list"),
    }
}

#[test]
fn descriptor_round_trip() {
    let mut d = DriverConfigurationDescriptor::new(
        0x0738,
        0x1713,
        "MMO7".to_string(),
        vec![1, 2, 3],
        3,
        3,
        vec!["Hat Top".to_string()],
    );
    assert_eq!(d.id, DRIVER_CONFIGURATION_DESCRIPTOR_ID);
    let bytes = d.to_bytes();
    // id, vid and pid in little endian
    assert_eq!(&bytes[0..5], &[0, 0x38, 0x07, 0x13, 0x17]);
    let back = DriverConfigurationDescriptor::from_bytes(bytes);
    assert_eq!(back.vid, 0x0738);
    assert_eq!(back.pid, 0x1713);
    assert_eq!(back.device_name, "MMO7");
    assert_eq!(back.device_icon, vec![1, 2, 3]);
    assert_eq!(back.mode_count, 3);
    assert_eq!(back.shift_mode_count, 3);
    assert_eq!(back.button_name_vec, vec!["Hat Top".to_string()]);
}

#[test]
fn device_config_round_trip() {
    let mut configs = ButtonConfigs::default();
    configs.hat_top = [vec!["x".to_string()], vec!["y".to_string(), "z".to_string()]];
    let mut config = DeviceConfig::new("S1".to_string(), configs.to_config());
    assert_eq!(config.id, DEVICE_CONFIG_ID);
    let bytes = config.to_bytes();
    let back = DeviceConfig::decode(bytes).expect("a profile");
    assert_eq!(back.serial_number, "S1");
    assert_eq!(back.config.len(), 15);
    assert_eq!(back.config[7][1], vec!["y".to_string(), "z".to_string()]);
}

#[test]
fn command_ids_and_tests() {
    assert_eq!(Commands::Unknown.id(), UNKNOWN_ID);
    let request = Commands::RequestDeviceConfig(RequestDeviceConfig::new("x".to_string()));
    assert!(request == REQUEST_DEVICE_CONFIG_ID);
    assert!(Commands::Unknown.test(&vec![255, 1]));
    assert!(!Commands::Unknown.test(&vec![2]));
    assert_eq!(Commands::DeviceList(DeviceList::new(vec![])).into(), DEVICE_LIST_ID);
}

#[test]
fn decode_rejects_garbage_and_empty() {
    assert!(Commands::decode(vec![]).is_none());
    assert!(Commands::decode(vec![3, 1]).is_none());
    assert!(matches!(Commands::decode(vec![9, 9, 9]), Some(Commands::Unknown)));
}

#[test]
fn headers_are_big_endian() {
    assert_eq!(header_bytes(5), [0, 0, 0, 0, 0, 0, 0, 5]);
    assert_eq!(header_bytes(0x0102), [0, 0, 0, 0, 0, 0, 1, 2]);
    assert_eq!(size_from_header(&header_bytes(123456789)), 123456789);
    assert_eq!(end_packet(), [0; 8]);
    assert_eq!(life_packet(), [255; 8]);
}

#[test]
fn sizes_announce_frames() {
    assert_eq!(classify_size(0), Frame::End);
    assert_eq!(classify_size(10), Frame::Message(10));
    assert_eq!(classify_size(MAX_MESSAGE_SIZE - 1), Frame::Message(MAX_MESSAGE_SIZE - 1));
    assert_eq!(classify_size(MAX_MESSAGE_SIZE), Frame::LifePacket);
    assert_eq!(classify_size(u64::MAX), Frame::LifePacket);
    assert_eq!(classify_size(size_from_header(&life_packet())), Frame::LifePacket);
}

#[test]
fn message_is_size_then_data() {
    assert_eq!(encode_message(&vec![7, 8]), vec![0, 0, 0, 0, 0, 0, 0, 2, 7, 8]);
}

#[test]
fn interface_updates() {
    assert!(matches!(interface_update(false, vec![1, 2]), InterfaceUpdate::Remove));
    assert!(matches!(interface_update(true, vec![]), InterfaceUpdate::Ignore));
    let mut list = DeviceList::new(vec!["m".to_string()]);
    match interface_update(true, list.to_bytes()) {
        InterfaceUpdate::UpdateDeviceList(l) => assert_eq!(l.serial_number_vec, vec!["m".to_string()]),
        _ => panic!("expected a device list"),
    }
    let bytes = request_device_config_bytes("m".to_string());
    assert!(matches!(interface_update(true, bytes), InterfaceUpdate::Ignore));
    assert!(try_interface_update(true, vec![0, 1]).is_none());
    assert!(matches!(try_interface_update(true, vec![200]), Some(InterfaceUpdate::Ignore)));
}

#[test]
fn new_driver_has_empty_list() {
    let d = DriverConfigurationDescriptor::default();
    let driver = Driver::new(d);
    assert_eq!(driver.device_list.id, 0);
    assert!(driver.device_list.serial_number_vec.is_empty());
}

#[test]
fn apply_sends_the_profile() {
    let config = DeviceConfig::new("Q".to_string(), ButtonConfigs::default().to_config());
    let bytes = apply_device_config_bytes(config);
    match InterfaceUpdate::SelectConfig(DeviceConfig::decode(bytes).unwrap()) {
        InterfaceUpdate::SelectConfig(c) => assert_eq!(c.serial_number, "Q"),
        _ => unreachable!(),
    }
}

#[test]
fn command_equals_bytes_announcing_its_kind() {
    let request = Commands::RequestDeviceConfig(RequestDeviceConfig::new("x".to_string()));
    assert!(request == vec![REQUEST_DEVICE_CONFIG_ID, 9]);
    assert!(!(request == vec![DEVICE_LIST_ID]));
    assert!(!(Commands::Unknown == Vec::<u8>::new()));
    assert!(Commands::Unknown == vec![UNKNOWN_ID]);
}
