use vstd::prelude::*;
use crate::connection::command::{
    CommandTrait, Commands, DeviceConfig, DeviceList, DriverConfigurationDescriptor,
    RequestDeviceConfig, SpecCommands, SpecDeviceList, SpecRequestDeviceConfig,
    REQUEST_DEVICE_CONFIG_ID, decode_command, enc_device_config, enc_request,
};

verus! {

/// What the interface knows of a connected driver: its descriptor and the
/// mice it last reported.
pub struct Driver {
    pub driver_configuration_descriptor: DriverConfigurationDescriptor,
    pub device_list: DeviceList,
}

impl Driver {
    /// A driver that has not reported any mouse yet.
    pub fn new(driver_configuration_descriptor: DriverConfigurationDescriptor) -> (res: Self)
        ensures
            res.driver_configuration_descriptor == driver_configuration_descriptor,
            res.device_list@ == (SpecDeviceList { id: 0, serial_number_vec: Seq::empty() }),
    {
        Driver { driver_configuration_descriptor, device_list: DeviceList::default() }
    }
}

/// What the interface does with a message from a driver.
pub enum InterfaceUpdate {
    /// Record the driver, in place of any earlier record of it.
    Register(DriverConfigurationDescriptor),
    /// Replace the driver's device list, if the driver is recorded, and
    /// redraw.
    UpdateDeviceList(DeviceList),
    /// Show this profile in the configurator.
    SelectConfig(DeviceConfig),
    /// Forget the driver, whose connection ended, and redraw.
    Remove,
    /// Nothing to do.
    Ignore,
}

/// The interface can read a message from a driver: a non-empty message
/// holds a command.
pub open spec fn update_readable(is_running: bool, data: Seq<u8>) -> bool {
    is_running && data.len() > 0 ==> decode_command(data) is Some
}

/// The update for a message from a driver: when the connection ended the
/// driver is forgotten; an empty message is ignored; a descriptor records
/// the driver, a device list updates it, a profile is shown; any other
/// command is ignored.
pub open spec fn update_matches(is_running: bool, data: Seq<u8>, u: InterfaceUpdate) -> bool {
    if !is_running {
        u is Remove
    } else if data.len() == 0 {
        u is Ignore
    } else {
        match decode_command(data) {
            Some(SpecCommands::DriverConfigurationDescriptor(d)) => u matches InterfaceUpdate::Register(
                x,
            ) && x@ == d,
            Some(SpecCommands::DeviceList(l)) => u matches InterfaceUpdate::UpdateDeviceList(x)
                && x@ == l,
            Some(SpecCommands::DeviceConfig(c)) => u matches InterfaceUpdate::SelectConfig(x) && x@
                == c,
            Some(_) => u is Ignore,
            None => false,
        }
    }
}

fn update_for_command(cmd: Commands) -> (res: InterfaceUpdate)
    ensures
        match cmd@ {
            SpecCommands::DriverConfigurationDescriptor(d) => res matches InterfaceUpdate::Register(
                x,
            ) && x@ == d,
            SpecCommands::DeviceList(l) => res matches InterfaceUpdate::UpdateDeviceList(x) && x@
                == l,
            SpecCommands::DeviceConfig(c) => res matches InterfaceUpdate::SelectConfig(x) && x@
                == c,
            _ => res is Ignore,
        },
{
    match cmd {
        Commands::DriverConfigurationDescriptor(d) => InterfaceUpdate::Register(d),
        Commands::DeviceList(l) => InterfaceUpdate::UpdateDeviceList(l),
        Commands::DeviceConfig(c) => InterfaceUpdate::SelectConfig(c),
        _ => InterfaceUpdate::Ignore,
    }
}

/// What the interface does with a message from a driver (see
/// `update_matches`); a non-empty message must hold a command.
pub fn interface_update(is_running: bool, data: Vec<u8>) -> (res: InterfaceUpdate)
    requires
        update_readable(is_running, data@),
    ensures
        update_matches(is_running, data@, res),
{
    if !is_running {
        InterfaceUpdate::Remove
    } else if data.len() == 0 {
        InterfaceUpdate::Ignore
    } else {
        let ghost bytes = data@;
        match Commands::decode(data) {
            Some(cmd) => update_for_command(cmd),
            None => InterfaceUpdate::Ignore,
        }
    }
}

/// What the interface does with a message from a driver, or `None` when a
/// non-empty message holds no command.
pub fn try_interface_update(is_running: bool, data: Vec<u8>) -> (res: Option<InterfaceUpdate>)
    ensures
        res is Some <==> update_readable(is_running, data@),
        res matches Some(u) ==> update_matches(is_running, data@, u),
{
    if !is_running || data.len() == 0 {
        return Some(interface_update(is_running, data));
    }
    match Commands::decode(data) {
        Some(cmd) => Some(update_for_command(cmd)),
        None => None,
    }
}

/// The message that asks a driver for the profile of a mouse.
pub fn request_device_config_bytes(serial_number: String) -> (res: Vec<u8>)
    ensures
        res@ == enc_request(
            SpecRequestDeviceConfig { id: REQUEST_DEVICE_CONFIG_ID, serial_number: serial_number@ },
        ),
{
    let mut request = RequestDeviceConfig::new(serial_number);
    request.to_bytes()
}

/// The message that sends a driver the profile edited in the configurator.
pub fn apply_device_config_bytes(config: DeviceConfig) -> (res: Vec<u8>)
    ensures
        res@ == enc_device_config(config@),
{
    let mut config = config;
    config.to_bytes()
}

} // verus!
