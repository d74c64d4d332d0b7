use vstd::prelude::*;
use vstd::bytes::{spec_u16_to_le_bytes, spec_u64_to_le_bytes};
use vstd::std_specs::cmp::PartialEqSpecImpl;
use vstd::utf8::encode_utf8;
use crate::mmo7::buttons::{ButtonConfig, SpecButtonConfig};

verus! {

/// The first byte of each command: which command it is.
pub const DRIVER_CONFIGURATION_DESCRIPTOR_ID: u8 = 0;
pub const DEVICE_LIST_ID: u8 = 1;
pub const REQUEST_DEVICE_CONFIG_ID: u8 = 2;
pub const DEVICE_CONFIG_ID: u8 = 3;
pub const UNKNOWN_ID: u8 = 255;

/// What a driver tells the interface about the mice it handles.
pub struct DriverConfigurationDescriptor {
    pub id: u8,
    pub vid: u16,
    pub pid: u16,
    pub device_name: String,
    pub device_icon: Vec<u8>,
    pub mode_count: u8,
    pub shift_mode_count: u8,
    pub button_name_vec: Vec<String>,
}

pub struct SpecDriverConfigurationDescriptor {
    pub id: u8,
    pub vid: u16,
    pub pid: u16,
    pub device_name: Seq<char>,
    pub device_icon: Seq<u8>,
    pub mode_count: u8,
    pub shift_mode_count: u8,
    pub button_name_vec: Seq<Seq<char>>,
}

impl View for DriverConfigurationDescriptor {
    type V = SpecDriverConfigurationDescriptor;

    open spec fn view(&self) -> SpecDriverConfigurationDescriptor {
        SpecDriverConfigurationDescriptor {
            id: self.id,
            vid: self.vid,
            pid: self.pid,
            device_name: self.device_name@,
            device_icon: self.device_icon@,
            mode_count: self.mode_count,
            shift_mode_count: self.shift_mode_count,
            button_name_vec: self.button_name_vec.deep_view(),
        }
    }
}

/// The serial numbers of the mice connected to a driver.
pub struct DeviceList {
    pub id: u8,
    pub serial_number_vec: Vec<String>,
}

pub struct SpecDeviceList {
    pub id: u8,
    pub serial_number_vec: Seq<Seq<char>>,
}

impl View for DeviceList {
    type V = SpecDeviceList;

    open spec fn view(&self) -> SpecDeviceList {
        SpecDeviceList { id: self.id, serial_number_vec: self.serial_number_vec.deep_view() }
    }
}

/// The interface asks a driver for the profile of a mouse.
pub struct RequestDeviceConfig {
    pub id: u8,
    pub serial_number: String,
}

pub struct SpecRequestDeviceConfig {
    pub id: u8,
    pub serial_number: Seq<char>,
}

impl View for RequestDeviceConfig {
    type V = SpecRequestDeviceConfig;

    open spec fn view(&self) -> SpecRequestDeviceConfig {
        SpecRequestDeviceConfig { id: self.id, serial_number: self.serial_number@ }
    }
}

/// The profile of a mouse: the macros of each button.
pub struct DeviceConfig {
    pub id: u8,
    pub serial_number: String,
    pub config: Vec<ButtonConfig>,
}

pub struct SpecDeviceConfig {
    pub id: u8,
    pub serial_number: Seq<char>,
    pub config: Seq<SpecButtonConfig>,
}

impl View for DeviceConfig {
    type V = SpecDeviceConfig;

    open spec fn view(&self) -> SpecDeviceConfig {
        SpecDeviceConfig {
            id: self.id,
            serial_number: self.serial_number@,
            config: self.config.deep_view(),
        }
    }
}

// ----- the encoding: fields one after the other, integers in little
// endian, a text or a list preceded by its length on eight bytes -----

/// A text: its UTF-8 length on eight bytes, then its UTF-8 bytes.
pub open spec fn enc_str(s: Seq<char>) -> Seq<u8> {
    spec_u64_to_le_bytes(encode_utf8(s).len() as u64) + encode_utf8(s)
}

/// A list of bytes: its length on eight bytes, then the bytes.
pub open spec fn enc_bytes(b: Seq<u8>) -> Seq<u8> {
    spec_u64_to_le_bytes(b.len() as u64) + b
}

pub open spec fn concat_strs(v: Seq<Seq<char>>) -> Seq<u8>
    decreases v.len(),
{
    if v.len() == 0 {
        seq![]
    } else {
        concat_strs(v.drop_last()) + enc_str(v.last())
    }
}

/// A list of texts: its length on eight bytes, then each text.
pub open spec fn enc_strs(v: Seq<Seq<char>>) -> Seq<u8> {
    spec_u64_to_le_bytes(v.len() as u64) + concat_strs(v)
}

pub open spec fn concat_button_configs(v: Seq<SpecButtonConfig>) -> Seq<u8>
    decreases v.len(),
{
    if v.len() == 0 {
        seq![]
    } else {
        concat_button_configs(v.drop_last()) + enc_strs(v.last()[0]) + enc_strs(v.last()[1])
    }
}

/// A profile: its number of buttons on eight bytes, then for each button
/// its two lists of texts.
pub open spec fn enc_button_configs(v: Seq<SpecButtonConfig>) -> Seq<u8> {
    spec_u64_to_le_bytes(v.len() as u64) + concat_button_configs(v)
}

pub open spec fn enc_descriptor(d: SpecDriverConfigurationDescriptor) -> Seq<u8> {
    seq![d.id] + spec_u16_to_le_bytes(d.vid) + spec_u16_to_le_bytes(d.pid) + enc_str(d.device_name)
        + enc_bytes(d.device_icon) + seq![d.mode_count] + seq![d.shift_mode_count] + enc_strs(
        d.button_name_vec,
    )
}

pub open spec fn enc_device_list(d: SpecDeviceList) -> Seq<u8> {
    seq![d.id] + enc_strs(d.serial_number_vec)
}

pub open spec fn enc_request(d: SpecRequestDeviceConfig) -> Seq<u8> {
    seq![d.id] + enc_str(d.serial_number)
}

/// Each button of a profile has its two lists (normal and shift modes), as
/// every profile held in memory has.
pub open spec fn profile_shaped(c: Seq<SpecButtonConfig>) -> bool {
    forall|i: int| 0 <= i < c.len() ==> #[trigger] c[i].len() == 2
}

pub open spec fn enc_device_config(d: SpecDeviceConfig) -> Seq<u8> {
    seq![d.id] + enc_str(d.serial_number) + enc_button_configs(d.config)
}

/// What `bincode::deserialize` gives for bytes read as a descriptor.
pub uninterp spec fn decode_descriptor_bytes(data: Seq<u8>) -> Option<
    SpecDriverConfigurationDescriptor,
>;

/// What `bincode::deserialize` gives for bytes read as a device list.
pub uninterp spec fn decode_device_list_bytes(data: Seq<u8>) -> Option<SpecDeviceList>;

/// What `bincode::deserialize` gives for bytes read as a profile request.
pub uninterp spec fn decode_request_bytes(data: Seq<u8>) -> Option<SpecRequestDeviceConfig>;

/// What `bincode::deserialize` gives for bytes read as a profile.
pub uninterp spec fn decode_device_config_bytes(data: Seq<u8>) -> Option<SpecDeviceConfig>;

// ----- calls into bincode -----

/// `bincode::serialize` on the descriptor's fields, which bincode encodes
/// as the struct itself: the claim is the encoding that bincode documents
/// (fields in order, little endian integers, lengths on eight bytes).
/// Serializing into memory cannot fail for these types.
#[verifier::external_body]
fn serialize_descriptor(d: &DriverConfigurationDescriptor) -> (res: Vec<u8>)
    ensures
        res@ == enc_descriptor(d@),
{
    bincode::serialize(
        &(d.id, d.vid, d.pid, &d.device_name, &d.device_icon, d.mode_count, d.shift_mode_count,
        &d.button_name_vec),
    ).unwrap()
}

/// `bincode::deserialize` of a descriptor: the result is named; bytes that
/// begin with the encoding of a descriptor give back that descriptor (the
/// decoder ignores trailing bytes).
#[verifier::external_body]
fn deserialize_descriptor(data: &Vec<u8>) -> (res: Option<DriverConfigurationDescriptor>)
    ensures
        match res {
            Some(d) => decode_descriptor_bytes(data@) == Some(d@),
            None => decode_descriptor_bytes(data@) is None,
        },
        forall|v: SpecDriverConfigurationDescriptor| #[trigger]
            enc_descriptor(v).is_prefix_of(data@) ==> res is Some && res.unwrap()@ == v,
{
    let t: (u8, u16, u16, String, Vec<u8>, u8, u8, Vec<String>) = bincode::deserialize(data).ok()?;
    Some(DriverConfigurationDescriptor {
        id: t.0, vid: t.1, pid: t.2, device_name: t.3, device_icon: t.4, mode_count: t.5,
        shift_mode_count: t.6, button_name_vec: t.7,
    })
}

/// `bincode::serialize` on the device list's fields (see
/// `serialize_descriptor`).
#[verifier::external_body]
fn serialize_device_list(d: &DeviceList) -> (res: Vec<u8>)
    ensures
        res@ == enc_device_list(d@),
{
    bincode::serialize(&(d.id, &d.serial_number_vec)).unwrap()
}

/// `bincode::deserialize` of a device list (see `deserialize_descriptor`).
#[verifier::external_body]
fn deserialize_device_list(data: &Vec<u8>) -> (res: Option<DeviceList>)
    ensures
        match res {
            Some(d) => decode_device_list_bytes(data@) == Some(d@),
            None => decode_device_list_bytes(data@) is None,
        },
        forall|v: SpecDeviceList| #[trigger]
            enc_device_list(v).is_prefix_of(data@) ==> res is Some && res.unwrap()@ == v,
{
    let t: (u8, Vec<String>) = bincode::deserialize(data).ok()?;
    Some(DeviceList { id: t.0, serial_number_vec: t.1 })
}

/// `bincode::serialize` on the request's fields (see `serialize_descriptor`).
#[verifier::external_body]
fn serialize_request(d: &RequestDeviceConfig) -> (res: Vec<u8>)
    ensures
        res@ == enc_request(d@),
{
    bincode::serialize(&(d.id, &d.serial_number)).unwrap()
}

/// `bincode::deserialize` of a request (see `deserialize_descriptor`).
#[verifier::external_body]
fn deserialize_request(data: &Vec<u8>) -> (res: Option<RequestDeviceConfig>)
    ensures
        match res {
            Some(d) => decode_request_bytes(data@) == Some(d@),
            None => decode_request_bytes(data@) is None,
        },
        forall|v: SpecRequestDeviceConfig| #[trigger]
            enc_request(v).is_prefix_of(data@) ==> res is Some && res.unwrap()@ == v,
{
    let t: (u8, String) = bincode::deserialize(data).ok()?;
    Some(RequestDeviceConfig { id: t.0, serial_number: t.1 })
}

/// `bincode::serialize` on the profile's fields (see `serialize_descriptor`;
/// a button's pair of lists is encoded as the two lists in turn).
#[verifier::external_body]
fn serialize_device_config(d: &DeviceConfig) -> (res: Vec<u8>)
    ensures
        res@ == enc_device_config(d@),
{
    bincode::serialize(&(d.id, &d.serial_number, &d.config)).unwrap()
}

/// `bincode::deserialize` of a profile (see `deserialize_descriptor`); the
/// claim on bytes that begin with an encoding holds for profiles whose
/// buttons each have their two lists, the only ones bincode writes.
#[verifier::external_body]
fn deserialize_device_config(data: &Vec<u8>) -> (res: Option<DeviceConfig>)
    ensures
        match res {
            Some(d) => decode_device_config_bytes(data@) == Some(d@),
            None => decode_device_config_bytes(data@) is None,
        },
        forall|v: SpecDeviceConfig|
            profile_shaped(v.config) && #[trigger] enc_device_config(v).is_prefix_of(data@) ==> res
                is Some && res.unwrap()@ == v,
{
    let t: (u8, String, Vec<ButtonConfig>) = bincode::deserialize(data).ok()?;
    Some(DeviceConfig { id: t.0, serial_number: t.1, config: t.2 })
}

// ----- the commands -----

/// A command that can be sent as bytes and read back from them.
pub trait CommandTrait: Sized {
    /// Whether the bytes can be read as this command.
    spec fn decodable(data: Seq<u8>) -> bool;

    fn to_bytes(&mut self) -> Vec<u8>;

    /// Reads the command from bytes that hold one.
    fn from_bytes(data: Vec<u8>) -> Self
        requires
            Self::decodable(data@),
    ;
}

impl DriverConfigurationDescriptor {
    pub fn new(
        vid: u16,
        pid: u16,
        device_name: String,
        device_icon: Vec<u8>,
        mode_count: u8,
        shift_mode_count: u8,
        button_name_vec: Vec<String>,
    ) -> (res: Self)
        ensures
            res.id == DRIVER_CONFIGURATION_DESCRIPTOR_ID,
            res.vid == vid,
            res.pid == pid,
            res.device_name == device_name,
            res.device_icon == device_icon,
            res.mode_count == mode_count,
            res.shift_mode_count == shift_mode_count,
            res.button_name_vec == button_name_vec,
    {
        Self {
            id: DRIVER_CONFIGURATION_DESCRIPTOR_ID,
            vid,
            pid,
            device_name,
            device_icon,
            mode_count,
            shift_mode_count,
            button_name_vec,
        }
    }

    /// Reads a descriptor from bytes; `None` when they do not hold one.
    pub fn decode(data: Vec<u8>) -> (res: Option<Self>)
        ensures
            match res {
                Some(d) => decode_descriptor_bytes(data@) == Some(d@),
                None => decode_descriptor_bytes(data@) is None,
            },
            forall|v: SpecDriverConfigurationDescriptor| #[trigger]
                enc_descriptor(v).is_prefix_of(data@) ==> res is Some && res.unwrap()@ == v,
    {
        deserialize_descriptor(&data)
    }
}

impl CommandTrait for DriverConfigurationDescriptor {
    open spec fn decodable(data: Seq<u8>) -> bool {
        decode_descriptor_bytes(data) is Some
    }

    fn to_bytes(&mut self) -> (res: Vec<u8>)
        ensures
            res@ == enc_descriptor(old(self)@),
            *final(self) == *old(self),
    {
        serialize_descriptor(self)
    }

    fn from_bytes(data: Vec<u8>) -> (res: Self)
        ensures
            decode_descriptor_bytes(data@) == Some(res@),
    {
        match deserialize_descriptor(&data) {
            Some(d) => d,
            None => Self::new(0, 0, String::new(), Vec::new(), 0, 0, Vec::new()),
        }
    }
}

impl DeviceList {
    pub fn new(serial_number_vec: Vec<String>) -> (res: Self)
        ensures
            res.id == DEVICE_LIST_ID,
            res.serial_number_vec == serial_number_vec,
    {
        Self { id: DEVICE_LIST_ID, serial_number_vec }
    }

    /// Reads a device list from bytes; `None` when they do not hold one.
    pub fn decode(data: Vec<u8>) -> (res: Option<Self>)
        ensures
            match res {
                Some(d) => decode_device_list_bytes(data@) == Some(d@),
                None => decode_device_list_bytes(data@) is None,
            },
            forall|v: SpecDeviceList| #[trigger]
                enc_device_list(v).is_prefix_of(data@) ==> res is Some && res.unwrap()@ == v,
    {
        deserialize_device_list(&data)
    }
}

impl CommandTrait for DeviceList {
    open spec fn decodable(data: Seq<u8>) -> bool {
        decode_device_list_bytes(data) is Some
    }

    fn to_bytes(&mut self) -> (res: Vec<u8>)
        ensures
            res@ == enc_device_list(old(self)@),
            *final(self) == *old(self),
    {
        serialize_device_list(self)
    }

    fn from_bytes(data: Vec<u8>) -> (res: Self)
        ensures
            decode_device_list_bytes(data@) == Some(res@),
    {
        match deserialize_device_list(&data) {
            Some(d) => d,
            None => Self::new(Vec::new()),
        }
    }
}

impl RequestDeviceConfig {
    pub fn new(serial_number: String) -> (res: Self)
        ensures
            res.id == REQUEST_DEVICE_CONFIG_ID,
            res.serial_number == serial_number,
    {
        Self { id: REQUEST_DEVICE_CONFIG_ID, serial_number }
    }

    /// Reads a request from bytes; `None` when they do not hold one.
    pub fn decode(data: Vec<u8>) -> (res: Option<Self>)
        ensures
            match res {
                Some(d) => decode_request_bytes(data@) == Some(d@),
                None => decode_request_bytes(data@) is None,
            },
            forall|v: SpecRequestDeviceConfig| #[trigger]
                enc_request(v).is_prefix_of(data@) ==> res is Some && res.unwrap()@ == v,
    {
        deserialize_request(&data)
    }
}

impl CommandTrait for RequestDeviceConfig {
    open spec fn decodable(data: Seq<u8>) -> bool {
        decode_request_bytes(data) is Some
    }

    fn to_bytes(&mut self) -> (res: Vec<u8>)
        ensures
            res@ == enc_request(old(self)@),
            *final(self) == *old(self),
    {
        serialize_request(self)
    }

    fn from_bytes(data: Vec<u8>) -> (res: Self)
        ensures
            decode_request_bytes(data@) == Some(res@),
    {
        match deserialize_request(&data) {
            Some(d) => d,
            None => Self::new(String::new()),
        }
    }
}

impl DeviceConfig {
    pub fn new(serial_number: String, config: Vec<ButtonConfig>) -> (res: Self)
        ensures
            res.id == DEVICE_CONFIG_ID,
            res.serial_number == serial_number,
            res.config == config,
    {
        Self { id: DEVICE_CONFIG_ID, serial_number, config }
    }

    /// Reads a profile from bytes; `None` when they do not hold one.
    pub fn decode(data: Vec<u8>) -> (res: Option<Self>)
        ensures
            match res {
                Some(d) => decode_device_config_bytes(data@) == Some(d@),
                None => decode_device_config_bytes(data@) is None,
            },
            forall|v: SpecDeviceConfig|
                profile_shaped(v.config) && #[trigger] enc_device_config(v).is_prefix_of(data@)
                    ==> res is Some && res.unwrap()@ == v,
    {
        deserialize_device_config(&data)
    }
}

impl CommandTrait for DeviceConfig {
    open spec fn decodable(data: Seq<u8>) -> bool {
        decode_device_config_bytes(data) is Some
    }

    fn to_bytes(&mut self) -> (res: Vec<u8>)
        ensures
            res@ == enc_device_config(old(self)@),
            *final(self) == *old(self),
    {
        serialize_device_config(self)
    }

    fn from_bytes(data: Vec<u8>) -> (res: Self)
        ensures
            decode_device_config_bytes(data@) == Some(res@),
    {
        match deserialize_device_config(&data) {
            Some(d) => d,
            None => Self::new(String::new(), Vec::new()),
        }
    }
}

impl Default for DriverConfigurationDescriptor {
    /// A descriptor whose fields are all zero or empty.
    fn default() -> (res: Self)
        ensures
            res@ == (SpecDriverConfigurationDescriptor {
                id: 0,
                vid: 0,
                pid: 0,
                device_name: Seq::empty(),
                device_icon: Seq::empty(),
                mode_count: 0,
                shift_mode_count: 0,
                button_name_vec: Seq::empty(),
            }),
    {
        let res = DriverConfigurationDescriptor {
            id: 0,
            vid: 0,
            pid: 0,
            device_name: String::new(),
            device_icon: Vec::new(),
            mode_count: 0,
            shift_mode_count: 0,
            button_name_vec: Vec::new(),
        };
        assert(res.button_name_vec.deep_view() =~= Seq::<Seq<char>>::empty());
        res
    }
}

impl Default for DeviceList {
    /// An empty list whose identifier is zero.
    fn default() -> (res: Self)
        ensures
            res@ == (SpecDeviceList { id: 0, serial_number_vec: Seq::empty() }),
    {
        let res = DeviceList { id: 0, serial_number_vec: Vec::new() };
        assert(res.serial_number_vec.deep_view() =~= Seq::<Seq<char>>::empty());
        res
    }
}

impl Default for RequestDeviceConfig {
    /// A request for the empty serial number, whose identifier is zero.
    fn default() -> (res: Self)
        ensures
            res@ == (SpecRequestDeviceConfig { id: 0, serial_number: Seq::empty() }),
    {
        RequestDeviceConfig { id: 0, serial_number: String::new() }
    }
}

impl Default for DeviceConfig {
    /// An empty profile for the empty serial number, whose identifier is
    /// zero.
    fn default() -> (res: Self)
        ensures
            res@ == (SpecDeviceConfig { id: 0, serial_number: Seq::empty(), config: Seq::empty() }),
    {
        let res = DeviceConfig { id: 0, serial_number: String::new(), config: Vec::new() };
        assert(res.config.deep_view() =~= Seq::<SpecButtonConfig>::empty());
        res
    }
}

/// A message between the driver and the interface.
pub enum Commands {
    DriverConfigurationDescriptor(DriverConfigurationDescriptor),
    DeviceList(DeviceList),
    RequestDeviceConfig(RequestDeviceConfig),
    DeviceConfig(DeviceConfig),
    Unknown,
}

pub enum SpecCommands {
    DriverConfigurationDescriptor(SpecDriverConfigurationDescriptor),
    DeviceList(SpecDeviceList),
    RequestDeviceConfig(SpecRequestDeviceConfig),
    DeviceConfig(SpecDeviceConfig),
    Unknown,
}

impl View for Commands {
    type V = SpecCommands;

    open spec fn view(&self) -> SpecCommands {
        match self {
            Commands::DriverConfigurationDescriptor(d) => SpecCommands::DriverConfigurationDescriptor(
                d@,
            ),
            Commands::DeviceList(d) => SpecCommands::DeviceList(d@),
            Commands::RequestDeviceConfig(d) => SpecCommands::RequestDeviceConfig(d@),
            Commands::DeviceConfig(d) => SpecCommands::DeviceConfig(d@),
            Commands::Unknown => SpecCommands::Unknown,
        }
    }
}

/// The identifier of a command's kind.
pub open spec fn command_id(c: SpecCommands) -> u8 {
    match c {
        SpecCommands::DriverConfigurationDescriptor(_) => DRIVER_CONFIGURATION_DESCRIPTOR_ID,
        SpecCommands::DeviceList(_) => DEVICE_LIST_ID,
        SpecCommands::RequestDeviceConfig(_) => REQUEST_DEVICE_CONFIG_ID,
        SpecCommands::DeviceConfig(_) => DEVICE_CONFIG_ID,
        SpecCommands::Unknown => UNKNOWN_ID,
    }
}

/// The command that bytes hold, read according to their first byte; an
/// unknown first byte gives `Unknown`. `None` when the bytes are empty or
/// do not hold the command that their first byte announces.
pub open spec fn decode_command(value: Seq<u8>) -> Option<SpecCommands> {
    if value.len() == 0 {
        None
    } else if value[0] == DRIVER_CONFIGURATION_DESCRIPTOR_ID {
        match decode_descriptor_bytes(value) {
            Some(d) => Some(SpecCommands::DriverConfigurationDescriptor(d)),
            None => None,
        }
    } else if value[0] == DEVICE_LIST_ID {
        match decode_device_list_bytes(value) {
            Some(d) => Some(SpecCommands::DeviceList(d)),
            None => None,
        }
    } else if value[0] == REQUEST_DEVICE_CONFIG_ID {
        match decode_request_bytes(value) {
            Some(d) => Some(SpecCommands::RequestDeviceConfig(d)),
            None => None,
        }
    } else if value[0] == DEVICE_CONFIG_ID {
        match decode_device_config_bytes(value) {
            Some(d) => Some(SpecCommands::DeviceConfig(d)),
            None => None,
        }
    } else {
        Some(SpecCommands::Unknown)
    }
}

impl Commands {
    /// The identifier of the command's kind.
    pub fn id(&self) -> (res: u8)
        ensures
            res == command_id(self@),
    {
        match self {
            Self::DriverConfigurationDescriptor(_) => DRIVER_CONFIGURATION_DESCRIPTOR_ID,
            Self::DeviceList(_) => DEVICE_LIST_ID,
            Self::RequestDeviceConfig(_) => REQUEST_DEVICE_CONFIG_ID,
            Self::DeviceConfig(_) => DEVICE_CONFIG_ID,
            Self::Unknown => UNKNOWN_ID,
        }
    }

    /// The identifier of the command's kind.
    pub fn into(self) -> (res: u8)
        ensures
            res == command_id(self@),
    {
        self.id()
    }

    /// Whether bytes announce a command of this kind (their first byte).
    pub fn test(self, value: &Vec<u8>) -> (res: bool)
        requires
            value@.len() > 0,
        ensures
            res == (command_id(self@) == value@[0]),
    {
        self.into() == value[0]
    }

    /// Reads the command that bytes hold (see `decode_command`), or `None`.
    pub fn decode(value: Vec<u8>) -> (res: Option<Commands>)
        ensures
            match res {
                Some(c) => decode_command(value@) == Some(c@),
                None => decode_command(value@) is None,
            },
    {
        if value.len() == 0 {
            None
        } else if value[0] == DRIVER_CONFIGURATION_DESCRIPTOR_ID {
            match DriverConfigurationDescriptor::decode(value) {
                Some(d) => Some(Self::DriverConfigurationDescriptor(d)),
                None => None,
            }
        } else if value[0] == DEVICE_LIST_ID {
            match DeviceList::decode(value) {
                Some(d) => Some(Self::DeviceList(d)),
                None => None,
            }
        } else if value[0] == REQUEST_DEVICE_CONFIG_ID {
            match RequestDeviceConfig::decode(value) {
                Some(d) => Some(Self::RequestDeviceConfig(d)),
                None => None,
            }
        } else if value[0] == DEVICE_CONFIG_ID {
            match DeviceConfig::decode(value) {
                Some(d) => Some(Self::DeviceConfig(d)),
                None => None,
            }
        } else {
            Some(Self::Unknown)
        }
    }

    /// Reads the command that bytes hold; the bytes must hold the command
    /// that their first byte announces.
    pub fn from(value: Vec<u8>) -> (res: Commands)
        requires
            decode_command(value@) is Some,
        ensures
            decode_command(value@) == Some(res@),
    {
        match Self::decode(value) {
            Some(c) => c,
            None => Self::Unknown,
        }
    }
}

impl PartialEq<u8> for Commands {
    fn eq(&self, other: &u8) -> (res: bool) {
        self.id() == *other
    }
}

impl PartialEqSpecImpl<u8> for Commands {
    open spec fn obeys_eq_spec() -> bool {
        true
    }

    open spec fn eq_spec(&self, other: &u8) -> bool {
        command_id(self@) == *other
    }
}

/// A command equals bytes that announce its kind (their first byte); it
/// equals no empty bytes.
impl PartialEq<Vec<u8>> for Commands {
    fn eq(&self, other: &Vec<u8>) -> (res: bool) {
        other.len() > 0 && self.id() == other[0]
    }
}

impl PartialEqSpecImpl<Vec<u8>> for Commands {
    open spec fn obeys_eq_spec() -> bool {
        true
    }

    open spec fn eq_spec(&self, other: &Vec<u8>) -> bool {
        other@.len() > 0 && command_id(self@) == other@[0]
    }
}

} // verus!
