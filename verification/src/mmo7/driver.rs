use vstd::prelude::*;
use crate::connection::command::{
    CommandTrait, Commands, DeviceConfig, DeviceList, DriverConfigurationDescriptor,
    SpecCommands, SpecDeviceConfig, SpecDeviceList, SpecDriverConfigurationDescriptor,
    SpecRequestDeviceConfig,
    DEVICE_CONFIG_ID, DEVICE_LIST_ID, DRIVER_CONFIGURATION_DESCRIPTOR_ID, decode_command,
    enc_descriptor, enc_device_config, enc_device_list,
};
use crate::mmo7::buttons::{BUTTON_COUNT, ButtonConfigs, SpecButtonConfig, empty_profile};
use crate::mmo7::devices::ConnectedDevices;
use crate::mmo7::mapper::{
    Action, ButtonConfigsToken, Mapper, actions_view, basic_actions, config_token_spec,
    decode_buttons, is_unmapped, mapped_actions, mode_of, next_click_state, profile_tokenizable,
    state_token_in,
};
use crate::mmo7::profiles::ProfileStore;

verus! {

/// The USB vendor identifier of the MMO7 mouse.
pub const VID: u16 = 0x0738;

/// The USB product identifier of the MMO7 mouse.
pub const PID: u16 = 0x1713;

/// Whether a USB device is an MMO7 mouse.
pub fn is_mmo7(vendor_id: u16, product_id: u16) -> (res: bool)
    ensures
        res == (vendor_id == VID && product_id == PID),
{
    vendor_id == VID && product_id == PID
}

/// A report read from the mouse with the motion bytes (3 and 5) set to
/// zero, which is replayed when the read times out so that held buttons
/// repeat without moving the pointer.
pub fn reset_motion(buffer: [u8; 8]) -> (res: [u8; 8])
    ensures
        res@ == buffer@.update(3, 0).update(5, 0),
{
    let res: [u8; 8] = [buffer[0], buffer[1], buffer[2], 0, buffer[4], 0, buffer[6], buffer[7]];
    assert(res@ =~= buffer@.update(3, 0).update(5, 0));
    res
}

/// The names of the buttons that the driver announces, in the order of the
/// profile's entries as the interface shows them.
pub open spec fn mmo7_button_names() -> Seq<Seq<char>> {
    seq![
        "Scroll Button"@,
        "Left ActionLock"@,
        "Right ActionLock"@,
        "Forwards Button"@,
        "Back Button"@,
        "Thumb Anticlockwise"@,
        "Thumb Clockwise"@,
        "Hat Top"@,
        "Hat Left"@,
        "Hat Right"@,
        "Hat Bottom"@,
        "Button 1"@,
        "Button 2"@,
        "Precision Aim"@,
        "Button 3"@,
    ]
}

/// What the driver tells the interface about itself: the MMO7, with three
/// normal and three shift modes, its icon and the names of its buttons.
pub open spec fn mmo7_descriptor_spec(icon: Seq<u8>) -> SpecDriverConfigurationDescriptor {
    SpecDriverConfigurationDescriptor {
        id: DRIVER_CONFIGURATION_DESCRIPTOR_ID,
        vid: VID,
        pid: PID,
        device_name: "MMO7"@,
        device_icon: icon,
        mode_count: 3,
        shift_mode_count: 3,
        button_name_vec: mmo7_button_names(),
    }
}

/// The descriptor that the driver sends when it connects.
pub fn mmo7_descriptor(icon: Vec<u8>) -> (res: DriverConfigurationDescriptor)
    ensures
        res@ == mmo7_descriptor_spec(icon@),
{
    let names: Vec<String> = vec![
        "Scroll Button".to_owned(),
        "Left ActionLock".to_owned(),
        "Right ActionLock".to_owned(),
        "Forwards Button".to_owned(),
        "Back Button".to_owned(),
        "Thumb Anticlockwise".to_owned(),
        "Thumb Clockwise".to_owned(),
        "Hat Top".to_owned(),
        "Hat Left".to_owned(),
        "Hat Right".to_owned(),
        "Hat Bottom".to_owned(),
        "Button 1".to_owned(),
        "Button 2".to_owned(),
        "Precision Aim".to_owned(),
        "Button 3".to_owned(),
    ];
    assert(names.deep_view() =~= mmo7_button_names());
    DriverConfigurationDescriptor::new(VID, PID, "MMO7".to_owned(), icon, 3, 3, names)
}

/// The bytes hold a device list naming exactly the given mice, each once,
/// in some order.
pub open spec fn device_list_message(devices: Set<Seq<char>>, bytes: Seq<u8>) -> bool {
    exists|l: Seq<Seq<char>>|
        #![trigger enc_device_list(SpecDeviceList { id: DEVICE_LIST_ID, serial_number_vec: l })]
        l.no_duplicates() && l.to_set() == devices && bytes == enc_device_list(
            SpecDeviceList { id: DEVICE_LIST_ID, serial_number_vec: l },
        )
}

/// The device list message for the mice being handled.
pub fn device_list_bytes(devices: &ConnectedDevices) -> (res: Vec<u8>)
    requires
    ensures
        device_list_message(devices.view(), res@),
{
    let serials = devices.serial_numbers();
    let ghost l = serials.deep_view();
    let mut list = DeviceList::new(serials);
    let res = list.to_bytes();
    assert(list@ == SpecDeviceList { id: DEVICE_LIST_ID, serial_number_vec: l });
    res
}

/// The profile after the interface stored one: its first fifteen entries.
pub open spec fn stored_profile(config: Seq<SpecButtonConfig>) -> Seq<SpecButtonConfig> {
    config.subrange(0, BUTTON_COUNT as int)
}

/// The profiles' version after a change; it wraps around.
pub open spec fn next_state_id(id: u32) -> u32 {
    if id == u32::MAX {
        0
    } else {
        (id + 1) as u32
    }
}

/// The driver can handle a command: a profile it receives has an entry for
/// each button.
pub open spec fn command_handled(c: SpecCommands) -> bool {
    match c {
        SpecCommands::DeviceConfig(dc) => dc.config.len() >= BUTTON_COUNT,
        _ => true,
    }
}

/// The driver can handle a message from the interface: a non-empty message
/// holds a command that it can handle.
pub open spec fn message_handled(is_running: bool, data: Seq<u8>) -> bool {
    is_running && data.len() > 0 ==> match decode_command(data) {
        Some(c) => command_handled(c),
        None => false,
    }
}

/// What the driver does on a command: it answers a profile request with
/// the profile when it has one, stores a profile it receives (and moves the
/// profiles' version on), and ignores the rest.
pub open spec fn command_answered(
    c: SpecCommands,
    before: Map<Seq<char>, Seq<SpecButtonConfig>>,
    after: Map<Seq<char>, Seq<SpecButtonConfig>>,
    id_before: u32,
    id_after: u32,
    replies: Seq<Seq<u8>>,
) -> bool {
    match c {
        SpecCommands::RequestDeviceConfig(r) => {
            &&& after == before
            &&& id_after == id_before
            &&& replies == if before.dom().contains(r.serial_number) {
                seq![
                    enc_device_config(
                        SpecDeviceConfig {
                            id: DEVICE_CONFIG_ID,
                            serial_number: r.serial_number,
                            config: before[r.serial_number],
                        },
                    ),
                ]
            } else {
                Seq::empty()
            }
        },
        SpecCommands::DeviceConfig(dc) => {
            &&& after == before.insert(dc.serial_number, stored_profile(dc.config))
            &&& id_after == next_state_id(id_before)
            &&& replies == Seq::<Seq<u8>>::empty()
        },
        _ => {
            &&& after == before
            &&& id_after == id_before
            &&& replies == Seq::<Seq<u8>>::empty()
        },
    }
}

/// What the driver does on a message from the interface: nothing when the
/// connection ended; on the empty message that opens a connection it sends
/// its descriptor and then its device list; otherwise it handles the
/// command that the message holds.
pub open spec fn message_answered(
    is_running: bool,
    data: Seq<u8>,
    descriptor: SpecDriverConfigurationDescriptor,
    devices: Set<Seq<char>>,
    before: Map<Seq<char>, Seq<SpecButtonConfig>>,
    after: Map<Seq<char>, Seq<SpecButtonConfig>>,
    id_before: u32,
    id_after: u32,
    replies: Seq<Seq<u8>>,
) -> bool {
    if !is_running {
        &&& after == before
        &&& id_after == id_before
        &&& replies == Seq::<Seq<u8>>::empty()
    } else if data.len() == 0 {
        &&& after == before
        &&& id_after == id_before
        &&& replies.len() == 2
        &&& replies[0] == enc_descriptor(descriptor)
        &&& device_list_message(devices, replies[1])
    } else {
        match decode_command(data) {
            Some(c) => command_answered(c, before, after, id_before, id_after, replies),
            None => false,
        }
    }
}

/// Law: once the interface has sent the profile of a mouse, a request
/// for that mouse's profile is answered with the stored profile (the first
/// fifteen entries of the one sent).
pub proof fn lemma_store_then_request(
    dc: SpecDeviceConfig,
    r: SpecRequestDeviceConfig,
    before: Map<Seq<char>, Seq<SpecButtonConfig>>,
    mid: Map<Seq<char>, Seq<SpecButtonConfig>>,
    after: Map<Seq<char>, Seq<SpecButtonConfig>>,
    ids: (u32, u32, u32),
    first_replies: Seq<Seq<u8>>,
    replies: Seq<Seq<u8>>,
)
    requires
        r.serial_number == dc.serial_number,
        command_answered(SpecCommands::DeviceConfig(dc), before, mid, ids.0, ids.1, first_replies),
        command_answered(SpecCommands::RequestDeviceConfig(r), mid, after, ids.1, ids.2, replies),
    ensures
        first_replies.len() == 0,
        after == mid,
        replies == seq![
            enc_device_config(
                SpecDeviceConfig {
                    id: DEVICE_CONFIG_ID,
                    serial_number: dc.serial_number,
                    config: stored_profile(dc.config),
                },
            ),
        ],
{
}

/// Law: a stored profile always moves the profiles' version on (so that
/// every mapper of the mouse reloads it), and the mouse then has that
/// profile.
pub proof fn lemma_store_moves_version(
    dc: SpecDeviceConfig,
    before: Map<Seq<char>, Seq<SpecButtonConfig>>,
    after: Map<Seq<char>, Seq<SpecButtonConfig>>,
    id_before: u32,
    id_after: u32,
    replies: Seq<Seq<u8>>,
)
    requires
        command_answered(SpecCommands::DeviceConfig(dc), before, after, id_before, id_after, replies),
    ensures
        id_after != id_before,
        after.dom().contains(dc.serial_number),
        after[dc.serial_number] == stored_profile(dc.config),
{
}

/// Law: the driver keeps every mouse it handles with a profile: finding a
/// mouse gives it one when it has none, losing a mouse only shrinks the
/// handled set, and messages only add or replace profiles.
pub proof fn lemma_handled_stay_covered(
    devices: Set<Seq<char>>,
    fewer_devices: Set<Seq<char>>,
    profiles: Map<Seq<char>, Seq<SpecButtonConfig>>,
    more_profiles: Map<Seq<char>, Seq<SpecButtonConfig>>,
)
    requires
        handled_have_profiles(devices, profiles),
        fewer_devices.subset_of(devices),
        profiles.dom().subset_of(more_profiles.dom()),
    ensures
        handled_have_profiles(fewer_devices, more_profiles),
{
}

fn answer_command(cmd: Commands, profiles: &mut ProfileStore, state_id: &mut u32) -> (res: Vec<
    Vec<u8>,
>)
    requires
        old(profiles).wf(),
        command_handled(cmd@),
    ensures
        final(profiles).wf(),
        old(profiles).view().dom().subset_of(final(profiles).view().dom()),
        command_answered(
            cmd@,
            old(profiles).view(),
            final(profiles).view(),
            *old(state_id),
            *final(state_id),
            res.deep_view(),
        ),
{
    let mut replies: Vec<Vec<u8>> = Vec::new();
    match cmd {
        Commands::RequestDeviceConfig(r) => {
            match profiles.get(&r.serial_number) {
                Some(c) => {
                    let mut dc = DeviceConfig::new(r.serial_number, c.to_config());
                    let bytes = dc.to_bytes();
                    replies.push(bytes);
                    assert(bytes.deep_view() =~= bytes@);
                    assert(replies.deep_view() =~= seq![bytes@]);
                },
                None => {
                    assert(replies.deep_view() =~= Seq::<Seq<u8>>::empty());
                },
            }
        },
        Commands::DeviceConfig(dc) => {
            let configs = ButtonConfigs::from_config(&dc.config);
            profiles.insert(dc.serial_number, configs);
            if *state_id == u32::MAX {
                *state_id = 0;
            } else {
                *state_id = *state_id + 1;
            }
            assert(replies.deep_view() =~= Seq::<Seq<u8>>::empty());
        },
        _ => {
            assert(replies.deep_view() =~= Seq::<Seq<u8>>::empty());
        },
    }
    replies
}

/// Handles a message from the interface (see `message_answered`) and
/// returns the messages to send back. The message must be one the driver
/// can handle (`message_handled`).
pub fn answer_message(
    is_running: bool,
    data: Vec<u8>,
    descriptor: &mut DriverConfigurationDescriptor,
    devices: &ConnectedDevices,
    profiles: &mut ProfileStore,
    state_id: &mut u32,
) -> (res: Vec<Vec<u8>>)
    requires
        message_handled(is_running, data@),
        old(profiles).wf(),
    ensures
        final(profiles).wf(),
        *final(descriptor) == *old(descriptor),
        old(profiles).view().dom().subset_of(final(profiles).view().dom()),
        message_answered(
            is_running,
            data@,
            old(descriptor)@,
            devices.view(),
            old(profiles).view(),
            final(profiles).view(),
            *old(state_id),
            *final(state_id),
            res.deep_view(),
        ),
{
    if !is_running {
        let res: Vec<Vec<u8>> = Vec::new();
        assert(res.deep_view() =~= Seq::<Seq<u8>>::empty());
        return res;
    }
    if data.len() == 0 {
        let mut res: Vec<Vec<u8>> = Vec::new();
        let first = descriptor.to_bytes();
        let second = device_list_bytes(devices);
        res.push(first);
        res.push(second);
        assert(first.deep_view() =~= first@);
        assert(second.deep_view() =~= second@);
        assert(res.deep_view() =~= seq![first@, second@]);
        return res;
    }
    let ghost bytes = data@;
    match Commands::decode(data) {
        Some(cmd) => answer_command(cmd, profiles, state_id),
        None => Vec::new(),
    }
}

/// Handles a message from the interface as `answer_message` does, or
/// returns `None`, changing nothing, when the driver cannot handle it (a
/// message that holds no command, or a profile without an entry for each
/// button).
pub fn try_answer_message(
    is_running: bool,
    data: Vec<u8>,
    descriptor: &mut DriverConfigurationDescriptor,
    devices: &ConnectedDevices,
    profiles: &mut ProfileStore,
    state_id: &mut u32,
) -> (res: Option<Vec<Vec<u8>>>)
    requires
        old(profiles).wf(),
    ensures
        final(profiles).wf(),
        *final(descriptor) == *old(descriptor),
        old(profiles).view().dom().subset_of(final(profiles).view().dom()),
        res is Some <==> message_handled(is_running, data@),
        match res {
            Some(replies) => message_answered(
                is_running,
                data@,
                old(descriptor)@,
                devices.view(),
                old(profiles).view(),
                final(profiles).view(),
                *old(state_id),
                *final(state_id),
                replies.deep_view(),
            ),
            None => final(profiles).view() == old(profiles).view() && *final(state_id) == *old(
                state_id,
            ),
        },
{
    if !is_running || data.len() == 0 {
        return Some(answer_message(is_running, data, descriptor, devices, profiles, state_id));
    }
    match Commands::decode(data) {
        Some(cmd) => {
            let handled = match &cmd {
                Commands::DeviceConfig(dc) => dc.config.len() >= BUTTON_COUNT,
                _ => true,
            };
            if handled {
                Some(answer_command(cmd, profiles, state_id))
            } else {
                None
            }
        },
        None => None,
    }
}

/// Every mouse the driver handles has a profile, so that its reports can
/// be mapped.
pub open spec fn handled_have_profiles(
    devices: Set<Seq<char>>,
    profiles: Map<Seq<char>, Seq<SpecButtonConfig>>,
) -> bool {
    devices.subset_of(profiles.dom())
}

/// What the driver does when it finds an MMO7 with a serial number:
/// unless it is already handling that mouse, it gives the mouse a profile
/// without macros if it has none, starts handling it, and returns `true`
/// (the caller then starts reading the mouse). The second result tells
/// whether a profile was created (the caller then saves the profiles).
pub fn device_found(
    serial: &String,
    devices: &mut ConnectedDevices,
    profiles: &mut ProfileStore,
) -> (res: (bool, bool))
    requires
        old(profiles).wf(),
    ensures
        final(profiles).wf(),
        res.0 == !old(devices).view().contains(serial@),
        final(devices).view() == old(devices).view().insert(serial@),
        res.1 == (res.0 && !old(profiles).view().dom().contains(serial@)),
        res.1 ==> final(profiles).view() == old(profiles).view().insert(serial@, empty_profile()),
        !res.1 ==> final(profiles).view() == old(profiles).view(),
        res.0 ==> final(profiles).view().dom().contains(serial@),
        handled_have_profiles(old(devices).view(), old(profiles).view()) ==> handled_have_profiles(
            final(devices).view(),
            final(profiles).view(),
        ),
{
    if devices.contains(serial) {
        (false, false)
    } else {
        let created = profiles.insert_default_if_missing(serial);
        devices.insert(serial.clone());
        (true, created)
    }
}

/// What the driver does when it stops reading a mouse: it no longer
/// handles it, and sends the interface the new device list.
pub fn device_lost(serial: &String, devices: &mut ConnectedDevices) -> (res: Vec<u8>)
    requires
    ensures
        final(devices).view() == old(devices).view().remove(serial@),
        device_list_message(final(devices).view(), res@),
        final(devices).view().subset_of(old(devices).view()),
{
    devices.remove(serial);
    device_list_bytes(devices)
}

impl Mapper {
    /// Re-reads the mouse's profile when the profiles' version differs from
    /// the one last seen (the version is then remembered); returns whether
    /// it did. The mouse must then have a profile whose macros close the
    /// tags they open.
    pub fn refresh(&mut self, state_id: u32, profiles: &ProfileStore, serial: &String) -> (res:
        bool)
        requires
            profiles.wf(),
            old(self).last_mouses_config_state_id != state_id ==> profiles.view().dom().contains(
                serial@,
            ) && profile_tokenizable(profiles.view()[serial@]),
        ensures
            res == (old(self).last_mouses_config_state_id != state_id),
            final(self).last_mouses_config_state_id == state_id,
            res ==> final(self).button_configs_token@ == Seq::new(
                BUTTON_COUNT as nat,
                |i: int| config_token_spec(profiles.view()[serial@][i]),
            ),
            !res ==> final(self).button_configs_token == old(self).button_configs_token,
            final(self).mode == old(self).mode,
            final(self).click_state == old(self).click_state,
            final(self).button_state == old(self).button_state,
    {
        if self.config_has_change(state_id) {
            match profiles.get(serial) {
                Some(c) => {
                    self.button_configs_token = ButtonConfigsToken::from_config(c.clone());
                },
                None => {},
            }
            true
        } else {
            false
        }
    }

    /// One report of the mouse, as the driver handles it: the mouse's
    /// profile is first re-read when the profiles' version differs from the
    /// one last seen (see `refresh`), then the report is emulated with the
    /// resulting tokens (see `emulate`).
    pub fn emulate_with_profiles(
        &mut self,
        buffer: &[u8],
        state_id: u32,
        profiles: &ProfileStore,
        serial: &String,
    ) -> (res: Vec<Action>)
        requires
            buffer@.len() >= 8,
            profiles.wf(),
            old(self).last_mouses_config_state_id != state_id ==> profiles.view().dom().contains(
                serial@,
            ) && profile_tokenizable(profiles.view()[serial@]),
        ensures
            ({
                let tokens = if old(self).last_mouses_config_state_id != state_id {
                    Seq::new(
                        BUTTON_COUNT as nat,
                        |i: int| config_token_spec(profiles.view()[serial@][i]),
                    )
                } else {
                    old(self).button_configs_token@
                };
                let mode = mode_of(buffer@[2]);
                let free = is_unmapped(state_token_in(tokens[0], mode));
                &&& final(self).button_configs_token@ == tokens
                &&& final(self).last_mouses_config_state_id == state_id
                &&& final(self).mode == mode
                &&& final(self).click_state == next_click_state(
                    old(self).click_state,
                    buffer@,
                    free,
                )
                &&& final(self).button_state@ == decode_buttons(buffer@)
                &&& actions_view(res@) == basic_actions(old(self).click_state, buffer@, free)
                    + mapped_actions(
                    tokens,
                    mode,
                    old(self).button_state@,
                    decode_buttons(buffer@),
                    BUTTON_COUNT as nat,
                )
            }),
    {
        self.refresh(state_id, profiles, serial);
        self.emulate(buffer)
    }
}

} // verus!
