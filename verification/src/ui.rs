//! The interface's decisions: what a click on an element does, when the
//! configurator goes back to the device list, the editing of macro texts.

pub mod app;
pub mod device_configurator;
pub mod device_list;
pub mod text_input;

use vstd::prelude::*;
use crate::connection::command::DeviceList;

verus! {

/// The elements of the interface that react to the pointer; each is
/// tagged with its number in the drawn scene.
#[derive(Clone, Copy, PartialEq, Eq, Structural, Hash, Debug)]
pub enum AppEvent {
    Scroll,
    WindowResizeTopLeft,
    WindowResizeTopRight,
    WindowResizeTop,
    WindowResizeBottomLeft,
    WindowResizeBottomRight,
    WindowResizeBottom,
    WindowResizeLeft,
    WindowResizeRight,
    CloseButton,
    MaximizeButton,
    MinimizeButton,
    ReturnButton,
    TitleBar,
    ChooseDeviceButton,
    ModeSelectorPrevious,
    ModeSelectorNext,
    ApplyConfig,
    Parameter,
}

/// The number of an element: its place in the declaration, from 0.
pub open spec fn app_event_code(e: AppEvent) -> u64 {
    match e {
        AppEvent::Scroll => 0,
        AppEvent::WindowResizeTopLeft => 1,
        AppEvent::WindowResizeTopRight => 2,
        AppEvent::WindowResizeTop => 3,
        AppEvent::WindowResizeBottomLeft => 4,
        AppEvent::WindowResizeBottomRight => 5,
        AppEvent::WindowResizeBottom => 6,
        AppEvent::WindowResizeLeft => 7,
        AppEvent::WindowResizeRight => 8,
        AppEvent::CloseButton => 9,
        AppEvent::MaximizeButton => 10,
        AppEvent::MinimizeButton => 11,
        AppEvent::ReturnButton => 12,
        AppEvent::TitleBar => 13,
        AppEvent::ChooseDeviceButton => 14,
        AppEvent::ModeSelectorPrevious => 15,
        AppEvent::ModeSelectorNext => 16,
        AppEvent::ApplyConfig => 17,
        AppEvent::Parameter => 18,
    }
}

/// The number of elements.
pub const APP_EVENT_COUNT: u64 = 19;

impl AppEvent {
    /// The element's number, used as the tag of what is drawn for it.
    pub fn into(self) -> (res: u64)
        ensures
            res == app_event_code(self),
    {
        match self {
            AppEvent::Scroll => 0,
            AppEvent::WindowResizeTopLeft => 1,
            AppEvent::WindowResizeTopRight => 2,
            AppEvent::WindowResizeTop => 3,
            AppEvent::WindowResizeBottomLeft => 4,
            AppEvent::WindowResizeBottomRight => 5,
            AppEvent::WindowResizeBottom => 6,
            AppEvent::WindowResizeLeft => 7,
            AppEvent::WindowResizeRight => 8,
            AppEvent::CloseButton => 9,
            AppEvent::MaximizeButton => 10,
            AppEvent::MinimizeButton => 11,
            AppEvent::ReturnButton => 12,
            AppEvent::TitleBar => 13,
            AppEvent::ChooseDeviceButton => 14,
            AppEvent::ModeSelectorPrevious => 15,
            AppEvent::ModeSelectorNext => 16,
            AppEvent::ApplyConfig => 17,
            AppEvent::Parameter => 18,
        }
    }

    /// The element with a number, or `None` for a number no element has.
    pub fn from(value: u64) -> (res: Option<Self>)
        ensures
            match res {
                Some(e) => app_event_code(e) == value,
                None => value >= APP_EVENT_COUNT,
            },
    {
        match value {
            0 => Some(AppEvent::Scroll),
            1 => Some(AppEvent::WindowResizeTopLeft),
            2 => Some(AppEvent::WindowResizeTopRight),
            3 => Some(AppEvent::WindowResizeTop),
            4 => Some(AppEvent::WindowResizeBottomLeft),
            5 => Some(AppEvent::WindowResizeBottomRight),
            6 => Some(AppEvent::WindowResizeBottom),
            7 => Some(AppEvent::WindowResizeLeft),
            8 => Some(AppEvent::WindowResizeRight),
            9 => Some(AppEvent::CloseButton),
            10 => Some(AppEvent::MaximizeButton),
            11 => Some(AppEvent::MinimizeButton),
            12 => Some(AppEvent::ReturnButton),
            13 => Some(AppEvent::TitleBar),
            14 => Some(AppEvent::ChooseDeviceButton),
            15 => Some(AppEvent::ModeSelectorPrevious),
            16 => Some(AppEvent::ModeSelectorNext),
            17 => Some(AppEvent::ApplyConfig),
            18 => Some(AppEvent::Parameter),
            _ => None,
        }
    }
}

/// Law: the element read back from its number is the element, and the
/// numbers of the elements are exactly those under the count; so two
/// elements never share a number.
pub proof fn lemma_app_event_round_trip(e: AppEvent, f: AppEvent)
    ensures
        app_event_code(e) < APP_EVENT_COUNT,
        app_event_code(e) == app_event_code(f) ==> e == f,
{
}

/// What happened to the element under the pointer.
#[derive(Clone, Copy, PartialEq, Eq, Structural, Debug)]
pub enum AppEventKind {
    MousePressed,
    MouseReleased,
    /// A focus change, a key or a typed character.
    Other,
}

/// What the window does on a pointer event over one of its own elements.
#[derive(Clone, Copy, PartialEq, Eq, Structural, Debug)]
pub enum WindowAction {
    Nothing,
    DragWindow,
    StartResize(AppEvent),
    Exit,
    ToggleMaximized,
    Minimize,
    ReturnToDeviceList,
}

/// A pointer press on an edge or corner starts a resize from it.
pub open spec fn is_resize_event(e: AppEvent) -> bool {
    matches!(e,
        AppEvent::WindowResizeTopLeft
        | AppEvent::WindowResizeTopRight
        | AppEvent::WindowResizeTop
        | AppEvent::WindowResizeBottomLeft
        | AppEvent::WindowResizeBottomRight
        | AppEvent::WindowResizeBottom
        | AppEvent::WindowResizeLeft
        | AppEvent::WindowResizeRight
    )
}

pub open spec fn window_action_spec(event: AppEvent, kind: AppEventKind) -> WindowAction {
    match kind {
        AppEventKind::MousePressed => if event == AppEvent::TitleBar {
            WindowAction::DragWindow
        } else if is_resize_event(event) {
            WindowAction::StartResize(event)
        } else {
            WindowAction::Nothing
        },
        AppEventKind::MouseReleased => match event {
            AppEvent::CloseButton => WindowAction::Exit,
            AppEvent::MaximizeButton => WindowAction::ToggleMaximized,
            AppEvent::MinimizeButton => WindowAction::Minimize,
            AppEvent::ReturnButton => WindowAction::ReturnToDeviceList,
            _ => WindowAction::Nothing,
        },
        AppEventKind::Other => WindowAction::Nothing,
    }
}

/// Law: each element of the window does its own thing and nothing else. A
/// release closes the window exactly over the close button, toggles
/// maximized exactly over the maximize button, minimizes exactly over the
/// minimize button and goes back to the device list exactly over the return
/// button; a press drags the window exactly over the title bar and starts a
/// resize, from that very element, exactly over a border or a corner; no
/// other event does anything.
pub proof fn lemma_window_actions(event: AppEvent)
    ensures
        (window_action_spec(event, AppEventKind::MouseReleased) == WindowAction::Exit) <==> event
            == AppEvent::CloseButton,
        (window_action_spec(event, AppEventKind::MouseReleased) == WindowAction::ToggleMaximized)
            <==> event == AppEvent::MaximizeButton,
        (window_action_spec(event, AppEventKind::MouseReleased) == WindowAction::Minimize) <==> event
            == AppEvent::MinimizeButton,
        (window_action_spec(event, AppEventKind::MouseReleased) == WindowAction::ReturnToDeviceList)
            <==> event == AppEvent::ReturnButton,
        window_action_spec(event, AppEventKind::MouseReleased) is Nothing <==> !(event
            == AppEvent::CloseButton || event == AppEvent::MaximizeButton || event
            == AppEvent::MinimizeButton || event == AppEvent::ReturnButton),
        (window_action_spec(event, AppEventKind::MousePressed) == WindowAction::DragWindow) <==> event
            == AppEvent::TitleBar,
        (window_action_spec(event, AppEventKind::MousePressed) == WindowAction::StartResize(event))
            <==> is_resize_event(event),
        window_action_spec(event, AppEventKind::MousePressed) matches WindowAction::StartResize(e)
            ==> e == event,
        window_action_spec(event, AppEventKind::MousePressed) is Nothing <==> !(event
            == AppEvent::TitleBar || is_resize_event(event)),
        window_action_spec(event, AppEventKind::Other) == WindowAction::Nothing,
{
}

/// What the window does on an event over one of its elements: a press on
/// the title bar drags the window and one on an edge starts resizing it; a
/// release on the close, maximize, minimize or return button closes,
/// toggles maximized, minimizes, or goes back to the device list.
pub fn window_action(event: AppEvent, kind: AppEventKind) -> (res: WindowAction)
    ensures
        res == window_action_spec(event, kind),
{
    match kind {
        AppEventKind::MousePressed => match event {
            AppEvent::TitleBar => WindowAction::DragWindow,
            AppEvent::WindowResizeTopLeft
            | AppEvent::WindowResizeTopRight
            | AppEvent::WindowResizeTop
            | AppEvent::WindowResizeBottomLeft
            | AppEvent::WindowResizeBottomRight
            | AppEvent::WindowResizeBottom
            | AppEvent::WindowResizeLeft
            | AppEvent::WindowResizeRight => WindowAction::StartResize(event),
            _ => WindowAction::Nothing,
        },
        AppEventKind::MouseReleased => match event {
            AppEvent::CloseButton => WindowAction::Exit,
            AppEvent::MaximizeButton => WindowAction::ToggleMaximized,
            AppEvent::MinimizeButton => WindowAction::Minimize,
            AppEvent::ReturnButton => WindowAction::ReturnToDeviceList,
            _ => WindowAction::Nothing,
        },
        AppEventKind::Other => WindowAction::Nothing,
    }
}

/// Whether the configurator of a selected mouse goes back to the device
/// list: when the mouse's driver is gone (`None`), or its device list no
/// longer names the mouse.
pub fn selection_lost(driver_devices: Option<&DeviceList>, serial_number: &String) -> (res: bool)
    ensures
        res == match driver_devices {
            None => true,
            Some(l) => !l@.serial_number_vec.contains(serial_number@),
        },
{
    match driver_devices {
        None => true,
        Some(l) => {
            let ghost names = l@.serial_number_vec;
            let mut i: usize = 0;
            while i < l.serial_number_vec.len()
                invariant
                    driver_devices == Some(l),
                    names == l.serial_number_vec.deep_view(),
                    i <= l.serial_number_vec@.len(),
                    forall|j: int|
                        0 <= j < i ==> #[trigger] l.serial_number_vec@[j]@ != serial_number@,
                decreases l.serial_number_vec@.len() - i,
            {
                if l.serial_number_vec[i] == *serial_number {
                    assert(l@.serial_number_vec[i as int] == serial_number@);
                    assert(names.contains(serial_number@));
                    return false;
                }
                i = i + 1;
            }
            assert(!l@.serial_number_vec.contains(serial_number@)) by {
                if l@.serial_number_vec.contains(serial_number@) {
                    let j = choose|j: int|
                        0 <= j < l@.serial_number_vec.len() && l@.serial_number_vec[j]
                            == serial_number@;
                    assert(l.serial_number_vec@[j]@ == serial_number@);
                }
            }
            true
        },
    }
}

} // verus!
