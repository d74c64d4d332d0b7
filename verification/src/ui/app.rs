//! The first version of the window's elements, kept for the title bar and
//! the resize borders that are drawn with them.

pub mod window_resize;

use vstd::prelude::*;

verus! {

/// The elements of the first version of the window.
#[derive(Clone, Copy, PartialEq, Eq, Structural, Hash, Debug)]
pub enum AppEvent {
    WindowResizeTopLeft,
    WindowResizeTopRight,
    WindowResizeTop,
    WindowResizeBottomLeft,
    WindowResizeBottomRight,
    WindowResizeBottom,
    WindowResizeLeft,
    WindowResizeRight,
    CloseButton,
    MaximizeButton,
    MinimizeButton,
    TitleBar,
}

/// The number of an element: its place in the declaration, from 0.
pub open spec fn app_event_code(e: AppEvent) -> u64 {
    match e {
        AppEvent::WindowResizeTopLeft => 0,
        AppEvent::WindowResizeTopRight => 1,
        AppEvent::WindowResizeTop => 2,
        AppEvent::WindowResizeBottomLeft => 3,
        AppEvent::WindowResizeBottomRight => 4,
        AppEvent::WindowResizeBottom => 5,
        AppEvent::WindowResizeLeft => 6,
        AppEvent::WindowResizeRight => 7,
        AppEvent::CloseButton => 8,
        AppEvent::MaximizeButton => 9,
        AppEvent::MinimizeButton => 10,
        AppEvent::TitleBar => 11,
    }
}

/// The number of elements.
pub const APP_EVENT_COUNT: u64 = 12;

impl AppEvent {
    /// The element's number.
    pub fn into(self) -> (res: u64)
        ensures
            res == app_event_code(self),
    {
        match self {
            AppEvent::WindowResizeTopLeft => 0,
            AppEvent::WindowResizeTopRight => 1,
            AppEvent::WindowResizeTop => 2,
            AppEvent::WindowResizeBottomLeft => 3,
            AppEvent::WindowResizeBottomRight => 4,
            AppEvent::WindowResizeBottom => 5,
            AppEvent::WindowResizeLeft => 6,
            AppEvent::WindowResizeRight => 7,
            AppEvent::CloseButton => 8,
            AppEvent::MaximizeButton => 9,
            AppEvent::MinimizeButton => 10,
            AppEvent::TitleBar => 11,
        }
    }

    /// The element with a number; the number must be one an element has.
    pub fn from(value: u64) -> (res: Self)
        requires
            value < APP_EVENT_COUNT,
        ensures
            app_event_code(res) == value,
    {
        match value {
            0 => AppEvent::WindowResizeTopLeft,
            1 => AppEvent::WindowResizeTopRight,
            2 => AppEvent::WindowResizeTop,
            3 => AppEvent::WindowResizeBottomLeft,
            4 => AppEvent::WindowResizeBottomRight,
            5 => AppEvent::WindowResizeBottom,
            6 => AppEvent::WindowResizeLeft,
            7 => AppEvent::WindowResizeRight,
            8 => AppEvent::CloseButton,
            9 => AppEvent::MaximizeButton,
            10 => AppEvent::MinimizeButton,
            _ => AppEvent::TitleBar,
        }
    }
}

/// Law: the element read back from its number is the element.
pub proof fn lemma_app_event_round_trip(e: AppEvent, f: AppEvent)
    ensures
        app_event_code(e) < APP_EVENT_COUNT,
        app_event_code(e) == app_event_code(f) ==> e == f,
{
}

} // verus!
