use vstd::prelude::*;
use crate::ui::AppEvent;

verus! {

/// Which edges of the window follow the pointer while it resizes the
/// window from a border or a corner.
#[derive(Clone, Copy, PartialEq, Eq, Structural, Debug)]
pub struct ResizeEdges {
    pub left: bool,
    pub top: bool,
    pub right: bool,
    pub bottom: bool,
}

pub open spec fn resize_edges_spec(event: AppEvent) -> Option<ResizeEdges> {
    match event {
        AppEvent::WindowResizeTopLeft => Some(
            ResizeEdges { left: true, top: true, right: false, bottom: false },
        ),
        AppEvent::WindowResizeTopRight => Some(
            ResizeEdges { left: false, top: true, right: true, bottom: false },
        ),
        AppEvent::WindowResizeTop => Some(
            ResizeEdges { left: false, top: true, right: false, bottom: false },
        ),
        AppEvent::WindowResizeBottomLeft => Some(
            ResizeEdges { left: true, top: false, right: false, bottom: true },
        ),
        AppEvent::WindowResizeBottomRight => Some(
            ResizeEdges { left: false, top: false, right: true, bottom: true },
        ),
        AppEvent::WindowResizeBottom => Some(
            ResizeEdges { left: false, top: false, right: false, bottom: true },
        ),
        AppEvent::WindowResizeLeft => Some(
            ResizeEdges { left: true, top: false, right: false, bottom: false },
        ),
        AppEvent::WindowResizeRight => Some(
            ResizeEdges { left: false, top: false, right: true, bottom: false },
        ),
        _ => None,
    }
}

/// The edges that move when resizing from an element: a moving left edge
/// shifts the window right by the pointer's motion and narrows it by as
/// much, a moving right edge widens it; the top and bottom edges do the
/// same vertically. `None` for an element that does not resize.
pub fn resize_edges(event: AppEvent) -> (res: Option<ResizeEdges>)
    ensures
        res == resize_edges_spec(event),
{
    match event {
        AppEvent::WindowResizeTopLeft => Some(
            ResizeEdges { left: true, top: true, right: false, bottom: false },
        ),
        AppEvent::WindowResizeTopRight => Some(
            ResizeEdges { left: false, top: true, right: true, bottom: false },
        ),
        AppEvent::WindowResizeTop => Some(
            ResizeEdges { left: false, top: true, right: false, bottom: false },
        ),
        AppEvent::WindowResizeBottomLeft => Some(
            ResizeEdges { left: true, top: false, right: false, bottom: true },
        ),
        AppEvent::WindowResizeBottomRight => Some(
            ResizeEdges { left: false, top: false, right: true, bottom: true },
        ),
        AppEvent::WindowResizeBottom => Some(
            ResizeEdges { left: false, top: false, right: false, bottom: true },
        ),
        AppEvent::WindowResizeLeft => Some(
            ResizeEdges { left: true, top: false, right: false, bottom: false },
        ),
        AppEvent::WindowResizeRight => Some(
            ResizeEdges { left: false, top: false, right: true, bottom: false },
        ),
        _ => None,
    }
}

/// Law: an element resizes the window exactly when a press on it starts a
/// resize, and a resize never moves two opposite edges. Each border or
/// corner moves exactly the edges that it names: the right edge for the
/// right border and the two right corners, the left edge for the left
/// border and the two left corners, the top edge for the top border and the
/// two top corners, the bottom edge for the bottom border and the two
/// bottom corners.
pub proof fn lemma_resize_edges(event: AppEvent)
    ensures
        resize_edges_spec(event) is Some <==> crate::ui::is_resize_event(event),
        resize_edges_spec(event) matches Some(e) ==> !(e.left && e.right) && !(e.top && e.bottom),
        resize_edges_spec(event) matches Some(e) ==> {
            &&& e.right <==> (event == AppEvent::WindowResizeRight || event
                == AppEvent::WindowResizeTopRight || event == AppEvent::WindowResizeBottomRight)
            &&& e.left <==> (event == AppEvent::WindowResizeLeft || event
                == AppEvent::WindowResizeTopLeft || event == AppEvent::WindowResizeBottomLeft)
            &&& e.top <==> (event == AppEvent::WindowResizeTop || event
                == AppEvent::WindowResizeTopLeft || event == AppEvent::WindowResizeTopRight)
            &&& e.bottom <==> (event == AppEvent::WindowResizeBottom || event
                == AppEvent::WindowResizeBottomLeft || event == AppEvent::WindowResizeBottomRight)
        },
{
}

/// The cursor shown over a border or corner of the window.
#[derive(Clone, Copy, PartialEq, Eq, Structural, Debug)]
pub enum ResizeCursor {
    NwResize,
    NeResize,
    NResize,
    SwResize,
    SeResize,
    SResize,
    WResize,
    EResize,
}

/// The cursor for a border or corner; `None` for another element.
pub fn resize_cursor(event: AppEvent) -> (res: Option<ResizeCursor>)
    ensures
        res is Some <==> crate::ui::is_resize_event(event),
        event == AppEvent::WindowResizeTopLeft ==> res == Some(ResizeCursor::NwResize),
        event == AppEvent::WindowResizeTopRight ==> res == Some(ResizeCursor::NeResize),
        event == AppEvent::WindowResizeTop ==> res == Some(ResizeCursor::NResize),
        event == AppEvent::WindowResizeBottomLeft ==> res == Some(ResizeCursor::SwResize),
        event == AppEvent::WindowResizeBottomRight ==> res == Some(ResizeCursor::SeResize),
        event == AppEvent::WindowResizeBottom ==> res == Some(ResizeCursor::SResize),
        event == AppEvent::WindowResizeLeft ==> res == Some(ResizeCursor::WResize),
        event == AppEvent::WindowResizeRight ==> res == Some(ResizeCursor::EResize),
{
    match event {
        AppEvent::WindowResizeTopLeft => Some(ResizeCursor::NwResize),
        AppEvent::WindowResizeTopRight => Some(ResizeCursor::NeResize),
        AppEvent::WindowResizeTop => Some(ResizeCursor::NResize),
        AppEvent::WindowResizeBottomLeft => Some(ResizeCursor::SwResize),
        AppEvent::WindowResizeBottomRight => Some(ResizeCursor::SeResize),
        AppEvent::WindowResizeBottom => Some(ResizeCursor::SResize),
        AppEvent::WindowResizeLeft => Some(ResizeCursor::WResize),
        AppEvent::WindowResizeRight => Some(ResizeCursor::EResize),
        _ => None,
    }
}

} // verus!
