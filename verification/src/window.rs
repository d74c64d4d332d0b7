//! What the window keeps between frames: whether it must be redrawn and
//! the bounds of its size.

use vstd::prelude::*;

verus! {

/// State shared between the window and the threads that change what it
/// shows.
pub trait GlobalStateTrait {
    /// Whether a redraw was requested since the last call; the request is
    /// consumed.
    fn should_redraw(&self) -> bool;

    /// Asks for the window to be redrawn.
    fn request_redraw(&self);
}

/// A window size in pixels: width, height.
pub type WindowSize = (u32, u32);

pub open spec fn clamp_spec(v: u32, low: u32, high: Option<u32>) -> u32 {
    let raised = if v < low { low } else { v };
    match high {
        Some(h) => if raised > h { h } else { raised },
        None => raised,
    }
}

pub open spec fn width_of(s: Option<WindowSize>) -> Option<u32> {
    match s {
        Some(m) => Some(m.0),
        None => None,
    }
}

pub open spec fn height_of(s: Option<WindowSize>) -> Option<u32> {
    match s {
        Some(m) => Some(m.1),
        None => None,
    }
}

fn clamp_dimension(v: u32, low: u32, high: Option<u32>) -> (res: u32)
    ensures
        res == clamp_spec(v, low, high),
{
    let raised = if v < low { low } else { v };
    match high {
        Some(h) => if raised > h { h } else { raised },
        None => raised,
    }
}

/// The size the window takes when asked for `size`: each dimension is
/// raised to the minimum (no minimum is 0 by 0), then lowered to the
/// maximum when there is one.
pub fn clamp_window_size(size: WindowSize, min_size: Option<WindowSize>, max_size: Option<
    WindowSize,
>) -> (res: WindowSize)
    ensures
        ({
            let low = match min_size {
                Some(m) => m,
                None => (0u32, 0u32),
            };
            &&& res.0 == clamp_spec(size.0, low.0, width_of(max_size))
            &&& res.1 == clamp_spec(size.1, low.1, height_of(max_size))
        }),
{
    let low = match min_size {
        Some(m) => m,
        None => (0, 0),
    };
    let (high_w, high_h) = match max_size {
        Some(m) => (Some(m.0), Some(m.1)),
        None => (None, None),
    };
    (clamp_dimension(size.0, low.0, high_w), clamp_dimension(size.1, low.1, high_h))
}

/// Law: when the minimum does not exceed the maximum, the window's size
/// lies between them; a size already between them is kept.
pub proof fn lemma_clamp_within(v: u32, low: u32, high: u32)
    requires
        low <= high,
    ensures
        low <= clamp_spec(v, low, Some(high)) <= high,
        low <= v <= high ==> clamp_spec(v, low, Some(high)) == v,
        clamp_spec(v, low, None) >= low,
{
}

} // verus!
