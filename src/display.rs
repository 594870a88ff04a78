//! The overlay's size and scrolling, as the host's settings and mouse wheel
//! change them.

use vstd::prelude::*;

verus! {

pub assume_specification[ livesplit_core::Layout::scroll_up ](layout: &mut livesplit_core::Layout);

pub assume_specification[ livesplit_core::Layout::scroll_down ](layout: &mut livesplit_core::Layout);

/// The new size of the overlay, where the settings give both a width and a
/// height and they differ from the current size; otherwise none, and the
/// current image is kept.
pub fn resized(width: u32, height: u32, new_width: Option<u32>, new_height: Option<u32>) -> (r:
    Option<(u32, u32)>)
    ensures
        r == (if new_width is Some && new_height is Some && (new_width->0 != width || new_height->0
            != height) {
            Some((new_width->0, new_height->0))
        } else {
            None
        }),
{
    match (new_width, new_height) {
        (Some(w), Some(h)) => {
            if w != width || h != height {
                Some((w, h))
            } else {
                None
            }
        },
        _ => None,
    }
}

/// Which way a turn of the mouse wheel scrolls the layout.
#[derive(Clone, Copy, Debug, PartialEq, Eq, Structural)]
pub enum Scroll {
    Up,
    Down,
    Still,
}

/// A wheel turned away from the user (a positive step) scrolls up, one
/// turned towards the user scrolls down.
pub open spec fn scroll_for(ydelta: int) -> Scroll {
    if ydelta < 0 {
        Scroll::Down
    } else if ydelta > 0 {
        Scroll::Up
    } else {
        Scroll::Still
    }
}

/// The direction of one step of the mouse wheel.
pub fn scroll_of(ydelta: i32) -> (r: Scroll)
    ensures
        r == scroll_for(ydelta as int),
{
    if ydelta < 0 {
        Scroll::Down
    } else if ydelta > 0 {
        Scroll::Up
    } else {
        Scroll::Still
    }
}

/// Scrolls the layout's components by one step of the mouse wheel; a step
/// of zero leaves the layout as it was.
pub fn scroll_layout(layout: &mut livesplit_core::Layout, ydelta: i32) -> (r: Scroll)
    ensures
        r == scroll_for(ydelta as int),
        ydelta == 0 ==> *final(layout) == *old(layout),
{
    let step = scroll_of(ydelta);
    match step {
        Scroll::Up => layout.scroll_up(),
        Scroll::Down => layout.scroll_down(),
        Scroll::Still => {},
    }
    step
}

} // verus!
