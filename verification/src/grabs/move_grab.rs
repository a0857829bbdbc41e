//! Interactive moving of a floating window.
use vstd::prelude::*;

use crate::element::WindowElement;
use crate::geometry::Point;
use crate::workspace::{relocated, Workspace};
use crate::BTN_LEFT;

verus! {

/// A running move of `window`, which stood at `initial_window_location`
/// when the grab started.
#[derive(Debug, Clone, Copy, PartialEq, Eq, Structural)]
pub struct MoveSurfaceGrab {
    pub window: WindowElement,
    pub initial_window_location: Point,
}

impl MoveSurfaceGrab {
    /// The pointer moved so that the window should stand at `new_location`:
    /// a floating window is brought there, on top; a tiled one stays.
    pub fn motion(&self, workspace: &mut Workspace, new_location: Point)
        requires
            old(workspace).wf(),
        ensures
            final(workspace).wf(),
            relocated(*old(workspace), *final(workspace), self.window, new_location),
    {
        workspace.relocate_window(&self.window, new_location);
    }

    /// On a button event: the grab ends once the left button is no longer
    /// held.
    pub fn button(&self, pressed_buttons: &[u32]) -> (released: bool)
        ensures
            released == !pressed_buttons@.contains(BTN_LEFT),
    {
        !crate::input::contains_sym(pressed_buttons, BTN_LEFT)
    }
}

} // verus!
