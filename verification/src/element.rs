//! Windows as the window manager sees them.
use vstd::prelude::*;

verus! {

/// Identity of a client window: a stable id, and the id of its
/// `wl_surface` once the window has one (an X11 window gets it only after
/// Xwayland has associated one).
#[derive(Debug, Clone, Copy, PartialEq, Eq, Structural)]
pub struct WindowHandle {
    pub id: u64,
    pub surface: Option<u64>,
}

/// A managed window, either a native Wayland toplevel or an X11 window.
/// Two elements are the same window exactly when they are equal.
#[derive(Debug, Clone, Copy, PartialEq, Eq, Structural)]
pub enum WindowElement {
    Wayland(WindowHandle),
    X11(WindowHandle),
}

impl WindowElement {
    /// The surface id of the window, if it has one.
    pub open spec fn surface_of(self) -> Option<u64> {
        match self {
            WindowElement::Wayland(h) => h.surface,
            WindowElement::X11(h) => h.surface,
        }
    }

    pub fn is_x11(&self) -> (r: bool)
        ensures
            r == (*self is X11),
    {
        match self {
            WindowElement::X11(_) => true,
            WindowElement::Wayland(_) => false,
        }
    }

    pub fn is_wayland(&self) -> (r: bool)
        ensures
            r == (*self is Wayland),
    {
        match self {
            WindowElement::Wayland(_) => true,
            WindowElement::X11(_) => false,
        }
    }

    pub fn wl_surface(&self) -> (r: Option<u64>)
        ensures
            r == self.surface_of(),
    {
        match self {
            WindowElement::Wayland(h) => h.surface,
            WindowElement::X11(h) => h.surface,
        }
    }
}

} // verus!
