//! Window placement and fullscreen bookkeeping.
use rand::distributions::Distribution;
use vstd::prelude::*;

use crate::element::WindowElement;
use crate::geometry::{fits_i32, Point, Rectangle, Size};
use crate::shell::layout::space::without;
use crate::shell::layout::{FloatingLayout, ManagedLayer};

pub mod layout;
pub mod x11;
pub mod xdg;

verus! {

/// The fullscreen window of a workspace: the window, where it was before
/// (its layer and the workspace's handle), and its geometry before it went
/// fullscreen.
#[derive(Debug, Clone, Copy, PartialEq, Eq)]
pub struct FullscreenWindow {
    pub window: WindowElement,
    pub previously: Option<(ManagedLayer, usize)>,
    pub original_geometry: Rectangle,
}

/// The window shown fullscreen on an output, with the index of the
/// workspace it went fullscreen on.
#[derive(Debug, Clone, Copy, PartialEq, Eq, Structural)]
pub struct FullscreenSurface {
    window: Option<WindowElement>,
    workspace_index: Option<usize>,
}

impl FullscreenSurface {
    pub closed spec fn window_of(&self) -> Option<WindowElement> {
        self.window
    }

    pub closed spec fn workspace_index_of(&self) -> Option<usize> {
        self.workspace_index
    }

    /// A record with no fullscreen window.
    pub fn new() -> (f: FullscreenSurface)
        ensures
            f.window_of() is None,
            f.workspace_index_of() is None,
    {
        FullscreenSurface { window: None, workspace_index: None }
    }

    pub fn set(&mut self, window: WindowElement, workspace_index: usize)
        ensures
            final(self).window_of() == Some(window),
            final(self).workspace_index_of() == Some(workspace_index),
    {
        self.window = Some(window);
        self.workspace_index = Some(workspace_index);
    }

    pub fn get(&self) -> (r: (Option<WindowElement>, Option<usize>))
        ensures
            r == (self.window_of(), self.workspace_index_of()),
    {
        (self.window, self.workspace_index)
    }

    /// Empties the record and returns what it held.
    pub fn clear(&mut self) -> (r: (Option<WindowElement>, Option<usize>))
        ensures
            r == (old(self).window_of(), old(self).workspace_index_of()),
            final(self).window_of() is None,
            final(self).workspace_index_of() is None,
    {
        let r = (self.window, self.workspace_index);
        self.window = None;
        self.workspace_index = None;
        r
    }

    /// The fullscreen window, when it went fullscreen on the workspace with
    /// index `current_index`.
    pub fn window_on(&self, current_index: usize) -> (r: Option<WindowElement>)
        ensures
            r == (match (self.window_of(), self.workspace_index_of()) {
                (Some(w), Some(i)) => if i == current_index { Some(w) } else { None },
                _ => None,
            }),
    {
        match self.get() {
            (Some(window), Some(workspace_index)) => {
                if workspace_index == current_index {
                    Some(window)
                } else {
                    None
                }
            },
            _ => None,
        }
    }
}

/// A number drawn uniformly from `[low, high)` by `rand`'s `Uniform`
/// distribution with the thread-local generator. Claimed: the number lies
/// in that range (`Uniform::new` panics unless `low < high`, which the
/// precondition rules out). Which number comes out is left open.
#[verifier::external_body]
fn sample_uniform(low: i32, high: i32) -> (r: i32)
    requires
        low < high,
    ensures
        low <= r < high,
{
    rand::distributions::Uniform::new(low, high).sample(&mut rand::thread_rng())
}

/// What kind of surface committed, for its first configure.
#[derive(Debug, Clone, Copy, PartialEq, Eq, Structural)]
pub enum SurfaceKind {
    /// The surface of a window; `wayland` is false for an X11 window.
    Window { wayland: bool },
    /// An xdg popup.
    XdgPopup,
    /// An input-method popup, which needs no configure.
    InputMethodPopup,
    /// A layer surface of some output.
    LayerSurface,
    /// Anything else.
    Other,
}

/// What a commit asks for before the surface is shown.
#[derive(Debug, Clone, Copy, PartialEq, Eq, Structural)]
pub struct InitialConfigure {
    /// Send the surface its first configure.
    pub send_configure: bool,
    /// Lay out the tiled windows of every workspace again.
    pub retile_all: bool,
}

/// After a commit of a surface of kind `kind`: an xdg toplevel, an xdg
/// popup or a layer surface that has not had its first configure
/// (`configure_sent` false) gets it; when the commit of a layer surface
/// changed the arrangement of its output's layers (`layers_changed`, known
/// after arranging them), every workspace is tiled again.
pub fn initial_configure_action(kind: SurfaceKind, configure_sent: bool, layers_changed: bool) -> (r: InitialConfigure)
    ensures
        r.send_configure == (!configure_sent && match kind {
            SurfaceKind::Window { wayland } => wayland,
            SurfaceKind::XdgPopup => true,
            SurfaceKind::LayerSurface => true,
            _ => false,
        }),
        r.retile_all == (kind == SurfaceKind::LayerSurface && layers_changed),
{
    match kind {
        SurfaceKind::Window { wayland } => InitialConfigure { send_configure: wayland && !configure_sent, retile_all: false },
        SurfaceKind::XdgPopup => InitialConfigure { send_configure: !configure_sent, retile_all: false },
        SurfaceKind::InputMethodPopup => InitialConfigure { send_configure: false, retile_all: false },
        SurfaceKind::LayerSurface => InitialConfigure { send_configure: !configure_sent, retile_all: layers_changed },
        SurfaceKind::Other => InitialConfigure { send_configure: false, retile_all: false },
    }
}

/// The area new windows are placed in: the part of the output's
/// geometry `output` that layer surfaces leave free (`zone`, relative to
/// the output), or the square from (0, 0) to (800, 800) when there is no
/// output.
pub fn placement_area(output: Option<(Rectangle, Rectangle)>) -> (r: Rectangle)
    requires
        output matches Some((geo, zone)) ==> fits_i32(geo.loc.x + zone.loc.x) && fits_i32(geo.loc.y + zone.loc.y),
    ensures
        r == match output {
            Some((geo, zone)) => Rectangle {
                loc: Point { x: (geo.loc.x + zone.loc.x) as i32, y: (geo.loc.y + zone.loc.y) as i32 },
                size: zone.size,
            },
            None => Rectangle { loc: Point { x: 0, y: 0 }, size: Size { w: 800, h: 800 } },
        },
{
    match output {
        Some((geo, zone)) => Rectangle {
            loc: Point { x: geo.loc.x + zone.loc.x, y: geo.loc.y + zone.loc.y },
            size: zone.size,
        },
        None => Rectangle { loc: Point { x: 0, y: 0 }, size: Size { w: 800, h: 800 } },
    }
}

/// Places `window` on top of the floating layer at a random point of
/// `[area.loc.x, max_x) x [area.loc.y, max_y)`, the upper-left two thirds
/// of the placement area.
pub fn place_new_window(layer: &mut FloatingLayout, window: WindowElement, area: Rectangle, max_x: i32, max_y: i32) -> (p: Point)
    requires
        old(layer).wf(),
        area.loc.x < max_x,
        area.loc.y < max_y,
    ensures
        final(layer).wf(),
        area.loc.x <= p.x < max_x,
        area.loc.y <= p.y < max_y,
        final(layer).stack() == without(old(layer).stack(), window).push((window, p)),
        final(layer).mapped_outputs() == old(layer).mapped_outputs(),
{
    let x = sample_uniform(area.loc.x, max_x);
    let y = sample_uniform(area.loc.y, max_y);
    let p = Point { x, y };
    layer.map_element(window, p);
    p
}

} // verus!
