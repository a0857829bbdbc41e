//! Which surface the pointer is over, and where keyboard focus goes.
use vstd::prelude::*;

use crate::element::WindowElement;
use crate::geometry::{fits_i32, Point};
use crate::input::ModifiersState;
use crate::shell::layout::space::topmost_hit;
use crate::shell::FullscreenSurface;
use crate::workspace::WorkspaceSet;
use crate::{BTN_LEFT, BTN_RIGHT};

verus! {

/// Something that can hold pointer or keyboard focus: a window, or a
/// layer-shell surface known by its id.
#[derive(Debug, Clone, Copy, PartialEq, Eq, Structural)]
pub enum FocusTarget {
    Window(WindowElement),
    LayerSurface(u64),
}

/// `a + b`, when it fits.
pub open spec fn offset(a: Point, b: Point) -> Point {
    Point { x: (a.x + b.x) as i32, y: (a.y + b.y) as i32 }
}

/// The sum of two points fits in `i32`.
pub open spec fn offset_fits(a: Point, b: Point) -> bool {
    fits_i32(a.x + b.x) && fits_i32(a.y + b.y)
}

fn add_points(a: Point, b: Point) -> (r: Point)
    requires
        offset_fits(a, b),
    ensures
        r == offset(a, b),
{
    Point { x: a.x + b.x, y: a.y + b.y }
}

/// What lies under the pointer, by the priority `surface_under` describes.
pub open spec fn target_under(
    output_loc: Option<Point>,
    fullscreen: Option<WindowElement>,
    upper_layer: Option<(u64, Point)>,
    override_redirect: Option<(WindowElement, Point)>,
    window: Option<(WindowElement, Point)>,
    lower_layer: Option<(u64, Point)>,
) -> Option<(FocusTarget, Point)> {
    match output_loc {
        None => None,
        Some(o) => if let Some(w) = fullscreen {
            Some((FocusTarget::Window(w), o))
        } else if let Some((l, p)) = upper_layer {
            Some((FocusTarget::LayerSurface(l), offset(o, p)))
        } else if let Some((w, p)) = override_redirect {
            Some((FocusTarget::Window(w), offset(o, p)))
        } else if let Some((w, p)) = window {
            Some((FocusTarget::Window(w), p))
        } else if let Some((l, p)) = lower_layer {
            Some((FocusTarget::LayerSurface(l), offset(o, p)))
        } else {
            None
        },
    }
}

/// What lies under the pointer on the output it is over, most important
/// first: the output's fullscreen window (when it went fullscreen on the
/// current workspace); an overlay or top layer surface; an X11
/// override-redirect window; a window of the current workspace; a bottom or
/// background layer surface. `output_loc` is the output's location, `None`
/// when the pointer is over no output. Layer surfaces and override-redirect
/// windows come with their location relative to the output, a workspace
/// window with its global location. The result is the target with its
/// global location.
pub fn surface_under(
    output_loc: Option<Point>,
    fullscreen: Option<WindowElement>,
    upper_layer: Option<(u64, Point)>,
    override_redirect: Option<(WindowElement, Point)>,
    window: Option<(WindowElement, Point)>,
    lower_layer: Option<(u64, Point)>,
) -> (r: Option<(FocusTarget, Point)>)
    requires
        output_loc matches Some(o) ==> {
            &&& upper_layer matches Some((_, l)) ==> offset_fits(o, l)
            &&& override_redirect matches Some((_, l)) ==> offset_fits(o, l)
            &&& lower_layer matches Some((_, l)) ==> offset_fits(o, l)
        },
    ensures
        r == target_under(output_loc, fullscreen, upper_layer, override_redirect, window, lower_layer),
{
    let output_loc = match output_loc {
        Some(o) => o,
        None => {
            return None;
        },
    };
    if let Some(w) = fullscreen {
        return Some((FocusTarget::Window(w), output_loc));
    }
    if let Some((layer, layer_loc)) = upper_layer {
        return Some((FocusTarget::LayerSurface(layer), add_points(output_loc, layer_loc)));
    }
    if let Some((w, loc)) = override_redirect {
        return Some((FocusTarget::Window(w), add_points(output_loc, loc)));
    }
    if let Some((w, loc)) = window {
        return Some((FocusTarget::Window(w), loc));
    }
    if let Some((layer, layer_loc)) = lower_layer {
        return Some((FocusTarget::LayerSurface(layer), add_points(output_loc, layer_loc)));
    }
    None
}

/// The keyboard focus after a switch of the current workspace of `set`:
/// what lies under the pointer (by `target_under`) on the new current
/// workspace. The output's fullscreen window counts when its record
/// `fullscreen` names the current workspace; the workspace window is the
/// one `window_under` picks among `hits`, the windows whose input region
/// holds the pointer; the other arguments are as for `surface_under`.
pub fn focus_after_switch(
    set: &WorkspaceSet,
    output_loc: Option<Point>,
    fullscreen: &FullscreenSurface,
    upper_layer: Option<(u64, Point)>,
    override_redirect: Option<(WindowElement, Point)>,
    hits: &[WindowElement],
    lower_layer: Option<(u64, Point)>,
) -> (r: Option<FocusTarget>)
    requires
        set.wf(),
        set.spaces().len() > 0,
        output_loc matches Some(o) ==> {
            &&& upper_layer matches Some((_, l)) ==> offset_fits(o, l)
            &&& override_redirect matches Some((_, l)) ==> offset_fits(o, l)
            &&& lower_layer matches Some((_, l)) ==> offset_fits(o, l)
        },
    ensures
        ({
            let ws = set.spaces()[set.current_index() as int];
            let full = match (fullscreen.window_of(), fullscreen.workspace_index_of()) {
                (Some(w), Some(i)) => if i == set.current_index() { Some(w) } else { None },
                _ => None,
            };
            let window = match topmost_hit(ws.floating_layer.stack(), hits@) {
                Some(h) => Some(h),
                None => topmost_hit(ws.tiling_layer.stack(), hits@),
            };
            r == match target_under(output_loc, full, upper_layer, override_redirect, window, lower_layer) {
                Some((f, _)) => Some(f),
                None => None,
            }
        }),
{
    let full = fullscreen.window_on(set.current_workspace_index());
    let window = set.current_workspace().window_under(hits);
    match surface_under(output_loc, full, upper_layer, override_redirect, window, lower_layer) {
        Some((f, _)) => Some(f),
        None => None,
    }
}

/// What to do with keyboard focus.
#[derive(Debug, Clone, Copy, PartialEq, Eq, Structural)]
pub enum FocusChange {
    /// Leave it as it is.
    Keep,
    /// Give it to the target.
    Focus(FocusTarget),
    /// Raise the window in its workspace and give it focus.
    RaiseAndFocus(WindowElement),
}

/// Where keyboard focus goes when the pointer clicks: nowhere new while
/// the pointer is grabbed, or while the keyboard is grabbed by anything but
/// an input method. Otherwise, most important first: the fullscreen window
/// under the pointer; a focusable overlay or top layer surface under it;
/// the window under it, which is also raised; a focusable bottom or
/// background layer surface under it. The arguments name what is under the
/// pointer in each of these places.
pub fn update_keyboard_focus(
    pointer_grabbed: bool,
    keyboard_grabbed: bool,
    input_method_grabbed: bool,
    fullscreen_hit: Option<WindowElement>,
    upper_layer_hit: Option<u64>,
    window_under: Option<WindowElement>,
    lower_layer_hit: Option<u64>,
) -> (r: FocusChange)
    ensures
        r == (if pointer_grabbed || (keyboard_grabbed && !input_method_grabbed) {
            FocusChange::Keep
        } else if fullscreen_hit is Some {
            FocusChange::Focus(FocusTarget::Window(fullscreen_hit->0))
        } else if upper_layer_hit is Some {
            FocusChange::Focus(FocusTarget::LayerSurface(upper_layer_hit->0))
        } else if window_under is Some {
            FocusChange::RaiseAndFocus(window_under->0)
        } else if lower_layer_hit is Some {
            FocusChange::Focus(FocusTarget::LayerSurface(lower_layer_hit->0))
        } else {
            FocusChange::Keep
        }),
{
    if !pointer_grabbed && (!keyboard_grabbed || input_method_grabbed) {
        if let Some(window) = fullscreen_hit {
            return FocusChange::Focus(FocusTarget::Window(window));
        }
        if let Some(layer) = upper_layer_hit {
            return FocusChange::Focus(FocusTarget::LayerSurface(layer));
        }
        if let Some(window) = window_under {
            return FocusChange::RaiseAndFocus(window);
        }
        if let Some(layer) = lower_layer_hit {
            return FocusChange::Focus(FocusTarget::LayerSurface(layer));
        }
    }
    FocusChange::Keep
}

/// What a button press does to focus in a nested session.
#[derive(Debug, Clone, Copy, PartialEq, Eq, Structural)]
pub enum ButtonFocus {
    /// Nothing changes.
    Unchanged,
    /// Raise the window, focus it, and send pending configures.
    Focus(WindowElement),
    /// Deactivate every window of the workspace and clear keyboard focus.
    Clear,
}

/// A press while the pointer is not grabbed raises and focuses the window
/// under the pointer, or clears focus when there is none.
pub fn button_focus(pressed: bool, pointer_grabbed: bool, window_under: Option<WindowElement>) -> (r: ButtonFocus)
    ensures
        r == (if pressed && !pointer_grabbed {
            match window_under {
                Some(w) => ButtonFocus::Focus(w),
                None => ButtonFocus::Clear,
            }
        } else {
            ButtonFocus::Unchanged
        }),
{
    if pressed && !pointer_grabbed {
        match window_under {
            Some(w) => ButtonFocus::Focus(w),
            None => ButtonFocus::Clear,
        }
    } else {
        ButtonFocus::Unchanged
    }
}

/// A pointer grab that a button press starts.
#[derive(Debug, Clone, Copy, PartialEq, Eq, Structural)]
pub enum GrabRequest {
    /// Move the window under the pointer.
    Move,
    /// Resize the window under the pointer.
    Resize,
}

/// Logo with the left button starts moving, Logo with the right button
/// starts resizing, the window under the pointer; only on a press, while
/// shortcuts are not inhibited and neither keyboard nor pointer is grabbed.
pub fn grab_for_button(
    pressed: bool,
    shortcuts_inhibited: bool,
    modifiers: &ModifiersState,
    button: u32,
    keyboard_grabbed: bool,
    pointer_grabbed: bool,
    window_under: bool,
) -> (r: Option<GrabRequest>)
    ensures
        r == (if pressed && !shortcuts_inhibited && modifiers.logo && !keyboard_grabbed && !pointer_grabbed
            && window_under {
            if button == BTN_LEFT {
                Some(GrabRequest::Move)
            } else if button == BTN_RIGHT {
                Some(GrabRequest::Resize)
            } else {
                None
            }
        } else {
            None
        }),
{
    if !pressed || shortcuts_inhibited || !modifiers.logo || keyboard_grabbed || pointer_grabbed || !window_under {
        return None;
    }
    if button == BTN_LEFT {
        Some(GrabRequest::Move)
    } else if button == BTN_RIGHT {
        Some(GrabRequest::Resize)
    } else {
        None
    }
}

} // verus!
