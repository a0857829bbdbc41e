//! Geometry for positioning xdg popups, and the starts of interactive moves
//! and resizes that xdg toplevels request.
use vstd::prelude::*;

use crate::element::WindowElement;
use crate::geometry::{fits_i32, Point, Rectangle, Size};
use crate::grabs::move_grab::MoveSurfaceGrab;
use crate::grabs::resize_grab::{
    resize_start_fits, resize_start_rect, start_resize, starts_resize, xdg_edge_bits, ResizeEdge,
    ResizeSurfaceGrab, ResizeSurfaceState, XdgResizeEdge,
};
use crate::workspace::{surface_owner, Workspace, Workspaces};

verus! {

/// The margin kept between a popup and the edges of its target area when
/// there is room for it.
pub const POPUP_PADDING: i32 = 8;

/// The target area shrunk by the padding on each side of a dimension that
/// is more than twice the padding.
pub open spec fn padded(target: Rectangle) -> Rectangle {
    let pad_w = 2 * POPUP_PADDING < target.size.w;
    let pad_h = 2 * POPUP_PADDING < target.size.h;
    Rectangle {
        loc: Point {
            x: if pad_w { (target.loc.x + POPUP_PADDING) as i32 } else { target.loc.x },
            y: if pad_h { (target.loc.y + POPUP_PADDING) as i32 } else { target.loc.y },
        },
        size: Size {
            w: if pad_w { (target.size.w - 2 * POPUP_PADDING) as i32 } else { target.size.w },
            h: if pad_h { (target.size.h - 2 * POPUP_PADDING) as i32 } else { target.size.h },
        },
    }
}

/// The padded target area a popup is first fitted into.
pub fn padded_target(target: Rectangle) -> (r: Rectangle)
    requires
        fits_i32(target.loc.x + POPUP_PADDING),
        fits_i32(target.loc.y + POPUP_PADDING),
    ensures
        r == padded(target),
{
    let mut padded = target;
    if POPUP_PADDING * 2 < padded.size.w {
        padded.loc.x = padded.loc.x + POPUP_PADDING;
        padded.size.w = padded.size.w - POPUP_PADDING * 2;
    }
    if POPUP_PADDING * 2 < padded.size.h {
        padded.loc.y = padded.loc.y + POPUP_PADDING;
        padded.size.h = padded.size.h - POPUP_PADDING * 2;
    }
    padded
}

/// The area a popup must stay in, relative to its parent: the output
/// (of size `output_size`) seen from the parent's location `parent_loc`
/// and the popup's offset `popup_offset` from its toplevel.
pub fn popup_target(output_size: Size, parent_loc: Point, popup_offset: Point) -> (r: Rectangle)
    requires
        fits_i32(-parent_loc.x - popup_offset.x),
        fits_i32(-parent_loc.y - popup_offset.y),
        fits_i32(-(parent_loc.x as int)),
        fits_i32(-(parent_loc.y as int)),
    ensures
        r == (Rectangle {
            loc: Point { x: (-parent_loc.x - popup_offset.x) as i32, y: (-parent_loc.y - popup_offset.y) as i32 },
            size: output_size,
        }),
{
    let mut target = Rectangle { loc: Point { x: 0, y: 0 }, size: output_size };
    target.loc.x = target.loc.x - parent_loc.x;
    target.loc.y = target.loc.y - parent_loc.y;
    target.loc.x = target.loc.x - popup_offset.x;
    target.loc.y = target.loc.y - popup_offset.y;
    target
}

/// The first workspace in `spaces` with a window on `surface`, and that
/// window.
fn find_surface_owner<'a>(spaces: &Vec<&'a Workspace>, surface: u64) -> (r: Option<(&'a Workspace, WindowElement)>)
    requires
        forall|i: int| 0 <= i < spaces@.len() ==> (#[trigger] spaces@[i]).wf(),
    ensures
        match r {
            Some((ws, w)) => surface_owner(spaces@.map_values(|x: &Workspace| *x), surface) == Some((*ws, w))
                && ws.wf(),
            None => surface_owner(spaces@.map_values(|x: &Workspace| *x), surface) is None,
        },
{
    let ghost all = spaces@.map_values(|x: &Workspace| *x);
    assert(all.skip(0) =~= all);
    let mut i: usize = 0;
    while i < spaces.len()
        invariant
            i <= spaces@.len(),
            all == spaces@.map_values(|x: &Workspace| *x),
            forall|k: int| 0 <= k < spaces@.len() ==> (#[trigger] spaces@[k]).wf(),
            surface_owner(all, surface) == surface_owner(all.skip(i as int), surface),
        decreases spaces@.len() - i,
    {
        let ws: &Workspace = spaces[i];
        proof {
            assert(all.skip(i as int)[0] == *ws);
            assert(all.skip(i as int).drop_first() =~= all.skip(i + 1));
        }
        match ws.window_for_surface(surface) {
            Some(w) => return Some((ws, w)),
            None => {},
        }
        i = i + 1;
    }
    proof {
        assert(all.skip(i as int).len() == 0);
    }
    None
}

/// Starts moving the window on `surface`, looked for in all workspaces,
/// when the pointer grab that asks for it began on the same client
/// (`same_client`). The move starts from the window's place, or, for a
/// maximized window, which the caller takes out of that state, from the
/// pointer's position `pointer`. `None` when no window has the surface or
/// the grab belongs to another client.
pub fn move_request_xdg(
    workspaces: &Workspaces,
    surface: u64,
    same_client: bool,
    maximized: bool,
    pointer: Point,
) -> (r: Option<MoveSurfaceGrab>)
    requires
        workspaces.wf(),
    ensures
        r == match surface_owner(workspaces.all_spaces(), surface) {
            Some((ws, w)) => if !same_client {
                None
            } else {
                match ws.location_of(w) {
                    Some(loc) => Some(MoveSurfaceGrab {
                        window: w,
                        initial_window_location: if maximized { pointer } else { loc },
                    }),
                    None => None,
                }
            },
            None => None,
        },
{
    let spaces = workspaces.workspaces();
    proof {
        assert(spaces@.map_values(|x: &Workspace| *x) =~= workspaces.all_spaces());
    }
    let (ws, window) = match find_surface_owner(&spaces, surface) {
        Some(found) => found,
        None => return None,
    };
    if !same_client {
        return None;
    }
    let loc = match ws.window_location(&window) {
        Some(loc) => loc,
        None => return None,
    };
    let initial_window_location = if maximized { pointer } else { loc };
    Some(MoveSurfaceGrab { window, initial_window_location })
}

/// Starts an interactive resize by `edge` of the window on `surface`,
/// looked for in all workspaces; the window's size is `size` and its
/// server-side title bar, if it has one, is `title_bar` high and is not
/// counted in the height. `None` when the window has no place.
pub fn resize_request_xdg(
    workspaces: &Workspaces,
    surface: u64,
    edge: XdgResizeEdge,
    size: Size,
    title_bar: Option<i32>,
) -> (r: Option<(ResizeSurfaceGrab, ResizeSurfaceState)>)
    requires
        workspaces.wf(),
        surface_owner(workspaces.all_spaces(), surface) is Some,
        surface_owner(workspaces.all_spaces(), surface) matches Some((ws, w)) && ws.location_of(w) matches Some(
            loc,
        ) ==> resize_start_fits(loc, size, title_bar, false),
    ensures
        match surface_owner(workspaces.all_spaces(), surface) {
            Some((ws, w)) => match ws.location_of(w) {
                Some(loc) => r matches Some((grab, state)) && starts_resize(
                    grab,
                    state,
                    w,
                    xdg_edge_bits(edge),
                    resize_start_rect(loc, size, title_bar, false),
                ),
                None => r is None,
            },
            None => r is None,
        },
{
    let spaces = workspaces.workspaces();
    proof {
        assert(spaces@.map_values(|x: &Workspace| *x) =~= workspaces.all_spaces());
    }
    let (ws, window) = match find_surface_owner(&spaces, surface) {
        Some(found) => found,
        None => return None,
    };
    let loc = match ws.window_location(&window) {
        Some(loc) => loc,
        None => return None,
    };
    Some(start_resize(window, ResizeEdge::from_xdg(edge), loc, size, title_bar, false))
}

} // verus!
