//! Interactive resizing of a window by one of its edges or corners.
use vstd::prelude::*;

use crate::element::WindowElement;
use crate::geometry::{fits_i32, Point, Rectangle, Size};
use crate::shell::layout::space::{first_with_surface, holds, without};
use crate::workspace::{window_holder, Workspace, Workspaces};
use crate::{BTN_LEFT, BTN_RIGHT};

verus! {

/// A set of window edges, as bits: top 1, bottom 2, left 4, right 8.
#[derive(Debug, Clone, Copy, PartialEq, Eq, Structural)]
pub struct ResizeEdge {
    bits: u32,
}

/// The edges of the `resize_edge` enum of the xdg-shell protocol.
#[derive(Debug, Clone, Copy, PartialEq, Eq, Structural)]
pub enum XdgResizeEdge {
    NoEdge,
    Top,
    Bottom,
    Left,
    TopLeft,
    BottomLeft,
    Right,
    TopRight,
    BottomRight,
}

/// The edges an X11 client may ask to resize by.
#[derive(Debug, Clone, Copy, PartialEq, Eq, Structural)]
pub enum X11ResizeEdge {
    Top,
    Bottom,
    Left,
    Right,
    TopLeft,
    BottomLeft,
    TopRight,
    BottomRight,
}

/// The edge bits an xdg-shell resize request names: top 1, bottom 2, left
/// 4, right 8, and their sums for the corners.
pub open spec fn xdg_edge_bits(edge: XdgResizeEdge) -> u32 {
    match edge {
        XdgResizeEdge::NoEdge => 0u32,
        XdgResizeEdge::Top => 1u32,
        XdgResizeEdge::Bottom => 2u32,
        XdgResizeEdge::Left => 4u32,
        XdgResizeEdge::TopLeft => 5u32,
        XdgResizeEdge::BottomLeft => 6u32,
        XdgResizeEdge::Right => 8u32,
        XdgResizeEdge::TopRight => 9u32,
        XdgResizeEdge::BottomRight => 10u32,
    }
}

/// The edge bits an X11 resize request names, as for xdg-shell.
pub open spec fn x11_edge_bits(edge: X11ResizeEdge) -> u32 {
    match edge {
        X11ResizeEdge::Top => 1u32,
        X11ResizeEdge::Bottom => 2u32,
        X11ResizeEdge::Left => 4u32,
        X11ResizeEdge::Right => 8u32,
        X11ResizeEdge::TopLeft => 5u32,
        X11ResizeEdge::BottomLeft => 6u32,
        X11ResizeEdge::TopRight => 9u32,
        X11ResizeEdge::BottomRight => 10u32,
    }
}

impl ResizeEdge {
    pub fn top() -> (e: ResizeEdge)
        ensures
            e.bits_of() == 1u32,
    {
        ResizeEdge { bits: 1 }
    }

    pub fn bottom() -> (e: ResizeEdge)
        ensures
            e.bits_of() == 2u32,
    {
        ResizeEdge { bits: 2 }
    }

    pub fn left() -> (e: ResizeEdge)
        ensures
            e.bits_of() == 4u32,
    {
        ResizeEdge { bits: 4 }
    }

    pub fn right() -> (e: ResizeEdge)
        ensures
            e.bits_of() == 8u32,
    {
        ResizeEdge { bits: 8 }
    }

    pub fn top_left() -> (e: ResizeEdge)
        ensures
            e.bits_of() == 5u32,
    {
        ResizeEdge { bits: 5 }
    }

    pub fn bottom_left() -> (e: ResizeEdge)
        ensures
            e.bits_of() == 6u32,
    {
        ResizeEdge { bits: 6 }
    }

    pub fn top_right() -> (e: ResizeEdge)
        ensures
            e.bits_of() == 9u32,
    {
        ResizeEdge { bits: 9 }
    }

    pub fn bottom_right() -> (e: ResizeEdge)
        ensures
            e.bits_of() == 10u32,
    {
        ResizeEdge { bits: 10 }
    }

    pub closed spec fn bits_of(self) -> u32 {
        self.bits
    }

    /// The set holds only the four known edges.
    pub open spec fn wf(self) -> bool {
        self.bits_of() & 0xf == self.bits_of()
    }

    pub fn bits(&self) -> (r: u32)
        ensures
            r == self.bits_of(),
    {
        self.bits
    }

    pub fn empty() -> (e: ResizeEdge)
        ensures
            e.bits_of() == 0,
            e.wf(),
    {
        assert(0u32 & 0xf == 0u32) by (bit_vector);
        ResizeEdge { bits: 0 }
    }

    /// The set with these bits, unless some bit names no edge.
    pub fn from_bits(bits: u32) -> (r: Option<ResizeEdge>)
        ensures
            (r is Some) == (bits & 0xf == bits),
            r matches Some(e) ==> e.bits_of() == bits && e.wf(),
    {
        if bits & 0xf == bits {
            Some(ResizeEdge { bits })
        } else {
            None
        }
    }

    /// Whether the two sets share an edge.
    pub fn intersects(&self, other: ResizeEdge) -> (r: bool)
        ensures
            r == (self.bits_of() & other.bits_of() != 0),
    {
        self.bits & other.bits != 0
    }

    /// Whether every edge of `other` is in the set.
    pub fn contains(&self, other: ResizeEdge) -> (r: bool)
        ensures
            r == (self.bits_of() & other.bits_of() == other.bits_of()),
    {
        self.bits & other.bits == other.bits
    }

    /// The edges of either set.
    pub fn union(&self, other: ResizeEdge) -> (r: ResizeEdge)
        ensures
            r.bits_of() == self.bits_of() | other.bits_of(),
    {
        ResizeEdge { bits: self.bits | other.bits }
    }

    /// The edges named by an xdg-shell resize request.
    pub fn from_xdg(edge: XdgResizeEdge) -> (r: ResizeEdge)
        ensures
            r.wf(),
            r.bits_of() == xdg_edge_bits(edge),
    {
        let bits: u32 = match edge {
            XdgResizeEdge::NoEdge => 0,
            XdgResizeEdge::Top => 1,
            XdgResizeEdge::Bottom => 2,
            XdgResizeEdge::Left => 4,
            XdgResizeEdge::TopLeft => 5,
            XdgResizeEdge::BottomLeft => 6,
            XdgResizeEdge::Right => 8,
            XdgResizeEdge::TopRight => 9,
            XdgResizeEdge::BottomRight => 10,
        };
        assert(bits <= 10 ==> bits & 0xf == bits) by (bit_vector);
        ResizeEdge { bits }
    }

    /// The edges named by an X11 resize request.
    pub fn from_x11(edge: X11ResizeEdge) -> (r: ResizeEdge)
        ensures
            r.wf(),
            r.bits_of() == x11_edge_bits(edge),
    {
        let r = match edge {
            X11ResizeEdge::Top => ResizeEdge::top(),
            X11ResizeEdge::Bottom => ResizeEdge::bottom(),
            X11ResizeEdge::Left => ResizeEdge::left(),
            X11ResizeEdge::Right => ResizeEdge::right(),
            X11ResizeEdge::TopLeft => ResizeEdge::top_left(),
            X11ResizeEdge::BottomLeft => ResizeEdge::bottom_left(),
            X11ResizeEdge::TopRight => ResizeEdge::top_right(),
            X11ResizeEdge::BottomRight => ResizeEdge::bottom_right(),
        };
        let bits = r.bits;
        assert(bits <= 10 ==> bits & 0xf == bits) by (bit_vector);
        r
    }
}

/// Where a window stands in an interactive resize. It is kept per surface.
#[derive(Debug, Clone, Copy, PartialEq, Eq, Structural)]
pub enum ResizeSurfaceState {
    Idle,
    /// A resize grab is running, started on `initial_rect`.
    Resizing { edges: ResizeEdge, initial_rect: Rectangle },
    /// The grab is over; the window's last commit settles its position.
    WaitingForLastCommit { edges: ResizeEdge, initial_rect: Rectangle },
}

/// What a commit reports of a state: the edges and the start rectangle of
/// a resize, when one is running or just ended.
pub open spec fn commit_report(s: ResizeSurfaceState) -> Option<(ResizeEdge, Rectangle)> {
    match s {
        ResizeSurfaceState::Idle => None,
        ResizeSurfaceState::Resizing { edges, initial_rect } => Some((edges, initial_rect)),
        ResizeSurfaceState::WaitingForLastCommit { edges, initial_rect } => Some((edges, initial_rect)),
    }
}

/// The state after a commit: a resize that ended is done.
pub open spec fn state_after_commit(s: ResizeSurfaceState) -> ResizeSurfaceState {
    match s {
        ResizeSurfaceState::WaitingForLastCommit { .. } => ResizeSurfaceState::Idle,
        _ => s,
    }
}

/// The new x of a window resized by its left edge: its right edge stays
/// where it was when the resize started.
pub open spec fn moved_x(edges: ResizeEdge, initial: Rectangle, size: Size) -> Option<i32> {
    if edges.bits_of() & 5 != 0 && edges.bits_of() & 4 != 0 {
        Some((initial.loc.x + (initial.size.w - size.w)) as i32)
    } else {
        None
    }
}

/// The new y of a window resized by its top edge: its bottom edge stays
/// where it was when the resize started.
pub open spec fn moved_y(edges: ResizeEdge, initial: Rectangle, size: Size) -> Option<i32> {
    if edges.bits_of() & 5 != 0 && edges.bits_of() & 1 != 0 {
        Some((initial.loc.y + (initial.size.h - size.h)) as i32)
    } else {
        None
    }
}

/// The location `loc` of a window of size `size` after a commit in state
/// `s`, when the resize moves it; `None` when it stays.
pub open spec fn location_after_commit(s: ResizeSurfaceState, loc: Point, size: Size) -> Option<Point> {
    match commit_report(s) {
        Some((edges, initial)) => {
            let x = moved_x(edges, initial, size);
            let y = moved_y(edges, initial, size);
            if x is Some || y is Some {
                Some(
                    Point {
                        x: if x is Some { x->0 } else { loc.x },
                        y: if y is Some { y->0 } else { loc.y },
                    },
                )
            } else {
                None
            }
        },
        None => None,
    }
}

/// The moves of a commit fit in `i32`.
pub open spec fn commit_fits(s: ResizeSurfaceState, size: Size) -> bool {
    match commit_report(s) {
        Some((_, initial)) => {
            &&& fits_i32(initial.size.w - size.w)
            &&& fits_i32(initial.loc.x + (initial.size.w - size.w))
            &&& fits_i32(initial.size.h - size.h)
            &&& fits_i32(initial.loc.y + (initial.size.h - size.h))
        },
        None => true,
    }
}

/// A resize that ended is reported by the next commit, which ends it: the
/// commit after that reports nothing. A running resize is reported by every
/// commit and keeps running.
pub proof fn law_commit_ends_finished_resize_once(edges: ResizeEdge, initial_rect: Rectangle)
    ensures
        commit_report(ResizeSurfaceState::WaitingForLastCommit { edges, initial_rect }) == Some((edges, initial_rect)),
        commit_report(state_after_commit(ResizeSurfaceState::WaitingForLastCommit { edges, initial_rect })) is None,
        commit_report(ResizeSurfaceState::Resizing { edges, initial_rect }) == Some((edges, initial_rect)),
        state_after_commit(ResizeSurfaceState::Resizing { edges, initial_rect }) == (ResizeSurfaceState::Resizing {
            edges,
            initial_rect,
        }),
{
}

/// A resize by the left edge keeps the right edge where it was when the
/// resize started, and one by the top edge keeps the bottom edge.
pub proof fn law_resize_keeps_opposite_edge(edges: ResizeEdge, initial: Rectangle, size: Size)
    requires
        fits_i32(initial.loc.x + (initial.size.w - size.w)),
        fits_i32(initial.loc.y + (initial.size.h - size.h)),
    ensures
        moved_x(edges, initial, size) matches Some(x) ==> x + size.w == initial.loc.x + initial.size.w,
        moved_y(edges, initial, size) matches Some(y) ==> y + size.h == initial.loc.y + initial.size.h,
        edges.bits_of() & 4 == 0 ==> moved_x(edges, initial, size) is None,
        edges.bits_of() & 1 == 0 ==> moved_y(edges, initial, size) is None,
        edges.bits_of() & 4 != 0 ==> (moved_x(edges, initial, size) matches Some(x) && x + size.w == initial.loc.x
            + initial.size.w),
        edges.bits_of() & 1 != 0 ==> (moved_y(edges, initial, size) matches Some(y) && y + size.h == initial.loc.y
            + initial.size.h),
{
    let b = edges.bits_of();
    assert(b & 4 != 0 ==> b & 5 != 0) by (bit_vector);
    assert(b & 1 != 0 ==> b & 5 != 0) by (bit_vector);
}

/// Where the commit that settles a resize puts a window that stands at
/// `loc` and now has size `size`: resized by its left edge, its right edge
/// stays where it was when the resize started, and otherwise its x stays;
/// resized by its top edge, its bottom edge stays, and otherwise its y
/// stays. A window resized by neither the left nor the top edge does not
/// move, and nothing moves when no resize is reported.
pub proof fn law_commit_settles_location(s: ResizeSurfaceState, loc: Point, size: Size)
    requires
        commit_fits(s, size),
    ensures
        commit_report(s) is None ==> location_after_commit(s, loc, size) is None,
        commit_report(s) matches Some((edges, initial)) ==> {
            let b = edges.bits_of();
            &&& (b & 4 == 0 && b & 1 == 0) <==> location_after_commit(s, loc, size) is None
            &&& location_after_commit(s, loc, size) matches Some(p) ==> {
                &&& b & 4 != 0 ==> p.x + size.w == initial.loc.x + initial.size.w
                &&& b & 4 == 0 ==> p.x == loc.x
                &&& b & 1 != 0 ==> p.y + size.h == initial.loc.y + initial.size.h
                &&& b & 1 == 0 ==> p.y == loc.y
            }
        },
{
    if let Some((edges, initial)) = commit_report(s) {
        law_resize_keeps_opposite_edge(edges, initial, size);
    }
}

/// The edges of a corner are its two sides, for both protocols: top 1,
/// bottom 2, left 4, right 8, and each corner the union of its sides; no
/// edge names nothing, and each side and corner differs from the others.
pub proof fn law_corner_edges_are_unions()
    ensures
        xdg_edge_bits(XdgResizeEdge::NoEdge) == 0,
        xdg_edge_bits(XdgResizeEdge::Top) == 1,
        xdg_edge_bits(XdgResizeEdge::Bottom) == 2,
        xdg_edge_bits(XdgResizeEdge::Left) == 4,
        xdg_edge_bits(XdgResizeEdge::Right) == 8,
        xdg_edge_bits(XdgResizeEdge::TopLeft) == xdg_edge_bits(XdgResizeEdge::Top) | xdg_edge_bits(XdgResizeEdge::Left),
        xdg_edge_bits(XdgResizeEdge::BottomLeft) == xdg_edge_bits(XdgResizeEdge::Bottom) | xdg_edge_bits(
            XdgResizeEdge::Left,
        ),
        xdg_edge_bits(XdgResizeEdge::TopRight) == xdg_edge_bits(XdgResizeEdge::Top) | xdg_edge_bits(XdgResizeEdge::Right),
        xdg_edge_bits(XdgResizeEdge::BottomRight) == xdg_edge_bits(XdgResizeEdge::Bottom) | xdg_edge_bits(
            XdgResizeEdge::Right,
        ),
        x11_edge_bits(X11ResizeEdge::Top) == 1,
        x11_edge_bits(X11ResizeEdge::Bottom) == 2,
        x11_edge_bits(X11ResizeEdge::Left) == 4,
        x11_edge_bits(X11ResizeEdge::Right) == 8,
        x11_edge_bits(X11ResizeEdge::TopLeft) == x11_edge_bits(X11ResizeEdge::Top) | x11_edge_bits(X11ResizeEdge::Left),
        x11_edge_bits(X11ResizeEdge::BottomLeft) == x11_edge_bits(X11ResizeEdge::Bottom) | x11_edge_bits(
            X11ResizeEdge::Left,
        ),
        x11_edge_bits(X11ResizeEdge::TopRight) == x11_edge_bits(X11ResizeEdge::Top) | x11_edge_bits(X11ResizeEdge::Right),
        x11_edge_bits(X11ResizeEdge::BottomRight) == x11_edge_bits(X11ResizeEdge::Bottom) | x11_edge_bits(
            X11ResizeEdge::Right,
        ),
{
    assert(1u32 | 4u32 == 5u32) by (bit_vector);
    assert(2u32 | 4u32 == 6u32) by (bit_vector);
    assert(1u32 | 8u32 == 9u32) by (bit_vector);
    assert(2u32 | 8u32 == 10u32) by (bit_vector);
}

impl ResizeSurfaceState {
    /// Called on each commit of the surface: reports the running or just
    /// ended resize, and ends one that waits for this commit.
    pub fn commit(&mut self) -> (r: Option<(ResizeEdge, Rectangle)>)
        ensures
            r == commit_report(*old(self)),
            *final(self) == state_after_commit(*old(self)),
    {
        match *self {
            ResizeSurfaceState::Resizing { edges, initial_rect } => Some((edges, initial_rect)),
            ResizeSurfaceState::WaitingForLastCommit { edges, initial_rect } => {
                *self = ResizeSurfaceState::Idle;
                Some((edges, initial_rect))
            },
            ResizeSurfaceState::Idle => None,
        }
    }
}

/// A running resize of `window` by `edges`, started on `initial_rect`; the
/// size last asked of the window is `last_window_size`.
#[derive(Debug, Clone, Copy, PartialEq, Eq, Structural)]
pub struct ResizeSurfaceGrab {
    pub window: WindowElement,
    pub edges: ResizeEdge,
    pub initial_rect: Rectangle,
    pub last_window_size: Size,
}

/// The smallest width or height a window can be given: its minimum hint,
/// and at least 1.
pub open spec fn min_extent(hint: i32) -> i32 {
    if hint > 1 { hint } else { 1 }
}

/// The largest width or height a window can be given: its maximum hint, or
/// no bound when the hint is 0.
pub open spec fn max_extent(hint: i32) -> i32 {
    if hint == 0 { i32::MAX } else { hint }
}

/// `v` brought into `[lo, hi]`.
pub open spec fn clamped(v: i32, lo: i32, hi: i32) -> i32 {
    if v < lo { lo } else if v > hi { hi } else { v }
}

impl ResizeSurfaceGrab {
    /// A grab of `window` by `edges` that starts on `initial_rect`.
    pub fn new(window: WindowElement, edges: ResizeEdge, initial_rect: Rectangle) -> (g: ResizeSurfaceGrab)
        ensures
            g.window == window,
            g.edges == edges,
            g.initial_rect == initial_rect,
            g.last_window_size == initial_rect.size,
    {
        ResizeSurfaceGrab { window, edges, initial_rect, last_window_size: initial_rect.size }
    }

    /// Whether the pointer's movement changes the width: the grab holds the
    /// left or the right edge.
    pub fn resizes_width(&self) -> (r: bool)
        ensures
            r == (self.edges.bits_of() & 12 != 0),
    {
        assert(4u32 | 8u32 == 12u32) by (bit_vector);
        self.edges.intersects(ResizeEdge::left().union(ResizeEdge::right()))
    }

    /// Whether the pointer's movement changes the height: the grab holds the
    /// top or the bottom edge.
    pub fn resizes_height(&self) -> (r: bool)
        ensures
            r == (self.edges.bits_of() & 3 != 0),
    {
        assert(1u32 | 2u32 == 3u32) by (bit_vector);
        self.edges.intersects(ResizeEdge::top().union(ResizeEdge::bottom()))
    }

    /// Takes the size the pointer asks for, `requested`, keeps it within the
    /// window's size hints and records it as the size to give the window.
    pub fn motion(&mut self, requested: Size, min_size: Size, max_size: Size) -> (r: Size)
        requires
            min_extent(min_size.w) <= max_extent(max_size.w),
            min_extent(min_size.h) <= max_extent(max_size.h),
        ensures
            r == (Size {
                w: clamped(requested.w, min_extent(min_size.w), max_extent(max_size.w)),
                h: clamped(requested.h, min_extent(min_size.h), max_extent(max_size.h)),
            }),
            final(self).last_window_size == r,
            min_extent(min_size.w) <= r.w <= max_extent(max_size.w),
            min_extent(min_size.h) <= r.h <= max_extent(max_size.h),
            final(self).window == old(self).window,
            final(self).edges == old(self).edges,
            final(self).initial_rect == old(self).initial_rect,
    {
        let min_width = if min_size.w > 1 { min_size.w } else { 1 };
        let min_height = if min_size.h > 1 { min_size.h } else { 1 };
        let max_width = if max_size.w == 0 { i32::MAX } else { max_size.w };
        let max_height = if max_size.h == 0 { i32::MAX } else { max_size.h };
        let w = if requested.w < min_width {
            min_width
        } else if requested.w > max_width {
            max_width
        } else {
            requested.w
        };
        let h = if requested.h < min_height {
            min_height
        } else if requested.h > max_height {
            max_height
        } else {
            requested.h
        };
        self.last_window_size = Size { w, h };
        self.last_window_size
    }

    /// On a button event: once neither the left nor the right button is
    /// held the grab ends, and the window's state becomes waiting for its
    /// last commit; `None` while the grab goes on.
    pub fn button(&self, pressed_buttons: &[u32]) -> (r: Option<ResizeSurfaceState>)
        ensures
            r == (if !pressed_buttons@.contains(BTN_LEFT) && !pressed_buttons@.contains(BTN_RIGHT) {
                Some(ResizeSurfaceState::WaitingForLastCommit { edges: self.edges, initial_rect: self.initial_rect })
            } else {
                None
            }),
    {
        if !crate::input::contains_sym(pressed_buttons, BTN_LEFT) && !crate::input::contains_sym(
            pressed_buttons,
            BTN_RIGHT,
        ) {
            Some(ResizeSurfaceState::WaitingForLastCommit { edges: self.edges, initial_rect: self.initial_rect })
        } else {
            None
        }
    }
}

/// The configure a resize motion sends to the window.
#[derive(Debug, Clone, Copy, PartialEq, Eq, Structural)]
pub enum ResizeConfigure {
    /// Mark the xdg toplevel as resizing, at this size, and send the
    /// pending configure.
    Wayland(Size),
    /// Configure the X11 window with this rectangle.
    X11(Rectangle),
}

impl ResizeSurfaceGrab {
    /// What to send the window after a motion: nothing when no workspace
    /// holds it or the first that does tiles it; otherwise its new size,
    /// for an X11 window at its present place `x11_location`.
    pub fn motion_configure(&self, workspaces: &Workspaces, x11_location: Point) -> (r: Option<ResizeConfigure>)
        requires
            workspaces.wf(),
        ensures
            r == match window_holder(workspaces.all_spaces(), self.window) {
                Some(ws) => if holds(ws.tiling_layer.stack(), self.window) {
                    None
                } else {
                    match self.window {
                        WindowElement::Wayland(_) => Some(ResizeConfigure::Wayland(self.last_window_size)),
                        WindowElement::X11(_) => Some(
                            ResizeConfigure::X11(Rectangle { loc: x11_location, size: self.last_window_size }),
                        ),
                    }
                },
                None => None,
            },
    {
        let ws = match workspaces.workspace_for(&self.window) {
            Some(ws) => ws,
            None => return None,
        };
        if ws.is_tiled(&self.window) {
            return None;
        }
        match self.window {
            WindowElement::Wayland(_) => Some(ResizeConfigure::Wayland(self.last_window_size)),
            WindowElement::X11(_) => Some(ResizeConfigure::X11(Rectangle { loc: x11_location, size: self.last_window_size })),
        }
    }
}

/// The rectangle an interactive resize starts from, for a window at `loc`
/// of size `size`. A server-side title bar of height `h`, when the window
/// has one, is not counted in the height; with `below_bar` the place moves
/// down past the bar as well.
pub open spec fn resize_start_rect(loc: Point, size: Size, title_bar: Option<i32>, below_bar: bool) -> Rectangle {
    match title_bar {
        None => Rectangle { loc, size },
        Some(h) => Rectangle {
            loc: Point { x: loc.x, y: if below_bar { (loc.y + h) as i32 } else { loc.y } },
            size: Size { w: size.w, h: (size.h - h) as i32 },
        },
    }
}

/// Whether `resize_start_rect` stays within `i32`.
pub open spec fn resize_start_fits(loc: Point, size: Size, title_bar: Option<i32>, below_bar: bool) -> bool {
    match title_bar {
        None => true,
        Some(h) => fits_i32(size.h - h) && (below_bar ==> fits_i32(loc.y + h)),
    }
}

/// Whether `grab` and `state` start a resize of `window` by the edges with
/// bits `bits`, from `rect`.
pub open spec fn starts_resize(
    grab: ResizeSurfaceGrab,
    state: ResizeSurfaceState,
    window: WindowElement,
    bits: u32,
    rect: Rectangle,
) -> bool {
    &&& grab.window == window
    &&& grab.edges.wf()
    &&& grab.edges.bits_of() == bits
    &&& grab.initial_rect == rect
    &&& grab.last_window_size == rect.size
    &&& state == ResizeSurfaceState::Resizing { edges: grab.edges, initial_rect: rect }
}

/// The grab and the surface state that start a resize of `window` by
/// `edges`, for a window at `loc` of size `size`.
pub(crate) fn start_resize(
    window: WindowElement,
    edges: ResizeEdge,
    loc: Point,
    size: Size,
    title_bar: Option<i32>,
    below_bar: bool,
) -> (r: (ResizeSurfaceGrab, ResizeSurfaceState))
    requires
        edges.wf(),
        resize_start_fits(loc, size, title_bar, below_bar),
    ensures
        starts_resize(r.0, r.1, window, edges.bits_of(), resize_start_rect(loc, size, title_bar, below_bar)),
{
    let mut initial_rect = Rectangle { loc, size };
    if let Some(h) = title_bar {
        initial_rect.size.h = size.h - h;
        if below_bar {
            initial_rect.loc.y = loc.y + h;
        }
    }
    let grab = ResizeSurfaceGrab::new(window, edges, initial_rect);
    (grab, ResizeSurfaceState::Resizing { edges, initial_rect })
}

/// Called when `surface` commits with its window now of size `size`: when
/// the window belongs to `workspace` and has a location there, the resize
/// state is advanced and, when a resize by the top or left edge moved the
/// window, a floating window is placed at its new location. `None` when the
/// surface has no window there.
pub fn handle_commit(
    workspace: &mut Workspace,
    surface: u64,
    state: &mut ResizeSurfaceState,
    size: Size,
) -> (r: Option<()>)
    requires
        old(workspace).wf(),
        commit_fits(*old(state), size),
    ensures
        final(workspace).wf(),
        final(workspace).tiling_layer == old(workspace).tiling_layer,
        final(workspace).fullscreen == old(workspace).fullscreen,
        final(workspace).output == old(workspace).output,
        final(workspace).handle == old(workspace).handle,
        final(workspace).floating_layer.mapped_outputs() == old(workspace).floating_layer.mapped_outputs(),
        match first_with_surface(old(workspace).windows_view(), surface) {
            None => r is None && *final(state) == *old(state)
                && final(workspace).floating_layer == old(workspace).floating_layer,
            Some(w) => match old(workspace).location_of(w) {
                None => r is None && *final(state) == *old(state)
                    && final(workspace).floating_layer == old(workspace).floating_layer,
                Some(loc) => {
                    &&& r == Some(())
                    &&& *final(state) == state_after_commit(*old(state))
                    &&& match location_after_commit(*old(state), loc, size) {
                        Some(p) => if holds(old(workspace).floating_layer.stack(), w) {
                            final(workspace).floating_layer.stack() == without(
                                old(workspace).floating_layer.stack(),
                                w,
                            ).push((w, p))
                        } else {
                            final(workspace).floating_layer == old(workspace).floating_layer
                        },
                        None => final(workspace).floating_layer == old(workspace).floating_layer,
                    }
                },
            },
        },
{
    let window = match workspace.window_for_surface(surface) {
        Some(w) => w,
        None => {
            return None;
        },
    };
    let mut window_loc = match workspace.window_location(&window) {
        Some(p) => p,
        None => {
            return None;
        },
    };
    let ghost before = *state;
    let report = state.commit();
    let mut new_x: Option<i32> = None;
    let mut new_y: Option<i32> = None;
    match report {
        Some((edges, initial_rect)) => {
            if edges.intersects(ResizeEdge::top_left()) {
                if edges.intersects(ResizeEdge::left()) {
                    new_x = Some(initial_rect.loc.x + (initial_rect.size.w - size.w));
                }
                if edges.intersects(ResizeEdge::top()) {
                    new_y = Some(initial_rect.loc.y + (initial_rect.size.h - size.h));
                }
            }
        },
        None => {},
    }
    if let Some(x) = new_x {
        window_loc.x = x;
    }
    if let Some(y) = new_y {
        window_loc.y = y;
    }
    if new_x.is_some() || new_y.is_some() {
        if workspace.floating_layer.element_location(&window).is_some() {
            proof {
                crate::shell::layout::space::lemma_map_holds(workspace.floating_layer.stack(), window, window_loc);
            }
            workspace.floating_layer.map_element(window, window_loc);
        }
    }
    Some(())
}

} // verus!
