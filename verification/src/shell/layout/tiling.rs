//! The tiling layer and the master-stack arrangement.
use vstd::prelude::*;

use crate::element::WindowElement;
use crate::geometry::{div_toward_zero, fits_i32, Point, Rectangle, Size};
use crate::shell::layout::space::{distinct_outputs, distinct_windows, first_with_surface, holds, location_in, output_location_in, windows_of, without, OutputId, Space};

verus! {

/// How tiled windows are arranged.
#[derive(Debug, Clone, Copy, PartialEq, Eq, Structural, Default)]
pub enum Layout {
    /// The first window takes the left half; the others share the right
    /// half, one above the other.
    #[default]
    MasterStack,
}

/// Smallest height given to a window of the stack.
pub const MIN_TILED_HEIGHT: i32 = 40;

/// The area the tiled windows of an output share, for an output with
/// geometry `output_geo`: all of it when no layer surface is mapped on the
/// output (`has_layers` false), otherwise the zone the layer surfaces leave
/// free (`zone`, relative to the output) moved to the output's place.
pub fn tiling_area(output_geo: Rectangle, has_layers: bool, zone: Rectangle) -> (r: Rectangle)
    requires
        has_layers ==> fits_i32(output_geo.loc.x + zone.loc.x) && fits_i32(output_geo.loc.y + zone.loc.y),
    ensures
        r == (if has_layers {
            Rectangle {
                loc: Point { x: (output_geo.loc.x + zone.loc.x) as i32, y: (output_geo.loc.y + zone.loc.y) as i32 },
                size: zone.size,
            }
        } else {
            output_geo
        }),
{
    if has_layers {
        Rectangle {
            loc: Point { x: output_geo.loc.x + zone.loc.x, y: output_geo.loc.y + zone.loc.y },
            size: zone.size,
        }
    } else {
        output_geo
    }
}

/// The rectangle that the master-stack arrangement gives to the window at
/// position `i` among `n` tiled windows in `area`. The stack windows stand
/// at x = half the area's width, as measured from the output's origin.
pub open spec fn master_stack_rect(area: Rectangle, n: int, i: int) -> Rectangle {
    if n <= 1 {
        area
    } else {
        let half_w = div_toward_zero(area.size.w as int, 2) as i32;
        if i == 0 {
            Rectangle { loc: area.loc, size: Size { w: half_w, h: area.size.h } }
        } else {
            let stack_h = div_toward_zero(area.size.h as int, n - 1);
            Rectangle {
                loc: Point { x: half_w, y: (area.loc.y + stack_h * (i - 1)) as i32 },
                size: Size {
                    w: half_w,
                    h: (if stack_h > MIN_TILED_HEIGHT { stack_h } else { MIN_TILED_HEIGHT as int }) as i32,
                },
            }
        }
    }
}

/// The stack with every window moved to where the master-stack
/// arrangement in `area` puts it; the order stays.
pub open spec fn tiled(s: Seq<(WindowElement, Point)>, area: Rectangle) -> Seq<(WindowElement, Point)> {
    Seq::new(s.len(), |i: int| (s[i].0, master_stack_rect(area, s.len() as int, i).loc))
}

/// Laying out a second time in the same area changes nothing: where a
/// window goes depends only on its position in the order and the number of
/// windows.
pub proof fn law_tiling_is_idempotent(s: Seq<(WindowElement, Point)>, area: Rectangle)
    ensures
        tiled(tiled(s, area), area) == tiled(s, area),
        windows_of(tiled(s, area)) == windows_of(s),
{
    assert(tiled(tiled(s, area), area) =~= tiled(s, area));
    assert(windows_of(tiled(s, area)) =~= windows_of(s));
}

/// With two or more windows, the first takes the left half of the area at
/// full height; the others stand in one column at x = half the width, each
/// as wide as the master and at least the minimum height, one directly
/// below the other, the first at the top of the area and none starting
/// below its bottom edge.
pub proof fn law_master_stack_geometry(area: Rectangle, n: int)
    requires
        n >= 2,
        area.size.h >= 0,
        fits_i32(area.loc.y + area.size.h),
    ensures
        master_stack_rect(area, n, 0).loc == area.loc,
        master_stack_rect(area, n, 0).size.w == div_toward_zero(area.size.w as int, 2),
        master_stack_rect(area, n, 0).size.h == area.size.h,
        master_stack_rect(area, n, 1).loc.y == area.loc.y,
        forall|i: int| 1 <= i < n ==> {
            &&& (#[trigger] master_stack_rect(area, n, i)).loc.x == div_toward_zero(area.size.w as int, 2)
            &&& master_stack_rect(area, n, i).size.w == master_stack_rect(area, n, 0).size.w
            &&& master_stack_rect(area, n, i).size.h >= MIN_TILED_HEIGHT
            &&& area.loc.y <= master_stack_rect(area, n, i).loc.y <= area.loc.y + area.size.h
        },
        forall|i: int| 1 <= i < n - 1 ==> #[trigger] master_stack_rect(area, n, i + 1).loc.y == master_stack_rect(area, n, i).loc.y
            + div_toward_zero(area.size.h as int, n - 1),
{
    assert forall|i: int| 1 <= i < n implies {
        &&& (#[trigger] master_stack_rect(area, n, i)).loc.x == div_toward_zero(area.size.w as int, 2)
        &&& master_stack_rect(area, n, i).size.w == master_stack_rect(area, n, 0).size.w
        &&& master_stack_rect(area, n, i).size.h >= MIN_TILED_HEIGHT
        &&& area.loc.y <= master_stack_rect(area, n, i).loc.y <= area.loc.y + area.size.h
    } by {
        lemma_stack_offset(area.size.h as int, n - 1, i - 1);
    }
    assert forall|i: int| 1 <= i < n - 1 implies #[trigger] master_stack_rect(area, n, i + 1).loc.y == master_stack_rect(area, n, i).loc.y
        + div_toward_zero(area.size.h as int, n - 1) by {
        let h = div_toward_zero(area.size.h as int, n - 1);
        lemma_stack_offset(area.size.h as int, n - 1, i - 1);
        lemma_stack_offset(area.size.h as int, n - 1, i);
        assert(h * i == h * (i - 1) + h) by (nonlinear_arith);
    }
}

/// The part `stack_h * k` of a stack window's offset lies between 0 and the
/// area's height `h`, for `stack_h` the height divided among `c` windows and
/// `k < c`.
proof fn lemma_stack_offset(h: int, c: int, k: int)
    requires
        c >= 1,
        0 <= k < c,
    ensures
        h >= 0 ==> 0 <= div_toward_zero(h, c) * k <= h,
        h < 0 ==> h <= div_toward_zero(h, c) * k <= 0,
{
    if h >= 0 {
        assert(0 <= (h / c) * k <= h) by (nonlinear_arith)
            requires
                h >= 0,
                c >= 1,
                0 <= k < c,
        {
            assert((h / c) * k <= (h / c) * c);
            assert((h / c) * c <= h);
        }
    } else {
        let m = -h;
        assert(0 <= (m / c) * k <= m) by (nonlinear_arith)
            requires
                m > 0,
                c >= 1,
                0 <= k < c,
        {
            assert((m / c) * k <= (m / c) * c);
            assert((m / c) * c <= m);
        }
        assert(div_toward_zero(h, c) * k == -((m / c) * k)) by (nonlinear_arith)
            requires
                div_toward_zero(h, c) == -(m / c),
        {
        }
    }
}

/// Windows laid out side by side by the tiling arrangement.
pub struct TilingLayout {
    space: Space,
    layout: Layout,
}

impl TilingLayout {
    /// The tiled windows with their locations, in tiling order.
    pub closed spec fn stack(&self) -> Seq<(WindowElement, Point)> {
        self.space.stack()
    }

    /// The outputs the layer is mapped on.
    pub closed spec fn mapped_outputs(&self) -> Seq<(OutputId, Point)> {
        self.space.mapped_outputs()
    }

    /// The arrangement in use.
    pub closed spec fn arrangement(&self) -> Layout {
        self.layout
    }

    pub open spec fn wf(&self) -> bool {
        &&& distinct_windows(self.stack())
        &&& distinct_outputs(self.mapped_outputs())
    }

    pub fn new() -> (l: TilingLayout)
        ensures
            l.wf(),
            l.stack() == Seq::<(WindowElement, Point)>::empty(),
            l.mapped_outputs() == Seq::<(OutputId, Point)>::empty(),
            l.arrangement() == Layout::MasterStack,
    {
        TilingLayout { space: Space::new(), layout: Layout::MasterStack }
    }

    pub fn elements(&self) -> (r: Vec<WindowElement>)
        ensures
            r@ == windows_of(self.stack()),
    {
        self.space.elements()
    }

    pub fn outputs(&self) -> (r: Vec<OutputId>)
        ensures
            r@ == self.mapped_outputs().map_values(|o: (OutputId, Point)| o.0),
    {
        self.space.outputs()
    }

    pub fn element_for_surface(&self, surface: u64) -> (r: Option<WindowElement>)
        ensures
            r == first_with_surface(windows_of(self.stack()), surface),
    {
        self.space.element_for_surface(surface)
    }

    pub fn map_output(&mut self, output: OutputId, location: Point)
        requires
            old(self).wf(),
        ensures
            final(self).wf(),
            final(self).stack() == old(self).stack(),
            final(self).arrangement() == old(self).arrangement(),
            output_location_in(final(self).mapped_outputs(), output) == Some(location),
            old(self).mapped_outputs().len() == 0 ==> final(self).mapped_outputs() == seq![(output, location)],
    {
        self.space.map_output(output, location);
    }

    pub fn unmap_output(&mut self, output: OutputId)
        requires
            old(self).wf(),
        ensures
            final(self).wf(),
            final(self).stack() == old(self).stack(),
            final(self).arrangement() == old(self).arrangement(),
            final(self).mapped_outputs() == old(self).mapped_outputs().filter(|o: (OutputId, Point)| o.0 != output),
    {
        self.space.unmap_output(output);
    }

    /// Takes `window` out of the layer and tells whether it was there.
    pub fn unmap_element(&mut self, window: &WindowElement) -> (was_mapped: bool)
        requires
            old(self).wf(),
        ensures
            final(self).wf(),
            was_mapped == holds(old(self).stack(), *window),
            final(self).stack() == without(old(self).stack(), *window),
            final(self).mapped_outputs() == old(self).mapped_outputs(),
            final(self).arrangement() == old(self).arrangement(),
    {
        let was_mapped = self.space.contains(window);
        self.space.unmap_elem(window);
        was_mapped
    }

    pub fn element_location(&self, window: &WindowElement) -> (r: Option<Point>)
        requires
            self.wf(),
        ensures
            r == location_in(self.stack(), *window),
    {
        self.space.element_location(window)
    }

    pub fn contains(&self, window: &WindowElement) -> (r: bool)
        requires
            self.wf(),
        ensures
            r == holds(self.stack(), *window),
    {
        self.space.contains(window)
    }

    /// Adds `window` at the end of the tiling order, at the origin until
    /// the next arrangement places it.
    pub fn map_element(&mut self, window: WindowElement)
        requires
            old(self).wf(),
        ensures
            final(self).wf(),
            final(self).stack() == without(old(self).stack(), window).push((window, Point { x: 0, y: 0 })),
            final(self).mapped_outputs() == old(self).mapped_outputs(),
            final(self).arrangement() == old(self).arrangement(),
    {
        self.space.map_element(window, Point { x: 0, y: 0 });
    }

    pub fn space(&self) -> (r: &Space)
        ensures
            r.stack() == self.stack(),
            r.mapped_outputs() == self.mapped_outputs(),
    {
        &self.space
    }

    pub fn space_mut(&mut self) -> (r: &mut Space)
        ensures
            r.stack() == old(self).stack(),
            r.mapped_outputs() == old(self).mapped_outputs(),
            final(self).stack() == final(r).stack(),
            final(self).mapped_outputs() == final(r).mapped_outputs(),
            final(self).arrangement() == old(self).arrangement(),
    {
        &mut self.space
    }

    /// Places every tiled window by the arrangement in `area` and returns
    /// each window with the rectangle it was given, in tiling order.
    pub fn arrange(&mut self, area: Rectangle) -> (configured: Vec<(WindowElement, Rectangle)>)
        requires
            old(self).wf(),
            old(self).stack().len() < i32::MAX,
            fits_i32(area.loc.y + area.size.h),
        ensures
            final(self).wf(),
            final(self).mapped_outputs() == old(self).mapped_outputs(),
            final(self).arrangement() == old(self).arrangement(),
            final(self).stack() == tiled(old(self).stack(), area),
            configured@.len() == old(self).stack().len(),
            forall|i: int|
                0 <= i < old(self).stack().len() ==> #[trigger] final(self).stack()[i] == (
                    old(self).stack()[i].0,
                    master_stack_rect(area, old(self).stack().len() as int, i).loc,
                ),
            forall|i: int|
                0 <= i < old(self).stack().len() ==> #[trigger] configured@[i] == (
                    old(self).stack()[i].0,
                    master_stack_rect(area, old(self).stack().len() as int, i),
                ),
    {
        let mut configured: Vec<(WindowElement, Rectangle)> = Vec::new();
        let windows = self.space.elements();
        let n = windows.len();
        if n == 0 {
            assert(self.stack() =~= tiled(old(self).stack(), area));
            return configured;
        }
        match self.layout {
            Layout::MasterStack => {
                let stack_windows_count = n - 1;
                if stack_windows_count > 0 {
                    let size = Size { w: area.size.w / 2, h: area.size.h };
                    let master_geo = Rectangle { loc: area.loc, size };
                    self.space.set_location_at(0, area.loc);
                    configured.push((windows[0], master_geo));
                    let count = stack_windows_count as i32;
                    let stack_window_height = size.h / count;
                    let height = if stack_window_height > MIN_TILED_HEIGHT {
                        stack_window_height
                    } else {
                        MIN_TILED_HEIGHT
                    };
                    let ghost old_stack = old(self).stack();
                    let mut i: usize = 1;
                    while i < n
                        invariant
                            1 <= i <= n,
                            n == old_stack.len(),
                            n < i32::MAX,
                            n >= 2,
                            count == n - 1,
                            windows@ == windows_of(old_stack),
                            old_stack == old(self).stack(),
                            fits_i32(area.loc.y + area.size.h),
                            size.h == area.size.h,
                            size.w == div_toward_zero(area.size.w as int, 2),
                            stack_window_height == div_toward_zero(area.size.h as int, n - 1),
                            height == (if stack_window_height > MIN_TILED_HEIGHT { stack_window_height } else { MIN_TILED_HEIGHT }),
                            self.wf(),
                            self.stack().len() == n,
                            self.mapped_outputs() == old(self).mapped_outputs(),
                            self.layout == old(self).layout,
                            configured@.len() == i,
                            forall|j: int| 0 <= j < i ==> #[trigger] self.stack()[j] == (
                                old_stack[j].0,
                                master_stack_rect(area, n as int, j).loc,
                            ),
                            forall|j: int| i <= j < n ==> #[trigger] self.stack()[j] == old_stack[j],
                            forall|j: int| 0 <= j < i ==> #[trigger] configured@[j] == (
                                old_stack[j].0,
                                master_stack_rect(area, n as int, j),
                            ),
                        decreases n - i,
                    {
                        proof {
                            lemma_stack_offset(area.size.h as int, n - 1, i - 1);
                        }
                        let offset = stack_window_height * ((i - 1) as i32);
                        let geo = Rectangle {
                            loc: Point { x: size.w, y: area.loc.y + offset },
                            size: Size { w: size.w, h: height },
                        };
                        self.space.set_location_at(i, geo.loc);
                        configured.push((windows[i], geo));
                        i = i + 1;
                    }
                } else {
                    self.space.set_location_at(0, area.loc);
                    configured.push((windows[0], area));
                }
            },
        }
        assert(self.stack() =~= tiled(old(self).stack(), area));
        configured
    }
}

} // verus!
