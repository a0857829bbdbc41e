//! Workspaces: each output has a set of them, one current; each workspace
//! has a tiling and a floating layer.
use indexmap::IndexMap;
use std::hash::RandomState;
use vstd::prelude::*;

use crate::element::WindowElement;
use crate::geometry::{div_toward_zero, fits_i32, Point, Rectangle, Size};
use crate::shell::layout::space::{
    find_by_surface, first_with_surface, holds, topmost_hit, lemma_map_holds, lemma_without, location_in, windows_of,
    without, OutputId,
};
use crate::shell::layout::tiling::{master_stack_rect, tiled};
use crate::shell::layout::{
    floats, should_be_floating, FloatingLayout, ManagedLayer, ManagedState, TilingLayout,
    WindowProperties,
};
use crate::shell::FullscreenWindow;

verus! {

/// A direction in which to look for tiled neighbours.
#[derive(Debug, Clone, Copy, PartialEq, Eq, Structural)]
pub enum Direction {
    Down,
    Up,
    Right,
    Left,
}

/// A window at `p` lies in direction `dir` from one at `from`.
pub open spec fn lies_toward(dir: Direction, from: Point, p: Point) -> bool {
    match dir {
        Direction::Down => p.y > from.y,
        Direction::Up => p.y < from.y,
        Direction::Right => p.x > from.x,
        Direction::Left => p.x < from.x,
    }
}

/// The floating layer after toggling `w`: a tiled `w` comes on top at the
/// place it had; otherwise `w` leaves the layer.
pub open spec fn toggled_floating(
    floating: Seq<(WindowElement, Point)>,
    tiling: Seq<(WindowElement, Point)>,
    w: WindowElement,
) -> Seq<(WindowElement, Point)> {
    if holds(tiling, w) {
        without(floating, w).push((w, location_in(tiling, w)->0))
    } else {
        without(floating, w)
    }
}

/// The tiling order after toggling `w`, before it is laid out again: a
/// tiled `w` leaves it; otherwise `w` joins its end.
pub open spec fn toggled_tiling(tiling: Seq<(WindowElement, Point)>, w: WindowElement) -> Seq<(WindowElement, Point)> {
    if holds(tiling, w) {
        without(tiling, w)
    } else {
        without(tiling, w).push((w, Point { x: 0, y: 0 }))
    }
}

/// Laying out keeps the windows of the order.
pub proof fn lemma_tiled_holds(s: Seq<(WindowElement, Point)>, area: Rectangle)
    ensures
        forall|v: WindowElement| #[trigger] holds(tiled(s, area), v) == holds(s, v),
{
    let t = tiled(s, area);
    assert forall|v: WindowElement| #[trigger] holds(t, v) == holds(s, v) by {
        if holds(t, v) {
            let i = choose|i: int| 0 <= i < t.len() && t[i].0 == v;
            assert(s[i].0 == v);
        }
        if holds(s, v) {
            let i = choose|i: int| 0 <= i < s.len() && s[i].0 == v;
            assert(t[i].0 == v);
        }
    }
}

/// Toggling a window of the workspace twice puts it back into the layer it
/// was in; no other window changes layer.
pub proof fn law_toggling_twice_restores_layer(
    floating: Seq<(WindowElement, Point)>,
    tiling: Seq<(WindowElement, Point)>,
    w: WindowElement,
    area: Rectangle,
)
    requires
        crate::shell::layout::space::distinct_windows(floating),
        crate::shell::layout::space::distinct_windows(tiling),
        !(holds(floating, w) && holds(tiling, w)),
        holds(floating, w) || holds(tiling, w),
    ensures
        ({
            let f1 = toggled_floating(floating, tiling, w);
            let t1 = tiled(toggled_tiling(tiling, w), area);
            let f2 = toggled_floating(f1, t1, w);
            let t2 = tiled(toggled_tiling(t1, w), area);
            &&& holds(f2, w) == holds(floating, w)
            &&& holds(t2, w) == holds(tiling, w)
            &&& forall|v: WindowElement| v != w ==> #[trigger] holds(f2, v) == holds(floating, v)
            &&& forall|v: WindowElement| v != w ==> #[trigger] holds(t2, v) == holds(tiling, v)
        }),
{
    let f1 = toggled_floating(floating, tiling, w);
    let m1 = toggled_tiling(tiling, w);
    let t1 = tiled(m1, area);
    lemma_without(floating, w);
    lemma_without(tiling, w);
    lemma_tiled_holds(m1, area);
    if holds(tiling, w) {
        lemma_map_holds(floating, w, location_in(tiling, w)->0);
    } else {
        lemma_map_holds(tiling, w, Point { x: 0, y: 0 });
    }
    assert(crate::shell::layout::space::distinct_windows(f1)) by {
        if holds(tiling, w) {
            crate::shell::layout::space::law_unmap_undoes_map(floating, w, location_in(tiling, w)->0);
            lemma_distinct_after_map(floating, w, location_in(tiling, w)->0);
        }
    }
    assert(crate::shell::layout::space::distinct_windows(m1)) by {
        if !holds(tiling, w) {
            lemma_distinct_after_map(tiling, w, Point { x: 0, y: 0 });
        }
    }
    assert(crate::shell::layout::space::distinct_windows(t1)) by {
        let t = t1;
        assert forall|i: int, j: int| 0 <= i < t.len() && 0 <= j < t.len() && i != j implies t[i].0 != t[j].0 by {
            assert(t[i].0 == m1[i].0 && t[j].0 == m1[j].0);
        }
    }
    let f2 = toggled_floating(f1, t1, w);
    let m2 = toggled_tiling(t1, w);
    let t2 = tiled(m2, area);
    lemma_without(f1, w);
    lemma_without(t1, w);
    lemma_tiled_holds(m2, area);
    if holds(t1, w) {
        lemma_map_holds(f1, w, location_in(t1, w)->0);
    } else {
        lemma_map_holds(t1, w, Point { x: 0, y: 0 });
    }
    assert forall|v: WindowElement| #[trigger] holds(t1, v) == (holds(tiling, v) != (v == w)) by {
        assert(holds(t1, v) == holds(m1, v));
    }
    assert forall|v: WindowElement| #[trigger] holds(f1, v) == (if v == w { holds(tiling, w) } else { holds(floating, v) }) by {}
    assert(holds(f2, w) == holds(floating, w));
    assert(holds(t2, w) == holds(m2, w));
    assert(holds(t2, w) == holds(tiling, w));
    assert forall|v: WindowElement| v != w implies #[trigger] holds(f2, v) == holds(floating, v) by {
        assert(holds(f1, v) == holds(floating, v));
    }
    assert forall|v: WindowElement| v != w implies #[trigger] holds(t2, v) == holds(tiling, v) by {
        assert(holds(t2, v) == holds(m2, v));
        assert(holds(t1, v) == holds(tiling, v));
    }
}

/// Putting a window on top keeps a stack free of duplicates.
pub proof fn lemma_distinct_after_map(s: Seq<(WindowElement, Point)>, w: WindowElement, location: Point)
    requires
        crate::shell::layout::space::distinct_windows(s),
    ensures
        crate::shell::layout::space::distinct_windows(without(s, w).push((w, location))),
{
    crate::shell::layout::space::lemma_without(s, w);
    let r = without(s, w);
    let t = r.push((w, location));
    assert forall|i: int, j: int| 0 <= i < t.len() && 0 <= j < t.len() && i != j implies t[i].0 != t[j].0 by {
        if i == t.len() - 1 {
            assert(t[j] == r[j]);
            if t[j].0 == w {
                assert(holds(r, w));
            }
        } else if j == t.len() - 1 {
            assert(t[i] == r[i]);
            if t[i].0 == w {
                assert(holds(r, w));
            }
        } else {
            assert(t[i] == r[i] && t[j] == r[j]);
        }
    }
}

/// Where `w` was before it went fullscreen, by the fullscreen record `f`.
pub open spec fn previously_for(f: Option<FullscreenWindow>, w: WindowElement) -> Option<(ManagedLayer, usize)> {
    match f {
        Some(f) => if f.window == w { f.previously } else { None },
        None => None,
    }
}

/// The geometry `w` had before it went fullscreen, by the fullscreen
/// record `f`.
pub open spec fn geometry_before_fullscreen(f: Option<FullscreenWindow>, w: WindowElement) -> Option<Rectangle> {
    match f {
        Some(f) => if f.window == w { Some(f.original_geometry) } else { None },
        None => None,
    }
}

/// Leaving fullscreen gives back where the window was and the geometry it
/// had when it went fullscreen; another window gets nothing back.
pub proof fn law_unfullscreen_returns_previous(
    w: WindowElement,
    other: WindowElement,
    previously: Option<(ManagedLayer, usize)>,
    original_geometry: Rectangle,
)
    requires
        other != w,
    ensures
        previously_for(Some(FullscreenWindow { window: w, previously, original_geometry }), w) == previously,
        previously_for(Some(FullscreenWindow { window: w, previously, original_geometry }), other) is None,
        geometry_before_fullscreen(Some(FullscreenWindow { window: w, previously, original_geometry }), w)
            == Some(original_geometry),
        geometry_before_fullscreen(Some(FullscreenWindow { window: w, previously, original_geometry }), other)
            is None,
{
}

/// `after` is `before` with window `w` brought to `location`: a floating
/// window moves there and comes on top; a tiled window, or one that is not
/// on the workspace, stays where it is.
pub open spec fn relocated(before: Workspace, after: Workspace, w: WindowElement, location: Point) -> bool {
    &&& holds(before.floating_layer.stack(), w) ==> after.floating_layer.stack()
        == without(before.floating_layer.stack(), w).push((w, location))
    &&& !holds(before.floating_layer.stack(), w) ==> after.floating_layer == before.floating_layer
    &&& after.floating_layer.mapped_outputs() == before.floating_layer.mapped_outputs()
    &&& after.tiling_layer == before.tiling_layer
    &&& after.fullscreen == before.fullscreen
    &&& after.output == before.output
    &&& after.handle == before.handle
}

/// One workspace: its output, its handle (its index in the set), its two
/// layers and its fullscreen window.
pub struct Workspace {
    pub output: OutputId,
    pub handle: usize,
    pub tiling_layer: TilingLayout,
    pub floating_layer: FloatingLayout,
    pub fullscreen: Option<FullscreenWindow>,
}

impl Workspace {
    /// Both layers are sound, each is mapped on at most one output, and no
    /// window is in both layers.
    pub open spec fn wf(&self) -> bool {
        &&& self.tiling_layer.wf()
        &&& self.floating_layer.wf()
        &&& self.tiling_layer.mapped_outputs().len() <= 1
        &&& self.floating_layer.mapped_outputs().len() <= 1
        &&& forall|w: WindowElement|
            #![trigger holds(self.floating_layer.stack(), w)]
            #![trigger holds(self.tiling_layer.stack(), w)]
            !(holds(self.floating_layer.stack(), w) && holds(self.tiling_layer.stack(), w))
    }

    /// The windows of the workspace: the floating ones, then the tiled ones.
    pub open spec fn windows_view(&self) -> Seq<WindowElement> {
        windows_of(self.floating_layer.stack()) + windows_of(self.tiling_layer.stack())
    }

    /// The workspace holds window `w`, in either layer.
    pub open spec fn has_window(&self, w: WindowElement) -> bool {
        holds(self.floating_layer.stack(), w) || holds(self.tiling_layer.stack(), w)
    }

    /// Where window `w` is, looked up in the floating layer first.
    pub open spec fn location_of(&self, w: WindowElement) -> Option<Point> {
        match location_in(self.floating_layer.stack(), w) {
            Some(p) => Some(p),
            None => location_in(self.tiling_layer.stack(), w),
        }
    }

    /// An empty workspace with handle `handle` for `output`; no output is
    /// mapped on its layers yet.
    pub fn new(handle: usize, output: OutputId) -> (ws: Workspace)
        ensures
            ws.wf(),
            ws.handle == handle,
            ws.output == output,
            ws.tiling_layer.stack().len() == 0,
            ws.floating_layer.stack().len() == 0,
            ws.tiling_layer.mapped_outputs().len() == 0,
            ws.floating_layer.mapped_outputs().len() == 0,
            ws.fullscreen is None,
    {
        Workspace {
            handle,
            output,
            tiling_layer: TilingLayout::new(),
            floating_layer: FloatingLayout::new(),
            fullscreen: None,
        }
    }

    /// The floating windows, then the tiled ones.
    pub fn windows(&self) -> (r: Vec<WindowElement>)
        ensures
            r@ == self.windows_view(),
    {
        let mut r = self.floating_layer.elements();
        let mut tiled = self.tiling_layer.elements();
        r.append(&mut tiled);
        r
    }

    /// Shows the workspace on `output` at `location`: both layers drop the
    /// output they were mapped on and map `output` instead. The `output`
    /// field stays as it was.
    pub fn set_output(&mut self, output: OutputId, location: Point)
        requires
            old(self).wf(),
        ensures
            final(self).wf(),
            final(self).tiling_layer.mapped_outputs() == seq![(output, location)],
            final(self).floating_layer.mapped_outputs() == seq![(output, location)],
            final(self).tiling_layer.stack() == old(self).tiling_layer.stack(),
            final(self).floating_layer.stack() == old(self).floating_layer.stack(),
            final(self).tiling_layer.arrangement() == old(self).tiling_layer.arrangement(),
            final(self).output == old(self).output,
            final(self).handle == old(self).handle,
            final(self).fullscreen == old(self).fullscreen,
    {
        let tiled_outputs = self.tiling_layer.outputs();
        if tiled_outputs.len() > 0 {
            let old_output = tiled_outputs[0];
            self.tiling_layer.unmap_output(old_output);
            proof {
                let s = old(self).tiling_layer.mapped_outputs();
                reveal_with_fuel(Seq::filter, 2);
                assert(s.len() == 1);
                assert(s.drop_last().len() == 0);
                assert(s.filter(|o: (OutputId, Point)| o.0 != old_output).len() == 0);
            }
        }
        let floating_outputs = self.floating_layer.outputs();
        if floating_outputs.len() > 0 {
            let old_output = floating_outputs[0];
            self.floating_layer.unmap_output(old_output);
            proof {
                let s = old(self).floating_layer.mapped_outputs();
                reveal_with_fuel(Seq::filter, 2);
                assert(s.len() == 1);
                assert(s.drop_last().len() == 0);
                assert(s.filter(|o: (OutputId, Point)| o.0 != old_output).len() == 0);
            }
        }
        self.tiling_layer.map_output(output, location);
        self.floating_layer.map_output(output, location);
    }

    /// The first window, floating ones first, whose surface is `surface`.
    pub fn window_for_surface(&self, surface: u64) -> (r: Option<WindowElement>)
        ensures
            r == first_with_surface(self.windows_view(), surface),
    {
        let windows = self.windows();
        find_by_surface(&windows, surface)
    }

    /// `window` itself when the workspace holds it.
    pub fn window_for_element(&self, window: &WindowElement) -> (r: Option<WindowElement>)
        requires
            self.wf(),
        ensures
            r == (if self.has_window(*window) { Some(*window) } else { None }),
    {
        if self.floating_layer.contains(window) || self.tiling_layer.contains(window) {
            Some(*window)
        } else {
            None
        }
    }

    /// The outputs the workspace is shown on.
    pub fn outputs(&self) -> (r: Vec<OutputId>)
        requires
            self.wf(),
        ensures
            r@ == self.floating_layer.mapped_outputs().map_values(|o: (OutputId, Point)| o.0),
    {
        self.floating_layer.outputs()
    }

    /// Where `window` is, looked up in the floating layer first.
    pub fn window_location(&self, window: &WindowElement) -> (r: Option<Point>)
        requires
            self.wf(),
        ensures
            r == self.location_of(*window),
    {
        match self.floating_layer.element_location(window) {
            Some(p) => Some(p),
            None => self.tiling_layer.element_location(window),
        }
    }

    /// The window under the pointer, among `hits` (the windows whose input
    /// region holds the pointer): the top-most floating one, or else the
    /// top-most tiled one, with its location.
    pub fn window_under(&self, hits: &[WindowElement]) -> (r: Option<(WindowElement, Point)>)
        ensures
            r == match topmost_hit(self.floating_layer.stack(), hits@) {
                Some(h) => Some(h),
                None => topmost_hit(self.tiling_layer.stack(), hits@),
            },
    {
        match self.floating_layer.space().element_under(hits) {
            Some(h) => Some(h),
            None => self.tiling_layer.space().element_under(hits),
        }
    }

    /// Whether `window` is in the tiling layer.
    pub fn is_tiled(&self, window: &WindowElement) -> (r: bool)
        requires
            self.wf(),
        ensures
            r == holds(self.tiling_layer.stack(), *window),
    {
        self.tiling_layer.contains(window)
    }

    /// Brings `window` to the top of the floating layer.
    pub fn raise_window(&mut self, window: &WindowElement)
        requires
            old(self).wf(),
        ensures
            final(self).wf(),
            final(self).floating_layer.stack() == (if holds(old(self).floating_layer.stack(), *window) {
                without(old(self).floating_layer.stack(), *window).push(
                    (*window, location_in(old(self).floating_layer.stack(), *window)->0),
                )
            } else {
                old(self).floating_layer.stack()
            }),
            final(self).floating_layer.mapped_outputs() == old(self).floating_layer.mapped_outputs(),
            final(self).tiling_layer == old(self).tiling_layer,
            final(self).output == old(self).output,
            final(self).handle == old(self).handle,
            final(self).fullscreen == old(self).fullscreen,
    {
        proof {
            crate::shell::layout::space::lemma_without(self.floating_layer.stack(), *window);
        }
        self.floating_layer.raise_element(window);
        proof {
            if holds(old(self).floating_layer.stack(), *window) {
                crate::shell::layout::space::lemma_map_holds(
                    old(self).floating_layer.stack(),
                    *window,
                    location_in(old(self).floating_layer.stack(), *window)->0,
                );
            }
        }
    }

    /// Adds a new window: to the floating layer, centred on an output of
    /// size `output_size`, when the floating rule says so, and to the end of
    /// the tiling order otherwise.
    pub fn map_window(
        &mut self,
        window: WindowElement,
        properties: &WindowProperties,
        output_size: Size,
        window_size: Size,
    )
        requires
            old(self).wf(),
            floats(*properties) ==> !holds(old(self).tiling_layer.stack(), window),
            !floats(*properties) ==> !holds(old(self).floating_layer.stack(), window),
        ensures
            final(self).wf(),
            floats(*properties) ==> final(self).floating_layer.stack() == without(
                old(self).floating_layer.stack(),
                window,
            ).push(
                (
                    window,
                    Point {
                        x: (div_toward_zero(output_size.w as int, 2) - div_toward_zero(window_size.w as int, 2)) as i32,
                        y: (div_toward_zero(output_size.h as int, 2) - div_toward_zero(window_size.h as int, 2)) as i32,
                    },
                ),
            ) && final(self).tiling_layer.stack() == old(self).tiling_layer.stack(),
            !floats(*properties) ==> final(self).tiling_layer.stack() == without(
                old(self).tiling_layer.stack(),
                window,
            ).push((window, Point { x: 0, y: 0 }))
                && final(self).floating_layer.stack() == old(self).floating_layer.stack(),
            final(self).tiling_layer.mapped_outputs() == old(self).tiling_layer.mapped_outputs(),
            final(self).floating_layer.mapped_outputs() == old(self).floating_layer.mapped_outputs(),
            final(self).tiling_layer.arrangement() == old(self).tiling_layer.arrangement(),
            final(self).output == old(self).output,
            final(self).handle == old(self).handle,
            final(self).fullscreen == old(self).fullscreen,
    {
        if should_be_floating(properties) {
            let location = Point {
                x: (output_size.w / 2) - (window_size.w / 2),
                y: (output_size.h / 2) - (window_size.h / 2),
            };
            proof {
                crate::shell::layout::space::lemma_without(self.floating_layer.stack(), window);
            }
            self.floating_layer.map_element(window, location);
            proof {
                let s = self.floating_layer.stack();
                crate::shell::layout::space::lemma_map_holds(old(self).floating_layer.stack(), window, location);
            }
        } else {
            proof {
                crate::shell::layout::space::lemma_without(self.tiling_layer.stack(), window);
            }
            self.tiling_layer.map_element(window);
            proof {
                let s = self.tiling_layer.stack();
                crate::shell::layout::space::lemma_map_holds(old(self).tiling_layer.stack(), window, Point { x: 0, y: 0 });
            }
        }
    }

    /// Adds a window as `map_window` does, when the floating rule does not
    /// send it to the layer other than the one that already holds it; in
    /// that case nothing changes and the result is `false`.
    pub fn map_window_checked(
        &mut self,
        window: WindowElement,
        properties: &WindowProperties,
        output_size: Size,
        window_size: Size,
    ) -> (mapped: bool)
        requires
            old(self).wf(),
        ensures
            final(self).wf(),
            mapped == (if floats(*properties) {
                !holds(old(self).tiling_layer.stack(), window)
            } else {
                !holds(old(self).floating_layer.stack(), window)
            }),
            !mapped ==> *final(self) == *old(self),
            mapped && floats(*properties) ==> final(self).floating_layer.stack() == without(
                old(self).floating_layer.stack(),
                window,
            ).push(
                (
                    window,
                    Point {
                        x: (div_toward_zero(output_size.w as int, 2) - div_toward_zero(window_size.w as int, 2)) as i32,
                        y: (div_toward_zero(output_size.h as int, 2) - div_toward_zero(window_size.h as int, 2)) as i32,
                    },
                ),
            ) && final(self).tiling_layer.stack() == old(self).tiling_layer.stack(),
            mapped && !floats(*properties) ==> final(self).tiling_layer.stack() == without(
                old(self).tiling_layer.stack(),
                window,
            ).push((window, Point { x: 0, y: 0 }))
                && final(self).floating_layer.stack() == old(self).floating_layer.stack(),
            final(self).tiling_layer.mapped_outputs() == old(self).tiling_layer.mapped_outputs(),
            final(self).floating_layer.mapped_outputs() == old(self).floating_layer.mapped_outputs(),
            final(self).output == old(self).output,
            final(self).handle == old(self).handle,
            final(self).fullscreen == old(self).fullscreen,
    {
        let floating = should_be_floating(properties);
        let conflict = if floating {
            self.tiling_layer.contains(&window)
        } else {
            self.floating_layer.contains(&window)
        };
        if conflict {
            return false;
        }
        self.map_window(window, properties, output_size, window_size);
        true
    }

    /// Moves a window of the workspace to `location`: a floating window is
    /// brought there, on top of the others; a tiled window keeps the place
    /// its tile gives it, and a window the workspace does not hold stays
    /// away.
    pub fn relocate_window(&mut self, window: &WindowElement, location: Point)
        requires
            old(self).wf(),
        ensures
            final(self).wf(),
            relocated(*old(self), *final(self), *window, location),
    {
        if self.floating_layer.contains(window) {
            proof {
                crate::shell::layout::space::lemma_map_holds(self.floating_layer.stack(), *window, location);
            }
            self.floating_layer.map_element(*window, location);
        }
    }

    /// Takes `window` off the workspace and tells which layer held it,
    /// together with the workspace's fullscreen record.
    pub fn unmap_window(&mut self, window: &WindowElement) -> (r: Option<ManagedState>)
        requires
            old(self).wf(),
        ensures
            final(self).wf(),
            r == (if holds(old(self).floating_layer.stack(), *window) {
                Some(ManagedState { layer: ManagedLayer::Floating, was_fullscreen: old(self).fullscreen })
            } else if holds(old(self).tiling_layer.stack(), *window) {
                Some(ManagedState { layer: ManagedLayer::Tiling, was_fullscreen: old(self).fullscreen })
            } else {
                None
            }),
            final(self).floating_layer.stack() == without(old(self).floating_layer.stack(), *window),
            final(self).tiling_layer.stack() == without(old(self).tiling_layer.stack(), *window),
            final(self).tiling_layer.mapped_outputs() == old(self).tiling_layer.mapped_outputs(),
            final(self).floating_layer.mapped_outputs() == old(self).floating_layer.mapped_outputs(),
            final(self).tiling_layer.arrangement() == old(self).tiling_layer.arrangement(),
            !final(self).has_window(*window),
            forall|w: WindowElement| w != *window ==> #[trigger] final(self).has_window(w) == old(self).has_window(w),
            forall|w: WindowElement| w != *window ==> #[trigger] final(self).location_of(w) == old(self).location_of(w),
            final(self).output == old(self).output,
            final(self).handle == old(self).handle,
            final(self).fullscreen == old(self).fullscreen,
    {
        proof {
            crate::shell::layout::space::lemma_without(self.floating_layer.stack(), *window);
            crate::shell::layout::space::lemma_without(self.tiling_layer.stack(), *window);
        }
        let was_floating = self.floating_layer.unmap_element(window);
        let was_tiled = self.tiling_layer.unmap_element(window);
        if was_floating {
            Some(ManagedState { layer: ManagedLayer::Floating, was_fullscreen: self.fullscreen })
        } else if was_tiled {
            Some(ManagedState { layer: ManagedLayer::Tiling, was_fullscreen: self.fullscreen })
        } else {
            None
        }
    }

    /// Records `window` as the workspace's fullscreen window, with where it
    /// was before and its geometry before.
    pub fn fullscreen_request(
        &mut self,
        window: &WindowElement,
        previously: Option<(ManagedLayer, usize)>,
        original_geometry: Rectangle,
    )
        requires
            old(self).wf(),
        ensures
            final(self).wf(),
            final(self).fullscreen == Some(
                FullscreenWindow { window: *window, previously, original_geometry },
            ),
            final(self).tiling_layer == old(self).tiling_layer,
            final(self).floating_layer == old(self).floating_layer,
            final(self).output == old(self).output,
            final(self).handle == old(self).handle,
    {
        self.fullscreen = Some(FullscreenWindow { window: *window, previously, original_geometry });
    }

    /// Where `window` is kept, to be recorded when it goes fullscreen: its
    /// layer (tiling when it is tiled, floating otherwise) and the
    /// workspace's handle.
    pub fn previous_place(&self, window: &WindowElement) -> (r: (ManagedLayer, usize))
        requires
            self.wf(),
        ensures
            r == (if holds(self.tiling_layer.stack(), *window) { ManagedLayer::Tiling } else { ManagedLayer::Floating }, self.handle),
    {
        let layer = if self.is_tiled(window) {
            ManagedLayer::Tiling
        } else {
            ManagedLayer::Floating
        };
        (layer, self.handle)
    }

    /// Where `window` was before it went fullscreen, when it is the
    /// workspace's fullscreen window. The record itself stays.
    pub fn unfullscreen_request(&self, window: &WindowElement) -> (r: Option<(ManagedLayer, usize)>)
        ensures
            r == previously_for(self.fullscreen, *window),
    {
        match self.fullscreen {
            Some(f) => {
                if f.window == *window {
                    f.previously
                } else {
                    None
                }
            },
            None => None,
        }
    }

    /// The geometry to give `window` back when it leaves fullscreen: the one
    /// recorded when it went fullscreen, when it is the workspace's
    /// fullscreen window.
    pub fn unfullscreen_geometry(&self, window: &WindowElement) -> (r: Option<Rectangle>)
        ensures
            r == geometry_before_fullscreen(self.fullscreen, *window),
    {
        match self.fullscreen {
            Some(f) => {
                if f.window == *window {
                    Some(f.original_geometry)
                } else {
                    None
                }
            },
            None => None,
        }
    }

    /// Lays out the tiled windows in `area` by the tiling arrangement and
    /// returns each tiled window with the rectangle it now has.
    pub fn tile_windows(&mut self, area: Rectangle) -> (configured: Vec<(WindowElement, Rectangle)>)
        requires
            old(self).wf(),
            old(self).tiling_layer.stack().len() < i32::MAX,
            fits_i32(area.loc.y + area.size.h),
        ensures
            final(self).wf(),
            final(self).floating_layer == old(self).floating_layer,
            final(self).tiling_layer.mapped_outputs() == old(self).tiling_layer.mapped_outputs(),
            final(self).tiling_layer.arrangement() == old(self).tiling_layer.arrangement(),
            final(self).tiling_layer.stack() == tiled(old(self).tiling_layer.stack(), area),
            windows_of(final(self).tiling_layer.stack()) == windows_of(old(self).tiling_layer.stack()),
            configured@.len() == old(self).tiling_layer.stack().len(),
            forall|i: int|
                0 <= i < old(self).tiling_layer.stack().len() ==> #[trigger] final(self).tiling_layer.stack()[i] == (
                    old(self).tiling_layer.stack()[i].0,
                    master_stack_rect(area, old(self).tiling_layer.stack().len() as int, i).loc,
                ),
            forall|i: int|
                0 <= i < old(self).tiling_layer.stack().len() ==> #[trigger] configured@[i] == (
                    old(self).tiling_layer.stack()[i].0,
                    master_stack_rect(area, old(self).tiling_layer.stack().len() as int, i),
                ),
            final(self).output == old(self).output,
            final(self).handle == old(self).handle,
            final(self).fullscreen == old(self).fullscreen,
    {
        let configured = self.tiling_layer.arrange(area);
        proof {
            let a = old(self).tiling_layer.stack();
            let b = self.tiling_layer.stack();
            assert(windows_of(b) =~= windows_of(a));
            assert forall|w: WindowElement| #[trigger] holds(b, w) implies holds(a, w) by {
                let i = choose|i: int| 0 <= i < b.len() && b[i].0 == w;
                assert(a[i].0 == w);
            }
        }
        configured
    }

    /// Moves `window` to the other layer: a tiled window floats at the place
    /// it had, any other window joins the end of the tiling order. Then the
    /// tiled windows are laid out again in `area`; their new rectangles are
    /// returned.
    pub fn toggle_floating(&mut self, window: &WindowElement, area: Rectangle) -> (configured: Vec<(WindowElement, Rectangle)>)
        requires
            old(self).wf(),
            old(self).tiling_layer.stack().len() + 1 < i32::MAX,
            fits_i32(area.loc.y + area.size.h),
        ensures
            final(self).wf(),
            final(self).floating_layer.stack() == toggled_floating(
                old(self).floating_layer.stack(),
                old(self).tiling_layer.stack(),
                *window,
            ),
            final(self).tiling_layer.stack() == tiled(
                toggled_tiling(old(self).tiling_layer.stack(), *window),
                area,
            ),
            holds(final(self).tiling_layer.stack(), *window) == !holds(old(self).tiling_layer.stack(), *window),
            final(self).has_window(*window),
            configured@.len() == final(self).tiling_layer.stack().len(),
            forall|i: int|
                0 <= i < final(self).tiling_layer.stack().len() ==> #[trigger] configured@[i] == (
                    final(self).tiling_layer.stack()[i].0,
                    master_stack_rect(area, final(self).tiling_layer.stack().len() as int, i),
                ),
            final(self).tiling_layer.mapped_outputs() == old(self).tiling_layer.mapped_outputs(),
            final(self).floating_layer.mapped_outputs() == old(self).floating_layer.mapped_outputs(),
            final(self).output == old(self).output,
            final(self).handle == old(self).handle,
            final(self).fullscreen == old(self).fullscreen,
    {
        proof {
            crate::shell::layout::space::lemma_without(self.floating_layer.stack(), *window);
            crate::shell::layout::space::lemma_without(self.tiling_layer.stack(), *window);
        }
        if self.is_tiled(window) {
            let window_location = match self.window_location(window) {
                Some(p) => p,
                None => Point { x: 0, y: 0 },
            };
            self.tiling_layer.unmap_element(window);
            self.floating_layer.map_element(*window, window_location);
            proof {
                let s = self.floating_layer.stack();
                crate::shell::layout::space::lemma_map_holds(old(self).floating_layer.stack(), *window, window_location);
            }
        } else {
            self.floating_layer.unmap_element(window);
            self.tiling_layer.map_element(*window);
            proof {
                let s = self.tiling_layer.stack();
                crate::shell::layout::space::lemma_map_holds(old(self).tiling_layer.stack(), *window, Point { x: 0, y: 0 });
                assert(windows_of(s) =~= windows_of(old(self).tiling_layer.stack()).push(*window));
            }
        }
        let ghost mid = self.tiling_layer.stack();
        assert(mid == toggled_tiling(old(self).tiling_layer.stack(), *window));
        let configured = self.tile_windows(area);
        proof {
            lemma_tiled_holds(mid, area);
            crate::shell::layout::space::lemma_map_holds(old(self).tiling_layer.stack(), *window, Point { x: 0, y: 0 });
            assert(windows_of(self.tiling_layer.stack()).len() == self.tiling_layer.stack().len());
            assert(windows_of(mid).len() == mid.len());
            assert forall|i: int| 0 <= i < mid.len() implies #[trigger] self.tiling_layer.stack()[i].0 == mid[i].0 by {
                assert(windows_of(self.tiling_layer.stack())[i] == windows_of(mid)[i]);
            }
        }
        configured
    }

    /// Puts `window` back into `layer`: on top of the floating layer at
    /// `location`, or at the end of the tiling order.
    fn place_window(&mut self, window: WindowElement, layer: ManagedLayer, location: Point)
        requires
            old(self).wf(),
            layer == ManagedLayer::Floating ==> !holds(old(self).tiling_layer.stack(), window),
            layer == ManagedLayer::Tiling ==> !holds(old(self).floating_layer.stack(), window),
        ensures
            final(self).wf(),
            final(self).has_window(window),
            holds(final(self).floating_layer.stack(), window) == (layer == ManagedLayer::Floating),
            layer == ManagedLayer::Floating ==> final(self).location_of(window) == Some(location),
            layer == ManagedLayer::Tiling ==> final(self).location_of(window) == Some(Point { x: 0, y: 0 }),
            layer == ManagedLayer::Floating ==> final(self).floating_layer.stack() == without(
                old(self).floating_layer.stack(),
                window,
            ).push((window, location)) && final(self).tiling_layer.stack() == old(self).tiling_layer.stack(),
            layer == ManagedLayer::Tiling ==> final(self).tiling_layer.stack() == without(
                old(self).tiling_layer.stack(),
                window,
            ).push((window, Point { x: 0, y: 0 })) && final(self).floating_layer.stack() == old(self).floating_layer.stack(),
            forall|w: WindowElement| w != window ==> #[trigger] final(self).has_window(w) == old(self).has_window(w),
            forall|w: WindowElement| w != window ==> #[trigger] final(self).location_of(w) == old(self).location_of(w),
            final(self).tiling_layer.mapped_outputs() == old(self).tiling_layer.mapped_outputs(),
            final(self).floating_layer.mapped_outputs() == old(self).floating_layer.mapped_outputs(),
            final(self).output == old(self).output,
            final(self).handle == old(self).handle,
            final(self).fullscreen == old(self).fullscreen,
    {
        match layer {
            ManagedLayer::Floating => {
                proof {
                    crate::shell::layout::space::lemma_map_locations(old(self).floating_layer.stack(), window, location);
                }
                self.floating_layer.map_element(window, location);
                proof {
                    crate::shell::layout::space::lemma_map_holds(old(self).floating_layer.stack(), window, location);
                    crate::shell::layout::space::lemma_without(old(self).floating_layer.stack(), window);
                    let s = self.floating_layer.stack();
                    crate::shell::layout::space::lemma_index_in(s, window, s.len() - 1);
                }
            },
            ManagedLayer::Tiling => {
                proof {
                    crate::shell::layout::space::lemma_map_locations(
                        old(self).tiling_layer.stack(),
                        window,
                        Point { x: 0, y: 0 },
                    );
                }
                self.tiling_layer.map_element(window);
                proof {
                    crate::shell::layout::space::lemma_map_holds(old(self).tiling_layer.stack(), window, Point { x: 0, y: 0 });
                    crate::shell::layout::space::lemma_without(old(self).tiling_layer.stack(), window);
                    let s = self.tiling_layer.stack();
                    crate::shell::layout::space::lemma_index_in(s, window, s.len() - 1);
                }
            },
        }
    }

    /// The tiled windows, with their locations, that lie in direction `dir`
    /// from `window`.
    fn tiled_toward(&self, window: &WindowElement, dir: Direction) -> (r: Vec<(WindowElement, Point)>)
        requires
            self.wf(),
            holds(self.tiling_layer.stack(), *window),
        ensures
            r@ == self.tiling_layer.stack().filter(
                |e: (WindowElement, Point)| lies_toward(dir, location_in(self.tiling_layer.stack(), *window)->0, e.1),
            ),
    {
        let from = match self.tiling_layer.element_location(window) {
            Some(p) => p,
            None => Point { x: 0, y: 0 },
        };
        let ghost pred = |e: (WindowElement, Point)| lies_toward(dir, from, e.1);
        let space = self.tiling_layer.space();
        let windows = self.tiling_layer.elements();
        let ghost s = self.tiling_layer.stack();
        let mut r: Vec<(WindowElement, Point)> = Vec::new();
        let mut i: usize = 0;
        while i < windows.len()
            invariant
                i <= windows@.len(),
                windows@ == windows_of(s),
                s == self.tiling_layer.stack(),
                space.stack() == s,
                self.wf(),
                pred == (|e: (WindowElement, Point)| lies_toward(dir, from, e.1)),
                r@ == s.take(i as int).filter(pred),
            decreases windows@.len() - i,
        {
            let w = windows[i];
            proof {
                crate::shell::layout::space::lemma_index_in(s, w, i as int);
            }
            let p = match self.tiling_layer.element_location(&w) {
                Some(p) => p,
                None => Point { x: 0, y: 0 },
            };
            proof {
                s.take(i as int).lemma_filter_push((w, p), pred);
                assert(s.take(i + 1) == s.take(i as int).push((w, p)));
            }
            let toward = match dir {
                Direction::Down => p.y > from.y,
                Direction::Up => p.y < from.y,
                Direction::Right => p.x > from.x,
                Direction::Left => p.x < from.x,
            };
            if toward {
                r.push((w, p));
            }
            i = i + 1;
        }
        assert(s.take(i as int) == s);
        r
    }

    /// The tiled windows below `window`.
    pub fn tiled_window_down(&self, window: &WindowElement) -> (r: Vec<(WindowElement, Point)>)
        requires
            self.wf(),
            holds(self.tiling_layer.stack(), *window),
        ensures
            r@ == self.tiling_layer.stack().filter(
                |e: (WindowElement, Point)| lies_toward(Direction::Down, location_in(self.tiling_layer.stack(), *window)->0, e.1),
            ),
    {
        self.tiled_toward(window, Direction::Down)
    }

    /// The tiled windows above `window`.
    pub fn tiled_window_up(&self, window: &WindowElement) -> (r: Vec<(WindowElement, Point)>)
        requires
            self.wf(),
            holds(self.tiling_layer.stack(), *window),
        ensures
            r@ == self.tiling_layer.stack().filter(
                |e: (WindowElement, Point)| lies_toward(Direction::Up, location_in(self.tiling_layer.stack(), *window)->0, e.1),
            ),
    {
        self.tiled_toward(window, Direction::Up)
    }

    /// The tiled windows right of `window`.
    pub fn tiled_window_right(&self, window: &WindowElement) -> (r: Vec<(WindowElement, Point)>)
        requires
            self.wf(),
            holds(self.tiling_layer.stack(), *window),
        ensures
            r@ == self.tiling_layer.stack().filter(
                |e: (WindowElement, Point)| lies_toward(Direction::Right, location_in(self.tiling_layer.stack(), *window)->0, e.1),
            ),
    {
        self.tiled_toward(window, Direction::Right)
    }

    /// The tiled windows left of `window`.
    pub fn tiled_window_left(&self, window: &WindowElement) -> (r: Vec<(WindowElement, Point)>)
        requires
            self.wf(),
            holds(self.tiling_layer.stack(), *window),
        ensures
            r@ == self.tiling_layer.stack().filter(
                |e: (WindowElement, Point)| lies_toward(Direction::Left, location_in(self.tiling_layer.stack(), *window)->0, e.1),
            ),
    {
        self.tiled_toward(window, Direction::Left)
    }
}

} // verus!

verus! {

/// All windows of a sequence of workspaces, workspace after workspace.
pub open spec fn all_windows(spaces: Seq<Workspace>) -> Seq<WindowElement> {
    spaces.map_values(|w: Workspace| w.windows_view()).flatten()
}

/// The first workspace of `spaces` that holds window `w`.
pub open spec fn window_holder(spaces: Seq<Workspace>, w: WindowElement) -> Option<Workspace>
    decreases spaces.len(),
{
    if spaces.len() == 0 {
        None
    } else if spaces[0].has_window(w) {
        Some(spaces[0])
    } else {
        window_holder(spaces.drop_first(), w)
    }
}

/// The first workspace of `spaces` with a window on `surface`, together
/// with the first such window in it.
pub open spec fn surface_owner(spaces: Seq<Workspace>, surface: u64) -> Option<(Workspace, WindowElement)>
    decreases spaces.len(),
{
    if spaces.len() == 0 {
        None
    } else {
        match first_with_surface(spaces[0].windows_view(), surface) {
            Some(w) => Some((spaces[0], w)),
            None => surface_owner(spaces.drop_first(), surface),
        }
    }
}

/// The workspaces of one output, of which one is current.
pub struct WorkspaceSet {
    pub output: OutputId,
    workspaces: Vec<Workspace>,
    current: usize,
}

impl WorkspaceSet {
    /// The workspaces, by index.
    pub closed spec fn spaces(&self) -> Seq<Workspace> {
        self.workspaces@
    }

    /// The output the set belongs to.
    pub closed spec fn output_of(&self) -> OutputId {
        self.output
    }

    /// The index of the current workspace.
    pub closed spec fn current_index(&self) -> usize {
        self.current
    }

    /// Every workspace is sound and the current index names one of them
    /// (or is 0 when there are none).
    pub open spec fn wf(&self) -> bool {
        &&& forall|i: int| 0 <= i < self.spaces().len() ==> #[trigger] self.spaces()[i].wf()
        &&& (self.current_index() < self.spaces().len() || (self.spaces().len() == 0
            && self.current_index() == 0))
    }

    /// `amount` empty workspaces for `output`, with handles 0, 1, ...; each
    /// is shown on the output at the origin. The first is current.
    pub fn new(output: OutputId, amount: usize) -> (set: WorkspaceSet)
        ensures
            set.wf(),
            set.output_of() == output,
            set.current_index() == 0,
            set.spaces().len() == amount,
            forall|i: int|
                0 <= i < amount ==> {
                    &&& (#[trigger] set.spaces()[i]).handle == i
                    &&& set.spaces()[i].output == output
                    &&& set.spaces()[i].tiling_layer.stack().len() == 0
                    &&& set.spaces()[i].floating_layer.stack().len() == 0
                    &&& set.spaces()[i].tiling_layer.mapped_outputs() == seq![(output, Point { x: 0, y: 0 })]
                    &&& set.spaces()[i].floating_layer.mapped_outputs() == seq![(output, Point { x: 0, y: 0 })]
                    &&& set.spaces()[i].fullscreen is None
                },
    {
        let mut workspaces: Vec<Workspace> = Vec::new();
        let mut i: usize = 0;
        while i < amount
            invariant
                i <= amount,
                workspaces@.len() == i,
                forall|j: int|
                    0 <= j < i ==> {
                        &&& (#[trigger] workspaces@[j]).wf()
                        &&& workspaces@[j].handle == j
                        &&& workspaces@[j].output == output
                        &&& workspaces@[j].tiling_layer.stack().len() == 0
                        &&& workspaces@[j].floating_layer.stack().len() == 0
                        &&& workspaces@[j].tiling_layer.mapped_outputs() == seq![(output, Point { x: 0, y: 0 })]
                        &&& workspaces@[j].floating_layer.mapped_outputs() == seq![(output, Point { x: 0, y: 0 })]
                        &&& workspaces@[j].fullscreen is None
                    },
            decreases amount - i,
        {
            let mut workspace = Workspace::new(i, output);
            workspace.set_output(output, Point { x: 0, y: 0 });
            workspaces.push(workspace);
            i = i + 1;
        }
        WorkspaceSet { workspaces, current: 0, output }
    }

    /// The workspace at `workspace_index`, if there is one.
    pub fn get(&self, workspace_index: usize) -> (r: Option<&Workspace>)
        ensures
            (workspace_index < self.spaces().len()) == (r is Some),
            r matches Some(w) ==> *w == self.spaces()[workspace_index as int],
    {
        if workspace_index < self.workspaces.len() {
            Some(&self.workspaces[workspace_index])
        } else {
            None
        }
    }

    /// The workspace at `workspace_index`, for changing it, if there is one.
    pub fn get_mut(&mut self, workspace_index: usize) -> (r: Option<&mut Workspace>)
        ensures
            (workspace_index < old(self).spaces().len()) == (r is Some),
            r matches Some(w) ==> *w == old(self).spaces()[workspace_index as int]
                && final(self).spaces() == old(self).spaces().update(workspace_index as int, *final(w)),
            r is None ==> final(self).spaces() == old(self).spaces(),
            final(self).current_index() == old(self).current_index(),
            final(self).output_of() == old(self).output_of(),
    {
        if workspace_index < self.workspaces.len() {
            Some(&mut self.workspaces[workspace_index])
        } else {
            None
        }
    }

    /// Makes the workspace at `workspace_index` current and returns it, when
    /// it exists; otherwise changes nothing and returns `None`.
    pub fn set_current_workspace(&mut self, workspace_index: usize) -> (r: Option<&Workspace>)
        requires
            old(self).wf(),
        ensures
            final(self).wf(),
            final(self).spaces() == old(self).spaces(),
            final(self).output_of() == old(self).output_of(),
            (workspace_index < old(self).spaces().len()) == (r is Some),
            r matches Some(w) ==> *w == old(self).spaces()[workspace_index as int],
            final(self).current_index() == (if workspace_index < old(self).spaces().len() {
                workspace_index
            } else {
                old(self).current_index()
            }),
    {
        if workspace_index < self.workspaces.len() {
            self.current = workspace_index;
            return Some(&self.workspaces[workspace_index]);
        }
        None
    }

    /// Makes the workspace at `workspace_index` current and returns it for
    /// changing, when it exists; otherwise changes nothing.
    pub fn set_current_workspace_mut(&mut self, workspace_index: usize) -> (r: Option<&mut Workspace>)
        requires
            old(self).wf(),
        ensures
            (workspace_index < old(self).spaces().len()) == (r is Some),
            r matches Some(w) ==> *w == old(self).spaces()[workspace_index as int]
                && final(self).spaces() == old(self).spaces().update(workspace_index as int, *final(w))
                && final(self).current_index() == workspace_index,
            r is None ==> final(self).spaces() == old(self).spaces() && final(self).current_index()
                == old(self).current_index(),
            final(self).output_of() == old(self).output_of(),
    {
        if workspace_index < self.workspaces.len() {
            self.current = workspace_index;
            return Some(&mut self.workspaces[workspace_index]);
        }
        None
    }

    /// The workspaces, by index.
    pub fn workspaces(&self) -> (r: Vec<&Workspace>)
        ensures
            r@.len() == self.spaces().len(),
            forall|i: int| 0 <= i < r@.len() ==> *(#[trigger] r@[i]) == self.spaces()[i],
    {
        let mut r: Vec<&Workspace> = Vec::new();
        let mut i: usize = 0;
        while i < self.workspaces.len()
            invariant
                i <= self.workspaces@.len(),
                r@.len() == i,
                forall|j: int| 0 <= j < i ==> *(#[trigger] r@[j]) == self.workspaces@[j],
            decreases self.workspaces@.len() - i,
        {
            r.push(&self.workspaces[i]);
            i = i + 1;
        }
        r
    }

    /// The first window, workspace after workspace, whose surface is
    /// `surface`.
    pub fn window_for_surface(&self, surface: u64) -> (r: Option<WindowElement>)
        ensures
            r == first_with_surface(all_windows(self.spaces()), surface),
    {
        let mut all: Vec<WindowElement> = Vec::new();
        let mut i: usize = 0;
        while i < self.workspaces.len()
            invariant
                i <= self.workspaces@.len(),
                all@ == all_windows(self.workspaces@.take(i as int)),
            decreases self.workspaces@.len() - i,
        {
            let mut ws = self.workspaces[i].windows();
            proof {
                let t = self.workspaces@.take(i as int);
                let f = |w: Workspace| w.windows_view();
                assert(self.workspaces@.take(i + 1) == t.push(self.workspaces@[i as int]));
                assert(t.push(self.workspaces@[i as int]).map_values(f) == t.map_values(f).push(f(self.workspaces@[i as int])));
                t.map_values(f).lemma_flatten_push(f(self.workspaces@[i as int]));
            }
            all.append(&mut ws);
            i = i + 1;
        }
        assert(self.workspaces@.take(i as int) == self.workspaces@);
        find_by_surface(&all, surface)
    }

    pub fn current_workspace_index(&self) -> (r: usize)
        ensures
            r == self.current_index(),
    {
        self.current
    }

    /// The current workspace.
    pub fn current_workspace(&self) -> (r: &Workspace)
        requires
            self.wf(),
            self.spaces().len() > 0,
        ensures
            *r == self.spaces()[self.current_index() as int],
    {
        &self.workspaces[self.current]
    }

    /// The current workspace, for changing it.
    pub fn current_workspace_mut(&mut self) -> (r: &mut Workspace)
        requires
            old(self).wf(),
            old(self).spaces().len() > 0,
        ensures
            *r == old(self).spaces()[old(self).current_index() as int],
            final(self).spaces() == old(self).spaces().update(old(self).current_index() as int, *final(r)),
            final(self).current_index() == old(self).current_index(),
            final(self).output_of() == old(self).output_of(),
    {
        &mut self.workspaces[self.current]
    }

    /// Shows all workspaces of the set on `output`.
    pub fn set_output(&mut self, output: OutputId)
        requires
            old(self).wf(),
        ensures
            final(self).wf(),
            final(self).output_of() == output,
            final(self).current_index() == old(self).current_index(),
            final(self).spaces().len() == old(self).spaces().len(),
            forall|i: int|
                0 <= i < old(self).spaces().len() ==> {
                    &&& (#[trigger] final(self).spaces()[i]).tiling_layer.mapped_outputs() == seq![(output, Point { x: 0, y: 0 })]
                    &&& final(self).spaces()[i].floating_layer.mapped_outputs() == seq![(output, Point { x: 0, y: 0 })]
                    &&& final(self).spaces()[i].tiling_layer.stack() == old(self).spaces()[i].tiling_layer.stack()
                    &&& final(self).spaces()[i].floating_layer.stack() == old(self).spaces()[i].floating_layer.stack()
                    &&& final(self).spaces()[i].handle == old(self).spaces()[i].handle
                    &&& final(self).spaces()[i].output == old(self).spaces()[i].output
                    &&& final(self).spaces()[i].fullscreen == old(self).spaces()[i].fullscreen
                },
    {
        let mut i: usize = 0;
        while i < self.workspaces.len()
            invariant
                i <= self.workspaces@.len(),
                self.workspaces@.len() == old(self).workspaces@.len(),
                self.current == old(self).current,
                old(self).wf(),
                forall|j: int| i <= j < self.workspaces@.len() ==> #[trigger] self.workspaces@[j] == old(self).workspaces@[j],
                forall|j: int|
                    0 <= j < i ==> {
                        &&& (#[trigger] self.workspaces@[j]).wf()
                        &&& self.workspaces@[j].tiling_layer.mapped_outputs() == seq![(output, Point { x: 0, y: 0 })]
                        &&& self.workspaces@[j].floating_layer.mapped_outputs() == seq![(output, Point { x: 0, y: 0 })]
                        &&& self.workspaces@[j].tiling_layer.stack() == old(self).workspaces@[j].tiling_layer.stack()
                        &&& self.workspaces@[j].floating_layer.stack() == old(self).workspaces@[j].floating_layer.stack()
                        &&& self.workspaces@[j].handle == old(self).workspaces@[j].handle
                        &&& self.workspaces@[j].output == old(self).workspaces@[j].output
                        &&& self.workspaces@[j].fullscreen == old(self).workspaces@[j].fullscreen
                    },
            decreases self.workspaces@.len() - i,
        {
            assert(self.workspaces@[i as int].wf());
            self.workspaces[i].set_output(output, Point { x: 0, y: 0 });
            i = i + 1;
        }
        self.output = output;
    }

    /// The index of the first workspace that holds `window`.
    fn index_for(&self, window: &WindowElement) -> (r: Option<usize>)
        requires
            self.wf(),
        ensures
            match r {
                Some(i) => i < self.spaces().len() && self.spaces()[i as int].has_window(*window)
                    && forall|j: int| 0 <= j < i ==> !(#[trigger] self.spaces()[j]).has_window(*window),
                None => forall|j: int| 0 <= j < self.spaces().len() ==> !(#[trigger] self.spaces()[j]).has_window(*window),
            },
    {
        let mut i: usize = 0;
        while i < self.workspaces.len()
            invariant
                i <= self.workspaces@.len(),
                self.wf(),
                forall|j: int| 0 <= j < i ==> !(#[trigger] self.workspaces@[j]).has_window(*window),
            decreases self.workspaces@.len() - i,
        {
            assert(self.workspaces@[i as int].wf());
            if self.workspaces[i].window_for_element(window).is_some() {
                return Some(i);
            }
            i = i + 1;
        }
        None
    }

    /// The first workspace that holds `window`.
    pub fn workspace_for(&self, window: &WindowElement) -> (r: Option<&Workspace>)
        requires
            self.wf(),
        ensures
            match r {
                Some(ws) => exists|i: int|
                    0 <= i < self.spaces().len() && *ws == self.spaces()[i] && ws.has_window(*window)
                        && forall|j: int| 0 <= j < i ==> !(#[trigger] self.spaces()[j]).has_window(*window),
                None => forall|j: int| 0 <= j < self.spaces().len() ==> !(#[trigger] self.spaces()[j]).has_window(*window),
            },
    {
        match self.index_for(window) {
            Some(i) => Some(&self.workspaces[i]),
            None => None,
        }
    }

    /// The first workspace that holds `window`, for changing it.
    pub fn workspace_for_mut(&mut self, window: &WindowElement) -> (r: Option<&mut Workspace>)
        requires
            old(self).wf(),
        ensures
            match r {
                Some(ws) => exists|i: int|
                    0 <= i < old(self).spaces().len() && *ws == old(self).spaces()[i] && ws.has_window(*window)
                        && (forall|j: int| 0 <= j < i ==> !(#[trigger] old(self).spaces()[j]).has_window(*window))
                        && final(self).spaces() == old(self).spaces().update(i, *final(ws)),
                None => (forall|j: int| 0 <= j < old(self).spaces().len() ==> !(#[trigger] old(self).spaces()[j]).has_window(*window))
                    && final(self).spaces() == old(self).spaces(),
            },
            final(self).current_index() == old(self).current_index(),
            final(self).output_of() == old(self).output_of(),
    {
        match self.index_for(window) {
            Some(i) => Some(&mut self.workspaces[i]),
            None => None,
        }
    }

    /// Moves `window` from the current workspace to the workspace at
    /// `workspace_index`, into the layer it had: when floating, to the place
    /// it had, on top; when tiled, at the end of the tiling order. A copy of
    /// it that the target workspace held already is
    /// replaced. When there is no such workspace the window goes back into
    /// the current one. Nothing happens when `workspace_index` is the
    /// current index. Every other window keeps its workspace and its place.
    pub fn move_window_to_workspace(&mut self, window: &WindowElement, workspace_index: usize)
        requires
            old(self).wf(),
            old(self).spaces().len() > 0,
            old(self).spaces()[old(self).current_index() as int].has_window(*window),
        ensures
            final(self).wf(),
            final(self).current_index() == old(self).current_index(),
            final(self).output_of() == old(self).output_of(),
            final(self).spaces().len() == old(self).spaces().len(),
            workspace_index == old(self).current_index() ==> final(self).spaces() == old(self).spaces(),
            workspace_index != old(self).current_index() ==> {
                let cur = old(self).current_index() as int;
                let was_floating = holds(old(self).spaces()[cur].floating_layer.stack(), *window);
                let target = if workspace_index < old(self).spaces().len() { workspace_index as int } else { cur };
                &&& final(self).spaces()[target].has_window(*window)
                &&& holds(final(self).spaces()[target].floating_layer.stack(), *window) == was_floating
                &&& was_floating ==> final(self).spaces()[target].location_of(*window)
                    == old(self).spaces()[cur].location_of(*window)
                &&& was_floating ==> final(self).spaces()[target].floating_layer.stack() == without(
                    old(self).spaces()[target].floating_layer.stack(),
                    *window,
                ).push((*window, old(self).spaces()[cur].location_of(*window)->0))
                &&& !was_floating ==> final(self).spaces()[target].tiling_layer.stack() == without(
                    old(self).spaces()[target].tiling_layer.stack(),
                    *window,
                ).push((*window, Point { x: 0, y: 0 }))
                &&& target != cur ==> !final(self).spaces()[cur].has_window(*window)
                &&& forall|w: WindowElement, i: int| w != *window && 0 <= i < old(self).spaces().len()
                    ==> #[trigger] final(self).spaces()[i].has_window(w) == old(self).spaces()[i].has_window(w)
                &&& forall|w: WindowElement, i: int| w != *window && 0 <= i < old(self).spaces().len()
                    ==> #[trigger] final(self).spaces()[i].location_of(w) == old(self).spaces()[i].location_of(w)
                &&& forall|i: int| 0 <= i < old(self).spaces().len() && i != cur && i != target
                    ==> #[trigger] final(self).spaces()[i] == old(self).spaces()[i]
            },
    {
        if self.current == workspace_index {
            return;
        }
        let cur = self.current;
        assert(self.workspaces@[cur as int].wf());
        let location = match self.workspaces[cur].window_location(window) {
            Some(p) => p,
            None => Point { x: 0, y: 0 },
        };
        let state = self.workspaces[cur].unmap_window(window);
        let layer = match state {
            Some(s) => s.layer,
            None => ManagedLayer::Tiling,
        };
        if workspace_index < self.workspaces.len() {
            assert(self.workspaces@[workspace_index as int].wf());
            let _ = self.workspaces[workspace_index].unmap_window(window);
            self.workspaces[workspace_index].place_window(*window, layer, location);
        } else {
            self.workspaces[cur].place_window(*window, layer, location);
        }
    }
}

} // verus!

verus! {

#[verifier::external_type_specification]
#[verifier::external_body]
#[verifier::reject_recursive_types(K)]
#[verifier::reject_recursive_types(V)]
#[verifier::reject_recursive_types(S)]
pub struct ExIndexMap<K, V, S>(IndexMap<K, V, S>);

/// The entries of an `IndexMap` from outputs to their workspace sets, in
/// the map's order (the order in which the keys were first inserted).
pub uninterp spec fn set_entries(m: IndexMap<OutputId, WorkspaceSet, RandomState>) -> Seq<(OutputId, WorkspaceSet)>;

/// `IndexMap::new`: an empty map.
#[verifier::external_body]
fn set_map_new() -> (m: IndexMap<OutputId, WorkspaceSet>)
    ensures
        set_entries(m) == Seq::<(OutputId, WorkspaceSet)>::empty(),
{
    IndexMap::new()
}

/// `IndexMap::len`: the number of entries.
#[verifier::external_body]
fn set_map_len(m: &IndexMap<OutputId, WorkspaceSet>) -> (n: usize)
    ensures
        n == set_entries(*m).len(),
{
    m.len()
}

/// `IndexMap::get_index_of`: the position of the entry for `key`, or
/// `None` when there is none.
#[verifier::external_body]
fn set_map_index_of(m: &IndexMap<OutputId, WorkspaceSet>, key: OutputId) -> (r: Option<usize>)
    ensures
        match r {
            Some(i) => i < set_entries(*m).len() && set_entries(*m)[i as int].0 == key,
            None => forall|i: int| 0 <= i < set_entries(*m).len() ==> set_entries(*m)[i].0 != key,
        },
{
    m.get_index_of(&key)
}

/// `IndexMap::get_index`: the value of the entry at position `i`.
#[verifier::external_body]
fn set_map_get_index(m: &IndexMap<OutputId, WorkspaceSet>, i: usize) -> (r: &WorkspaceSet)
    requires
        i < set_entries(*m).len(),
    ensures
        *r == set_entries(*m)[i as int].1,
{
    m.get_index(i).unwrap().1
}

/// `IndexMap::get_index_mut`: the value of the entry at position `i`, for
/// changing it in place; the entry keeps its key and position.
#[verifier::external_body]
fn set_map_get_index_mut(m: &mut IndexMap<OutputId, WorkspaceSet>, i: usize) -> (r: &mut WorkspaceSet)
    requires
        i < set_entries(*old(m)).len(),
    ensures
        *r == set_entries(*old(m))[i as int].1,
        set_entries(*final(m)) == set_entries(*old(m)).update(i as int, (set_entries(*old(m))[i as int].0, *final(r))),
{
    m.get_index_mut(i).unwrap().1
}

/// `IndexMap::insert`: a key already present keeps its position and gets
/// the new value (the old one is returned); a new key goes last.
#[verifier::external_body]
fn set_map_insert(m: &mut IndexMap<OutputId, WorkspaceSet>, key: OutputId, value: WorkspaceSet) -> (r: Option<WorkspaceSet>)
    ensures
        (exists|i: int| 0 <= i < set_entries(*old(m)).len() && set_entries(*old(m))[i].0 == key) ==> exists|i: int|
            0 <= i < set_entries(*old(m)).len() && set_entries(*old(m))[i].0 == key
                && set_entries(*final(m)) == set_entries(*old(m)).update(i, (key, value))
                && r == Some(set_entries(*old(m))[i].1),
        !(exists|i: int| 0 <= i < set_entries(*old(m)).len() && set_entries(*old(m))[i].0 == key) ==> set_entries(
            *final(m),
        ) == set_entries(*old(m)).push((key, value)) && r is None,
{
    m.insert(key, value)
}

/// Some entry of `e` has key `o`.
pub open spec fn has_key(e: Seq<(OutputId, WorkspaceSet)>, o: OutputId) -> bool {
    exists|i: int| 0 <= i < e.len() && e[i].0 == o
}

/// The position of the entry with key `o` (meaningful when there is one).
pub open spec fn key_index(e: Seq<(OutputId, WorkspaceSet)>, o: OutputId) -> int {
    choose|i: int| 0 <= i < e.len() && e[i].0 == o
}

/// The workspace sets of all outputs, and a set kept aside while no output
/// is there to show it.
pub struct Workspaces {
    pub sets: IndexMap<OutputId, WorkspaceSet>,
    pub backup_set: Option<WorkspaceSet>,
    pub amount: usize,
}

impl Workspaces {
    /// The sets, by output, in the order the outputs were added.
    pub open spec fn entries(&self) -> Seq<(OutputId, WorkspaceSet)> {
        set_entries(self.sets)
    }

    /// No output has two sets, each set is sound and belongs to the output
    /// it is filed under, and the spare set is sound.
    pub open spec fn wf(&self) -> bool {
        &&& forall|i: int, j: int|
            0 <= i < self.entries().len() && 0 <= j < self.entries().len() && i != j
                ==> self.entries()[i].0 != self.entries()[j].0
        &&& forall|i: int|
            0 <= i < self.entries().len() ==> (#[trigger] self.entries()[i]).1.wf()
                && self.entries()[i].1.output_of() == self.entries()[i].0
        &&& self.backup_set matches Some(b) ==> b.wf()
    }

    /// No output yet; each output added gets `amount` workspaces.
    pub fn new(amount: usize) -> (w: Workspaces)
        ensures
            w.wf(),
            w.entries().len() == 0,
            w.backup_set is None,
            w.amount == amount,
    {
        Workspaces { sets: set_map_new(), backup_set: None, amount }
    }

    /// Gives `output` a workspace set, unless it has one: the spare set,
    /// moved onto the output, when there is one, and else a fresh set of
    /// `amount` workspaces. The new set goes last.
    pub fn add_output(&mut self, output: OutputId)
        requires
            old(self).wf(),
        ensures
            final(self).wf(),
            final(self).amount == old(self).amount,
            has_key(final(self).entries(), output),
            has_key(old(self).entries(), output) ==> *final(self) == *old(self),
            !has_key(old(self).entries(), output) ==> {
                &&& final(self).entries().len() == old(self).entries().len() + 1
                &&& final(self).entries().drop_last() == old(self).entries()
                &&& final(self).entries().last().0 == output
                &&& final(self).entries().last().1.output_of() == output
                &&& final(self).backup_set is None
                &&& match old(self).backup_set {
                    Some(b) => {
                        &&& final(self).entries().last().1.spaces().len() == b.spaces().len()
                        &&& final(self).entries().last().1.current_index() == b.current_index()
                        &&& forall|i: int| 0 <= i < b.spaces().len() ==> {
                            &&& (#[trigger] final(self).entries().last().1.spaces()[i]).tiling_layer.stack()
                                == b.spaces()[i].tiling_layer.stack()
                            &&& final(self).entries().last().1.spaces()[i].floating_layer.stack()
                                == b.spaces()[i].floating_layer.stack()
                            &&& final(self).entries().last().1.spaces()[i].tiling_layer.mapped_outputs()
                                == seq![(output, Point { x: 0, y: 0 })]
                            &&& final(self).entries().last().1.spaces()[i].floating_layer.mapped_outputs()
                                == seq![(output, Point { x: 0, y: 0 })]
                            &&& final(self).entries().last().1.spaces()[i].handle == b.spaces()[i].handle
                            &&& final(self).entries().last().1.spaces()[i].fullscreen == b.spaces()[i].fullscreen
                        }
                    },
                    None => {
                        &&& final(self).entries().last().1.spaces().len() == old(self).amount
                        &&& final(self).entries().last().1.current_index() == 0
                        &&& forall|i: int| 0 <= i < old(self).amount ==> {
                            &&& (#[trigger] final(self).entries().last().1.spaces()[i]).handle == i
                            &&& final(self).entries().last().1.spaces()[i].output == output
                            &&& final(self).entries().last().1.spaces()[i].windows_view().len() == 0
                            &&& final(self).entries().last().1.spaces()[i].tiling_layer.mapped_outputs()
                                == seq![(output, Point { x: 0, y: 0 })]
                            &&& final(self).entries().last().1.spaces()[i].floating_layer.mapped_outputs()
                                == seq![(output, Point { x: 0, y: 0 })]
                            &&& final(self).entries().last().1.spaces()[i].fullscreen is None
                        }
                    },
                }
            },
    {
        if set_map_index_of(&self.sets, output).is_some() {
            return;
        }
        let set = match self.backup_set.take() {
            Some(mut set) => {
                set.set_output(output);
                set
            },
            None => {
                let set = WorkspaceSet::new(output, self.amount);
                proof {
                    assert forall|i: int| 0 <= i < old(self).amount implies
                        (#[trigger] set.spaces()[i]).windows_view().len() == 0 by {}
                }
                set
            },
        };
        set_map_insert(&mut self.sets, output, set);
        proof {
            let e = self.entries();
            let o = old(self).entries();
            assert(e[e.len() - 1].0 == output);
            assert(e.drop_last() =~= o);
            assert forall|i: int, j: int| 0 <= i < e.len() && 0 <= j < e.len() && i != j implies e[i].0 != e[j].0 by {
                if i == e.len() - 1 {
                    assert(e[j] == o[j]);
                } else if j == e.len() - 1 {
                    assert(e[i] == o[i]);
                } else {
                    assert(e[i] == o[i] && e[j] == o[j]);
                }
            }
            assert forall|i: int| 0 <= i < e.len() implies (#[trigger] e[i]).1.wf() && e[i].1.output_of() == e[i].0 by {
                if i < e.len() - 1 {
                    assert(e[i] == o[i]);
                }
            }
        }
    }

    /// The position of the set of `output`, if it has one.
    pub fn index_of(&self, output: OutputId) -> (r: Option<usize>)
        ensures
            match r {
                Some(i) => i < self.entries().len() && self.entries()[i as int].0 == output,
                None => !has_key(self.entries(), output),
            },
    {
        set_map_index_of(&self.sets, output)
    }

    /// The set of `output`, if it has one.
    pub fn workspace_set(&self, output: OutputId) -> (r: Option<&WorkspaceSet>)
        ensures
            has_key(self.entries(), output) == (r is Some),
            r matches Some(s) ==> exists|i: int|
                0 <= i < self.entries().len() && self.entries()[i].0 == output && *s == self.entries()[i].1,
    {
        match set_map_index_of(&self.sets, output) {
            Some(i) => Some(set_map_get_index(&self.sets, i)),
            None => None,
        }
    }

    /// The set of `output`, for changing it, if it has one.
    pub fn workspace_set_mut(&mut self, output: OutputId) -> (r: Option<&mut WorkspaceSet>)
        requires
            old(self).wf(),
        ensures
            has_key(old(self).entries(), output) == (r is Some),
            r matches Some(s) ==> *s == old(self).entries()[key_index(old(self).entries(), output)].1
                && final(self).entries() == old(self).entries().update(
                    key_index(old(self).entries(), output),
                    (output, *final(s)),
                ),
            r is None ==> final(self).entries() == old(self).entries(),
            final(self).backup_set == old(self).backup_set,
            final(self).amount == old(self).amount,
    {
        match set_map_index_of(&self.sets, output) {
            Some(i) => {
                proof {
                    let e = self.entries();
                    let k = key_index(e, output);
                    assert(0 <= i < e.len() && e[i as int].0 == output);
                    assert(k == i);
                }
                Some(set_map_get_index_mut(&mut self.sets, i))
            },
            None => None,
        }
    }

    /// Makes the workspace at `workspace_index` current in the set of
    /// `output` (or in the spare set when the output has none) and returns
    /// it; `None`, and nothing changes, when there is no such set or no
    /// such workspace. The sets of other outputs are left alone, and so is
    /// the spare set when the output has a set.
    pub fn set_current_workspace(&mut self, output: OutputId, workspace_index: usize) -> (r: Option<&Workspace>)
        requires
            old(self).wf(),
        ensures
            final(self).wf(),
            final(self).amount == old(self).amount,
            r is None ==> *final(self) == *old(self),
            has_key(old(self).entries(), output) ==> {
                let i = key_index(old(self).entries(), output);
                let s = old(self).entries()[i].1;
                &&& final(self).backup_set == old(self).backup_set
                &&& (r is Some) == (workspace_index < s.spaces().len())
                &&& r matches Some(w) ==> {
                    let ns = final(self).entries()[i].1;
                    &&& *w == s.spaces()[workspace_index as int]
                    &&& ns.spaces() == s.spaces()
                    &&& ns.current_index() == workspace_index
                    &&& ns.output_of() == s.output_of()
                    &&& final(self).entries() == old(self).entries().update(i, (output, ns))
                }
            },
            !has_key(old(self).entries(), output) ==> final(self).entries() == old(self).entries() && match old(self).backup_set {
                Some(b) => {
                    &&& (r is Some) == (workspace_index < b.spaces().len())
                    &&& r matches Some(w) ==> final(self).backup_set matches Some(nb)
                        && *w == b.spaces()[workspace_index as int]
                        && nb.spaces() == b.spaces()
                        && nb.current_index() == workspace_index
                        && nb.output_of() == b.output_of()
                },
                None => r is None,
            },
    {
        match set_map_index_of(&self.sets, output) {
            Some(i) => {
                let ghost e = self.entries();
                proof {
                    assert(e[i as int].1.wf());
                    assert(key_index(e, output) == i);
                }
                if set_map_get_index(&self.sets, i).get(workspace_index).is_none() {
                    return None;
                }
                let set = set_map_get_index_mut(&mut self.sets, i);
                let _ = set.set_current_workspace(workspace_index);
                proof {
                    let f = self.entries();
                    assert(f[i as int].1.wf());
                    assert(self.backup_set == old(self).backup_set);
                    assert(self.backup_set matches Some(b) ==> b.wf());
                    assert forall|a: int, b: int| 0 <= a < f.len() && 0 <= b < f.len() && a != b implies f[a].0 != f[b].0 by {
                        assert(f[a].0 == e[a].0 && f[b].0 == e[b].0);
                    }
                    assert forall|a: int| 0 <= a < f.len() implies (#[trigger] f[a]).1.wf() && f[a].1.output_of() == f[a].0 by {
                        if a != i {
                            assert(f[a] == e[a]);
                        }
                    }
                }
                set_map_get_index(&self.sets, i).get(workspace_index)
            },
            None => {
                let exists = match &self.backup_set {
                    Some(set) => set.get(workspace_index).is_some(),
                    None => false,
                };
                if !exists {
                    return None;
                }
                match self.backup_set.take() {
                    Some(mut set) => {
                        let _ = set.set_current_workspace(workspace_index);
                        self.backup_set = Some(set);
                    },
                    None => {},
                }
                assert(self.entries() == old(self).entries());
                assert(self.backup_set matches Some(b) ==> b.wf());
                match &self.backup_set {
                    Some(set) => set.get(workspace_index),
                    None => None,
                }
            },
        }
    }

    /// Makes the workspace at `workspace_index` current in the set of
    /// `output` (or in the spare set when the output has none) and returns
    /// it for changing; `None`, and nothing changes, when there is no such
    /// set or no such workspace.
    pub fn set_current_workspace_mut(&mut self, output: OutputId, workspace_index: usize) -> (r: Option<&mut Workspace>)
        requires
            old(self).wf(),
        ensures
            final(self).amount == old(self).amount,
            r is None ==> *final(self) == *old(self),
            final(self).entries().len() == old(self).entries().len(),
            has_key(old(self).entries(), output) ==> {
                let i = key_index(old(self).entries(), output);
                let s = old(self).entries()[i].1;
                &&& final(self).backup_set == old(self).backup_set
                &&& (r is Some) == (workspace_index < s.spaces().len())
                &&& r is None ==> final(self).entries() == old(self).entries()
                &&& r matches Some(w) ==> {
                    let ns = final(self).entries()[i].1;
                    &&& *w == s.spaces()[workspace_index as int]
                    &&& ns.spaces() == s.spaces().update(workspace_index as int, *final(w))
                    &&& ns.current_index() == workspace_index
                    &&& ns.output_of() == s.output_of()
                    &&& final(self).entries() == old(self).entries().update(i, (output, ns))
                }
            },
            !has_key(old(self).entries(), output) ==> final(self).entries() == old(self).entries() && match old(self).backup_set {
                Some(b) => {
                    &&& (r is Some) == (workspace_index < b.spaces().len())
                    &&& r is None ==> final(self).backup_set == old(self).backup_set
                    &&& r matches Some(w) ==> final(self).backup_set matches Some(nb)
                        && *w == b.spaces()[workspace_index as int]
                        && nb.spaces() == b.spaces().update(workspace_index as int, *final(w))
                        && nb.current_index() == workspace_index
                        && nb.output_of() == b.output_of()
                },
                None => r is None && final(self).backup_set is None,
            },
    {
        match set_map_index_of(&self.sets, output) {
            Some(i) => {
                proof {
                    let e = self.entries();
                    assert(e[i as int].1.wf());
                    assert(key_index(e, output) == i);
                }
                if set_map_get_index(&self.sets, i).get(workspace_index).is_none() {
                    return None;
                }
                let set = set_map_get_index_mut(&mut self.sets, i);
                set.set_current_workspace_mut(workspace_index)
            },
            None => {
                let exists = match &self.backup_set {
                    Some(set) => set.get(workspace_index).is_some(),
                    None => false,
                };
                if !exists {
                    return None;
                }
                match &mut self.backup_set {
                    Some(set) => set.set_current_workspace_mut(workspace_index),
                    None => None,
                }
            },
        }
    }

    /// All workspaces, set after set.
    pub open spec fn all_spaces(&self) -> Seq<Workspace> {
        self.entries().map_values(|e: (OutputId, WorkspaceSet)| e.1.spaces()).flatten()
    }

    /// The first workspace, set after set, that holds `window`.
    pub fn workspace_for(&self, window: &WindowElement) -> (r: Option<&Workspace>)
        requires
            self.wf(),
        ensures
            match r {
                Some(ws) => window_holder(self.all_spaces(), *window) == Some(*ws) && ws.wf(),
                None => window_holder(self.all_spaces(), *window) is None,
            },
    {
        let spaces = self.workspaces();
        let ghost all = self.all_spaces();
        assert(all.skip(0) =~= all);
        let mut i: usize = 0;
        while i < spaces.len()
            invariant
                i <= spaces@.len(),
                spaces@.len() == all.len(),
                all == self.all_spaces(),
                forall|k: int| 0 <= k < spaces@.len() ==> *(#[trigger] spaces@[k]) == all[k],
                forall|k: int| 0 <= k < spaces@.len() ==> (#[trigger] spaces@[k]).wf(),
                window_holder(all, *window) == window_holder(all.skip(i as int), *window),
            decreases spaces@.len() - i,
        {
            let ws: &Workspace = spaces[i];
            proof {
                assert(all.skip(i as int)[0] == *ws);
                assert(all.skip(i as int).drop_first() =~= all.skip(i + 1));
            }
            if ws.window_for_element(window).is_some() {
                return Some(ws);
            }
            i = i + 1;
        }
        assert(all.skip(i as int).len() == 0);
        None
    }

    /// All workspaces, set after set.
    pub fn workspaces(&self) -> (r: Vec<&Workspace>)
        requires
            self.wf(),
        ensures
            r@.len() == self.all_spaces().len(),
            forall|i: int| 0 <= i < r@.len() ==> *(#[trigger] r@[i]) == self.all_spaces()[i],
            forall|i: int| 0 <= i < r@.len() ==> (#[trigger] r@[i]).wf(),
    {
        let ghost f = |e: (OutputId, WorkspaceSet)| e.1.spaces();
        let mut r: Vec<&Workspace> = Vec::new();
        let n = set_map_len(&self.sets);
        let mut i: usize = 0;
        while i < n
            invariant
                i <= n,
                n == self.entries().len(),
                f == (|e: (OutputId, WorkspaceSet)| e.1.spaces()),
                r@.len() == self.entries().take(i as int).map_values(f).flatten().len(),
                forall|k: int| 0 <= k < r@.len() ==> *(#[trigger] r@[k]) == self.entries().take(i as int).map_values(f).flatten()[k],
                forall|k: int| 0 <= k < r@.len() ==> (#[trigger] r@[k]).wf(),
                self.wf(),
            decreases n - i,
        {
            let set = set_map_get_index(&self.sets, i);
            assert(set.wf());
            let spaces = set.workspaces();
            let ghost before = r@;
            proof {
                let t = self.entries().take(i as int);
                assert(self.entries().take(i + 1) == t.push(self.entries()[i as int]));
                assert(t.push(self.entries()[i as int]).map_values(f) == t.map_values(f).push(f(self.entries()[i as int])));
                t.map_values(f).lemma_flatten_push(f(self.entries()[i as int]));
            }
            let mut j: usize = 0;
            while j < spaces.len()
                invariant
                    j <= spaces@.len(),
                    spaces@.len() == set.spaces().len(),
                    forall|k: int| 0 <= k < spaces@.len() ==> *(#[trigger] spaces@[k]) == set.spaces()[k],
                    r@.len() == before.len() + j,
                    forall|k: int| 0 <= k < before.len() ==> #[trigger] r@[k] == before[k],
                    forall|k: int| 0 <= k < j ==> *(#[trigger] r@[before.len() + k]) == set.spaces()[k],
                    forall|k: int| 0 <= k < r@.len() ==> (#[trigger] r@[k]).wf(),
                    set.wf(),
                decreases spaces@.len() - j,
            {
                r.push(spaces[j]);
                j = j + 1;
            }
            proof {
                let t = self.entries().take(i as int);
                let g = t.map_values(f).flatten();
                let h = self.entries().take(i + 1).map_values(f).flatten();
                assert(h == g + set.spaces());
                assert forall|k: int| 0 <= k < r@.len() implies *(#[trigger] r@[k]) == h[k] by {
                    if k < before.len() {
                        assert(r@[k] == before[k]);
                    } else {
                        assert(*r@[before.len() + (k - before.len())] == set.spaces()[k - before.len()]);
                    }
                }
            }
            i = i + 1;
        }
        assert(self.entries().take(n as int) == self.entries());
        r
    }

    /// The outputs that have a workspace set, in the order they were added;
    /// the first is the primary output.
    pub fn outputs(&self) -> (r: Vec<OutputId>)
        requires
            self.wf(),
        ensures
            r@ == self.entries().map_values(|e: (OutputId, WorkspaceSet)| e.0),
    {
        let mut r: Vec<OutputId> = Vec::new();
        let n = set_map_len(&self.sets);
        let mut i: usize = 0;
        while i < n
            invariant
                i <= n,
                n == self.entries().len(),
                r@ == self.entries().take(i as int).map_values(|e: (OutputId, WorkspaceSet)| e.0),
                self.wf(),
            decreases n - i,
        {
            let set = set_map_get_index(&self.sets, i);
            proof {
                assert(self.entries()[i as int].1.output_of() == self.entries()[i as int].0);
                assert(set.output == set.output_of());
                assert(self.entries().take(i + 1) == self.entries().take(i as int).push(self.entries()[i as int]));
            }
            r.push(set.output);
            i = i + 1;
        }
        assert(self.entries().take(n as int) == self.entries());
        r
    }

    /// The workspace sets, in the order the outputs were added.
    pub fn workspacesets(&self) -> (r: Vec<&WorkspaceSet>)
        ensures
            r@.len() == self.entries().len(),
            forall|i: int| 0 <= i < r@.len() ==> *(#[trigger] r@[i]) == self.entries()[i].1,
    {
        let mut r: Vec<&WorkspaceSet> = Vec::new();
        let n = set_map_len(&self.sets);
        let mut i: usize = 0;
        while i < n
            invariant
                i <= n,
                n == self.entries().len(),
                r@.len() == i,
                forall|k: int| 0 <= k < i ==> *(#[trigger] r@[k]) == self.entries()[k].1,
            decreases n - i,
        {
            r.push(set_map_get_index(&self.sets, i));
            i = i + 1;
        }
        r
    }
}

} // verus!
