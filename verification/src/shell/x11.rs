//! Bookkeeping for X11 windows.
use vstd::prelude::*;

use crate::element::WindowElement;
use crate::geometry::{Point, Rectangle, Size};
use crate::grabs::move_grab::MoveSurfaceGrab;
use crate::grabs::resize_grab::{
    resize_start_fits, resize_start_rect, start_resize, starts_resize, x11_edge_bits, ResizeEdge,
    ResizeSurfaceGrab, ResizeSurfaceState, X11ResizeEdge,
};
use crate::shell::FullscreenSurface;
use crate::shell::layout::space::{
    holds, law_raise_keeps_windows_and_locations, law_unmap_undoes_map, lemma_map_holds, without, OutputId,
};
use crate::workspace::{relocated, Workspace};

verus! {

/// The geometry an X11 window had before it was maximized.
#[derive(Debug, Clone, Copy, PartialEq, Eq, Structural)]
pub struct OldGeometry {
    geo: Option<Rectangle>,
}

impl OldGeometry {
    pub closed spec fn saved(&self) -> Option<Rectangle> {
        self.geo
    }

    pub fn new() -> (g: OldGeometry)
        ensures
            g.saved() is None,
    {
        OldGeometry { geo: None }
    }

    pub fn save(&mut self, geo: Rectangle)
        ensures
            final(self).saved() == Some(geo),
    {
        self.geo = Some(geo);
    }

    /// Hands back the saved geometry and forgets it.
    pub fn restore(&mut self) -> (r: Option<Rectangle>)
        ensures
            r == old(self).saved(),
            final(self).saved() is None,
    {
        let r = self.geo;
        self.geo = None;
        r
    }
}

/// The geometry granted to an X11 configure request: the window keeps its
/// place and gets the width and height it asks for, if it asks; a width or
/// height is taken as the `i32` with the same bits.
pub fn configure_request_geometry(geo: Rectangle, w: Option<u32>, h: Option<u32>) -> (r: Rectangle)
    ensures
        r.loc == geo.loc,
        r.size == (Size {
            w: match w { Some(w) => w as i32, None => geo.size.w },
            h: match h { Some(h) => h as i32, None => geo.size.h },
        }),
{
    let mut geo = geo;
    if let Some(w) = w {
        geo.size.w = w as i32;
    }
    if let Some(h) = h {
        geo.size.h = h as i32;
    }
    geo
}

/// The output on which a window is maximized or made fullscreen: the first
/// output the window is on, or else the first output there is.
pub fn output_for_window(outputs_for_window: &Vec<OutputId>, outputs: &Vec<OutputId>) -> (r: OutputId)
    requires
        outputs_for_window@.len() > 0 || outputs@.len() > 0,
    ensures
        r == (if outputs_for_window@.len() > 0 { outputs_for_window@[0] } else { outputs@[0] }),
{
    if outputs_for_window.len() > 0 {
        outputs_for_window[0]
    } else {
        outputs[0]
    }
}

/// Starts an interactive resize by `edge` of an X11 window of the current
/// workspace, whose size is `size` and whose server-side title bar, if it
/// has one, is `title_bar` high. X11 geometry includes the bar, so the
/// resize starts below it. `None` when the workspace does not hold the
/// window.
pub fn resize_request_x11(
    workspace: &Workspace,
    window: &WindowElement,
    edge: X11ResizeEdge,
    size: Size,
    title_bar: Option<i32>,
) -> (r: Option<(ResizeSurfaceGrab, ResizeSurfaceState)>)
    requires
        workspace.wf(),
        workspace.location_of(*window) matches Some(loc) ==> resize_start_fits(loc, size, title_bar, true),
    ensures
        match workspace.location_of(*window) {
            None => r is None,
            Some(loc) => r matches Some((grab, state)) && starts_resize(
                grab,
                state,
                *window,
                x11_edge_bits(edge),
                resize_start_rect(loc, size, title_bar, true),
            ),
        },
{
    let loc = match workspace.window_location(window) {
        Some(loc) => loc,
        None => return None,
    };
    Some(start_resize(*window, ResizeEdge::from_x11(edge), loc, size, title_bar, true))
}

/// Maximizes an X11 window of the current workspace on the output whose
/// geometry is `output_geo`: the window's present geometry `old_geo` is
/// kept in `saved`, the window is brought to the output's corner, and the
/// geometry to configure it with is returned. A window the workspace does
/// not hold is left alone.
pub fn maximize_request_x11(
    workspace: &mut Workspace,
    window: &WindowElement,
    old_geo: Rectangle,
    output_geo: Rectangle,
    saved: &mut OldGeometry,
) -> (r: Option<Rectangle>)
    requires
        old(workspace).wf(),
    ensures
        final(workspace).wf(),
        r == (if old(workspace).has_window(*window) { Some(output_geo) } else { None }),
        r is Some ==> final(saved).saved() == Some(old_geo)
            && relocated(*old(workspace), *final(workspace), *window, output_geo.loc),
        r is None ==> *final(saved) == *old(saved) && *final(workspace) == *old(workspace),
{
    if workspace.window_for_element(window).is_none() {
        return None;
    }
    saved.save(old_geo);
    workspace.relocate_window(window, output_geo.loc);
    Some(output_geo)
}

/// Takes an X11 window of the current workspace out of the maximized state.
/// `None`, and nothing changes, when the workspace does not hold the
/// window. Otherwise the geometry kept in `saved` is handed back and
/// forgotten, and the window is brought to its place: the result is
/// `Some` of that geometry, to configure the window with, or `Some(None)`
/// when none was kept.
pub fn unmaximize_request(
    workspace: &mut Workspace,
    window: &WindowElement,
    saved: &mut OldGeometry,
) -> (r: Option<Option<Rectangle>>)
    requires
        old(workspace).wf(),
    ensures
        final(workspace).wf(),
        !old(workspace).has_window(*window) ==> r is None && *final(workspace) == *old(workspace)
            && *final(saved) == *old(saved),
        old(workspace).has_window(*window) ==> r == Some(old(saved).saved()) && final(saved).saved() is None
            && match old(saved).saved() {
                Some(g) => relocated(*old(workspace), *final(workspace), *window, g.loc),
                None => *final(workspace) == *old(workspace),
            },
{
    if workspace.window_for_element(window).is_none() {
        return None;
    }
    let restored = saved.restore();
    if let Some(g) = restored {
        workspace.relocate_window(window, g.loc);
    }
    Some(restored)
}

/// Starts moving an X11 window of the current workspace, from the place it
/// has. A maximized window is taken out of that state and the move starts
/// at the pointer's position `pointer`; the geometry kept in `saved`, if
/// any, is handed back and forgotten, and the window is configured with its
/// size at the pointer: that rectangle comes with the grab. `None` when the
/// workspace does not hold the window.
pub fn move_request_x11(
    workspace: &Workspace,
    window: &WindowElement,
    maximized: bool,
    pointer: Point,
    saved: &mut OldGeometry,
) -> (r: Option<(MoveSurfaceGrab, Option<Rectangle>)>)
    requires
        workspace.wf(),
    ensures
        match workspace.location_of(*window) {
            None => r is None && *final(saved) == *old(saved),
            Some(loc) => if maximized {
                &&& r == Some((
                    MoveSurfaceGrab { window: *window, initial_window_location: pointer },
                    match old(saved).saved() {
                        Some(g) => Some(Rectangle { loc: pointer, size: g.size }),
                        None => None,
                    },
                ))
                &&& final(saved).saved() is None
            } else {
                &&& r == Some((MoveSurfaceGrab { window: *window, initial_window_location: loc }, None::<Rectangle>))
                &&& *final(saved) == *old(saved)
            },
        },
{
    let loc = match workspace.window_location(window) {
        Some(loc) => loc,
        None => return None,
    };
    if maximized {
        let configure = match saved.restore() {
            Some(g) => Some(Rectangle { loc: pointer, size: g.size }),
            None => None,
        };
        Some((MoveSurfaceGrab { window: *window, initial_window_location: pointer }, configure))
    } else {
        Some((MoveSurfaceGrab { window: *window, initial_window_location: loc }, None))
    }
}

/// Maximizing a floating X11 window and then taking it out of that state,
/// with its place before as the geometry kept, gives every window of the
/// workspace back the place it had, and the workspace holds the same
/// windows; only the stacking order may differ, with the window on top.
pub proof fn law_unmaximize_restores_places(
    before: Workspace,
    maximized: Workspace,
    after: Workspace,
    w: WindowElement,
    corner: Point,
)
    requires
        before.wf(),
        holds(before.floating_layer.stack(), w),
        relocated(before, maximized, w, corner),
        relocated(maximized, after, w, before.location_of(w)->0),
    ensures
        forall|v: WindowElement| #[trigger] after.location_of(v) == before.location_of(v),
        forall|v: WindowElement| #[trigger] after.has_window(v) == before.has_window(v),
{
    let s = before.floating_layer.stack();
    let p = before.location_of(w)->0;
    law_unmap_undoes_map(s, w, corner);
    lemma_map_holds(s, w, corner);
    assert(after.floating_layer.stack() == without(s, w).push((w, p)));
    law_raise_keeps_windows_and_locations(s, w);
}

/// The position of the first record in `records` that shows `w`
/// fullscreen.
pub open spec fn record_showing(records: Seq<(OutputId, FullscreenSurface)>, w: WindowElement) -> Option<int> {
    if exists|i: int| 0 <= i < records.len() && records[i].1.window_of() == Some(w) {
        Some(
            choose|i: int|
                0 <= i < records.len() && records[i].1.window_of() == Some(w) && forall|j: int|
                    0 <= j < i ==> records[j].1.window_of() != Some(w),
        )
    } else {
        None
    }
}

/// The position of the first record in `records` kept for output `o`.
pub open spec fn record_of(records: Seq<(OutputId, FullscreenSurface)>, o: OutputId) -> Option<int> {
    if exists|i: int| 0 <= i < records.len() && records[i].0 == o {
        Some(
            choose|i: int|
                0 <= i < records.len() && records[i].0 == o && forall|j: int| 0 <= j < i ==> records[j].0 != o,
        )
    } else {
        None
    }
}

/// Where `sets_record` puts the record of output `o`: at its place, or
/// last when `old` has none for it.
pub open spec fn record_place(old: Seq<(OutputId, FullscreenSurface)>, o: OutputId) -> int {
    match record_of(old, o) {
        Some(i) => i,
        None => old.len() as int,
    }
}

/// `new` is `old` with the record of output `o` showing `w`, gone
/// fullscreen on the workspace with index `idx`; a record is added, last,
/// when `old` has none for `o`.
pub open spec fn sets_record(
    old: Seq<(OutputId, FullscreenSurface)>,
    new: Seq<(OutputId, FullscreenSurface)>,
    o: OutputId,
    w: WindowElement,
    idx: usize,
) -> bool {
    let n = old.len();
    let k = record_place(old, o);
    &&& new.len() == if record_of(old, o) is Some { n } else { n + 1 }
    &&& new[k].0 == o
    &&& new[k].1.window_of() == Some(w)
    &&& new[k].1.workspace_index_of() == Some(idx)
    &&& forall|j: int| 0 <= j < n && j != k ==> #[trigger] new[j] == old[j]
}

/// `new` is `old` with the first record showing `w` cleared, and `r` the
/// output of that record; `None` and no change when no record shows `w`.
pub open spec fn clears_record(
    old: Seq<(OutputId, FullscreenSurface)>,
    new: Seq<(OutputId, FullscreenSurface)>,
    w: WindowElement,
    r: Option<OutputId>,
) -> bool {
    match record_showing(old, w) {
        None => r is None && new == old,
        Some(i) => {
            &&& r == Some(old[i].0)
            &&& new.len() == old.len()
            &&& new[i].0 == old[i].0
            &&& new[i].1.window_of() is None
            &&& new[i].1.workspace_index_of() is None
            &&& forall|j: int| 0 <= j < old.len() && j != i ==> #[trigger] new[j] == old[j]
        },
    }
}

/// A record for `o` at `i` means there is a first one, at or before `i`.
proof fn lemma_first_record_of(records: Seq<(OutputId, FullscreenSurface)>, o: OutputId, i: int)
    requires
        0 <= i < records.len(),
        records[i].0 == o,
    ensures
        exists|c: int| 0 <= c <= i && records[c].0 == o && forall|j: int| 0 <= j < c ==> records[j].0 != o,
    decreases i,
{
    if exists|j: int| 0 <= j < i && records[j].0 == o {
        let j = choose|j: int| 0 <= j < i && records[j].0 == o;
        lemma_first_record_of(records, o, j);
    } else {
        assert(forall|j: int| 0 <= j < i ==> records[j].0 != o);
    }
}

/// A record showing `w` at `i` means there is a first one, at or before
/// `i`.
proof fn lemma_first_record_showing(records: Seq<(OutputId, FullscreenSurface)>, w: WindowElement, i: int)
    requires
        0 <= i < records.len(),
        records[i].1.window_of() == Some(w),
    ensures
        exists|c: int|
            0 <= c <= i && records[c].1.window_of() == Some(w) && forall|j: int|
                0 <= j < c ==> records[j].1.window_of() != Some(w),
    decreases i,
{
    if exists|j: int| 0 <= j < i && records[j].1.window_of() == Some(w) {
        let j = choose|j: int| 0 <= j < i && records[j].1.window_of() == Some(w);
        lemma_first_record_showing(records, w, j);
    } else {
        assert(forall|j: int| 0 <= j < i ==> records[j].1.window_of() != Some(w));
    }
}

/// Making an X11 window fullscreen on output `o` and then taking it out of
/// fullscreen, when no record showed it before, clears the record of `o`
/// and gives `o` back; every other record is as it was before.
pub proof fn law_unfullscreen_clears_fullscreen_record(
    before: Seq<(OutputId, FullscreenSurface)>,
    fullscreen: Seq<(OutputId, FullscreenSurface)>,
    after: Seq<(OutputId, FullscreenSurface)>,
    w: WindowElement,
    o: OutputId,
    idx: usize,
    r: Option<OutputId>,
)
    requires
        forall|j: int| 0 <= j < before.len() ==> (#[trigger] before[j]).1.window_of() != Some(w),
        sets_record(before, fullscreen, o, w, idx),
        clears_record(fullscreen, after, w, r),
    ensures
        r == Some(o),
        after.len() == fullscreen.len(),
        after[record_place(before, o)].0 == o,
        after[record_place(before, o)].1.window_of() is None,
        after[record_place(before, o)].1.workspace_index_of() is None,
        forall|j: int| 0 <= j < before.len() && j != record_place(before, o) ==> #[trigger] after[j] == before[j],
{
    let k = record_place(before, o);
    if exists|i: int| 0 <= i < before.len() && before[i].0 == o {
        let i = choose|i: int| 0 <= i < before.len() && before[i].0 == o;
        lemma_first_record_of(before, o, i);
        assert(0 <= k < before.len());
    }
    assert(0 <= k < fullscreen.len());
    assert(fullscreen[k].1.window_of() == Some(w));
    lemma_first_record_showing(fullscreen, w, k);
    assert(record_showing(fullscreen, w) == Some(k)) by {
        let c = choose|c: int|
            0 <= c < fullscreen.len() && fullscreen[c].1.window_of() == Some(w) && forall|j: int|
                0 <= j < c ==> fullscreen[j].1.window_of() != Some(w);
        if c < k {
            assert(fullscreen[c] == before[c]);
        }
    }
}

/// Makes an X11 window of the current workspace fullscreen on the output
/// it is on (the first of `outputs_for_window`), or else on the first
/// output of all (`outputs`). That output's record in `records` is set to
/// the window and `workspace_index`, the index of the current workspace; a
/// record is added, last, for an output that has none. The output is
/// returned, for the window to be configured with its geometry. `None`,
/// and nothing changes, when the workspace does not hold the window.
pub fn fullscreen_request_x11(
    workspace: &Workspace,
    window: &WindowElement,
    outputs_for_window: &Vec<OutputId>,
    outputs: &Vec<OutputId>,
    records: &mut Vec<(OutputId, FullscreenSurface)>,
    workspace_index: usize,
) -> (r: Option<OutputId>)
    requires
        workspace.wf(),
        workspace.has_window(*window) ==> outputs_for_window@.len() > 0 || outputs@.len() > 0,
    ensures
        !workspace.has_window(*window) ==> r is None && final(records)@ == old(records)@,
        workspace.has_window(*window) ==> {
            let o = if outputs_for_window@.len() > 0 { outputs_for_window@[0] } else { outputs@[0] };
            &&& r == Some(o)
            &&& sets_record(old(records)@, final(records)@, o, *window, workspace_index)
        },
{
    if workspace.window_for_element(window).is_none() {
        return None;
    }
    let o = output_for_window(outputs_for_window, outputs);
    let mut i: usize = 0;
    while i < records.len()
        invariant
            i <= records@.len(),
            records@ == old(records)@,
            workspace.has_window(*window),
            o == (if outputs_for_window@.len() > 0 { outputs_for_window@[0] } else { outputs@[0] }),
            forall|j: int| 0 <= j < i ==> records@[j].0 != o,
        decreases records@.len() - i,
    {
        if records[i].0 == o {
            let mut record = FullscreenSurface::new();
            record.set(*window, workspace_index);
            proof {
                assert(record_of(records@, o) == Some(i as int)) by {
                    assert(records@[i as int].0 == o);
                    let c = choose|c: int|
                        0 <= c < records@.len() && records@[c].0 == o && forall|j: int| 0 <= j < c ==> records@[j].0 != o;
                    assert(c == i as int) by {
                        if c < i {
                        } else if c > i {
                            assert(records@[i as int].0 == o);
                        }
                    }
                }
            }
            records.set(i, (o, record));
            return Some(o);
        }
        i = i + 1;
    }
    assert(record_of(records@, o) is None);
    let mut record = FullscreenSurface::new();
    record.set(*window, workspace_index);
    records.push((o, record));
    Some(o)
}

/// Takes an X11 window of the current workspace out of fullscreen: the
/// first record in `records` (kept in output order) that shows it is
/// cleared and its output returned, for the window to be configured with
/// its place on the workspace. `None`, and nothing changes, when the
/// workspace does not hold the window or no record shows it.
pub fn unfullscreen_request_x11(
    workspace: &Workspace,
    window: &WindowElement,
    records: &mut Vec<(OutputId, FullscreenSurface)>,
) -> (r: Option<OutputId>)
    requires
        workspace.wf(),
    ensures
        !workspace.has_window(*window) ==> r is None && final(records)@ == old(records)@,
        workspace.has_window(*window) ==> clears_record(old(records)@, final(records)@, *window, r),
{
    if workspace.window_for_element(window).is_none() {
        return None;
    }
    let mut i: usize = 0;
    while i < records.len()
        invariant
            i <= records@.len(),
            records@ == old(records)@,
            workspace.has_window(*window),
            forall|j: int| 0 <= j < i ==> records@[j].1.window_of() != Some(*window),
        decreases records@.len() - i,
    {
        let shows = match records[i].1.get().0 {
            Some(v) => v == *window,
            None => false,
        };
        if shows {
            let o = records[i].0;
            proof {
                assert(record_showing(records@, *window) == Some(i as int)) by {
                    assert(records@[i as int].1.window_of() == Some(*window));
                    let c = choose|c: int|
                        0 <= c < records@.len() && records@[c].1.window_of() == Some(*window) && forall|j: int|
                            0 <= j < c ==> records@[j].1.window_of() != Some(*window);
                    assert(c == i as int) by {
                        if c > i {
                            assert(records@[i as int].1.window_of() == Some(*window));
                        }
                    }
                }
            }
            records.set(i, (o, FullscreenSurface::new()));
            return Some(o);
        }
        i = i + 1;
    }
    assert(record_showing(records@, *window) is None);
    None
}

} // verus!
