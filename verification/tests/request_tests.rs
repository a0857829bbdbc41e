use buddaraysh::element::{WindowElement, WindowHandle};
use buddaraysh::geometry::{Point, Rectangle, Size};
use buddaraysh::grabs::resize_grab::{ResizeConfigure, ResizeEdge, ResizeSurfaceState, X11ResizeEdge, XdgResizeEdge};
use buddaraysh::grabs::{MoveSurfaceGrab, ResizeSurfaceGrab};
use buddaraysh::shell::x11::{
    fullscreen_request_x11, unfullscreen_request_x11, maximize_request_x11, move_request_x11, resize_request_x11, unmaximize_request, OldGeometry,
};
use buddaraysh::shell::xdg::{move_request_xdg, resize_request_xdg};
use buddaraysh::shell::FullscreenSurface;
use buddaraysh::workspace::{Workspace, Workspaces};

fn wayland(id: u64) -> WindowElement {
    WindowElement::Wayland(WindowHandle { id, surface: Some(id + 100) })
}

fn x11(id: u64) -> WindowElement {
    WindowElement::X11(WindowHandle { id, surface: None })
}

fn rect(x: i32, y: i32, w: i32, h: i32) -> Rectangle {
    Rectangle { loc: Point { x, y }, size: Size { w, h } }
}

fn pt(x: i32, y: i32) -> Point {
    Point { x, y }
}

fn workspace_with_floating(w: WindowElement, at: Point) -> Workspace {
    let mut ws = Workspace::new(0, 1);
    ws.floating_layer.map_element(w, at);
    ws
}

#[test]
fn relocate_window_moves_floating_window_on_top() {
    let mut ws = workspace_with_floating(x11(1), pt(10, 10));
    ws.floating_layer.map_element(x11(2), pt(50, 50));
    ws.tiling_layer.map_element(x11(3));
    ws.relocate_window(&x11(1), pt(300, 200));
    assert_eq!(ws.window_location(&x11(1)), Some(pt(300, 200)));
    assert_eq!(ws.windows(), vec![x11(2), x11(1), x11(3)]);
    ws.relocate_window(&x11(3), pt(300, 200));
    assert_eq!(ws.window_location(&x11(3)), Some(pt(0, 0)));
    ws.relocate_window(&x11(9), pt(1, 1));
    assert_eq!(ws.windows(), vec![x11(2), x11(1), x11(3)]);
}

#[test]
fn resize_request_x11_starts_below_title_bar() {
    let ws = workspace_with_floating(x11(1), pt(100, 50));
    let (grab, state) =
        resize_request_x11(&ws, &x11(1), X11ResizeEdge::BottomRight, Size { w: 400, h: 300 }, Some(32)).unwrap();
    assert_eq!(grab.window, x11(1));
    assert_eq!(grab.edges, ResizeEdge::bottom_right());
    assert_eq!(grab.initial_rect, rect(100, 82, 400, 268));
    assert_eq!(grab.last_window_size, Size { w: 400, h: 268 });
    assert_eq!(state, ResizeSurfaceState::Resizing { edges: ResizeEdge::bottom_right(), initial_rect: rect(100, 82, 400, 268) });
}

#[test]
fn resize_request_x11_without_decoration_or_window() {
    let ws = workspace_with_floating(x11(1), pt(100, 50));
    let (grab, _) = resize_request_x11(&ws, &x11(1), X11ResizeEdge::Left, Size { w: 400, h: 300 }, None).unwrap();
    assert_eq!(grab.initial_rect, rect(100, 50, 400, 300));
    assert_eq!(grab.edges.bits(), 4);
    assert!(resize_request_x11(&ws, &x11(2), X11ResizeEdge::Left, Size { w: 1, h: 1 }, None).is_none());
}

#[test]
fn maximize_then_unmaximize_x11_restores_geometry() {
    let mut ws = workspace_with_floating(x11(1), pt(100, 50));
    ws.floating_layer.map_element(x11(2), pt(600, 400));
    ws.tiling_layer.map_element(x11(3));
    let mut saved = OldGeometry::new();
    let output = rect(0, 0, 1920, 1080);
    let configured = maximize_request_x11(&mut ws, &x11(1), rect(100, 50, 400, 300), output, &mut saved);
    assert_eq!(configured, Some(output));
    assert_eq!(ws.window_location(&x11(1)), Some(pt(0, 0)));
    assert_eq!(unmaximize_request(&mut ws, &x11(1), &mut saved), Some(Some(rect(100, 50, 400, 300))));
    assert_eq!(ws.window_location(&x11(1)), Some(pt(100, 50)));
    assert_eq!(ws.window_location(&x11(2)), Some(pt(600, 400)));
    assert_eq!(ws.window_location(&x11(3)), Some(pt(0, 0)));
    assert_eq!(unmaximize_request(&mut ws, &x11(1), &mut saved), Some(None));
    assert_eq!(ws.window_location(&x11(1)), Some(pt(100, 50)));
}

#[test]
fn maximize_and_unmaximize_ignore_foreign_window() {
    let mut ws = workspace_with_floating(x11(1), pt(100, 50));
    let mut saved = OldGeometry::new();
    assert_eq!(maximize_request_x11(&mut ws, &x11(2), rect(0, 0, 1, 1), rect(0, 0, 9, 9), &mut saved), None);
    assert_eq!(saved, OldGeometry::new());
    saved.save(rect(1, 2, 3, 4));
    assert_eq!(unmaximize_request(&mut ws, &x11(2), &mut saved), None);
    assert_eq!(saved.restore(), Some(rect(1, 2, 3, 4)));
}

#[test]
fn move_request_x11_starts_at_window_or_pointer() {
    let ws = workspace_with_floating(x11(1), pt(100, 50));
    let mut saved = OldGeometry::new();
    saved.save(rect(100, 50, 400, 300));
    let (grab, configure) = move_request_x11(&ws, &x11(1), false, pt(7, 8), &mut saved).unwrap();
    assert_eq!(grab, MoveSurfaceGrab { window: x11(1), initial_window_location: pt(100, 50) });
    assert_eq!(configure, None);
    let (grab, configure) = move_request_x11(&ws, &x11(1), true, pt(7, 8), &mut saved).unwrap();
    assert_eq!(grab.initial_window_location, pt(7, 8));
    assert_eq!(configure, Some(rect(7, 8, 400, 300)));
    assert_eq!(saved.restore(), None);
    assert!(move_request_x11(&ws, &x11(2), false, pt(0, 0), &mut saved).is_none());
}

fn two_outputs() -> Workspaces {
    let mut all = Workspaces::new(2);
    all.add_output(10);
    all.add_output(11);
    all.workspace_set_mut(11).unwrap().current_workspace_mut().floating_layer.map_element(wayland(1), pt(30, 40));
    all.workspace_set_mut(11).unwrap().current_workspace_mut().tiling_layer.map_element(wayland(2));
    all
}

#[test]
fn move_request_xdg_finds_window_on_any_output() {
    let all = two_outputs();
    let grab = move_request_xdg(&all, 101, true, false, pt(5, 5)).unwrap();
    assert_eq!(grab, MoveSurfaceGrab { window: wayland(1), initial_window_location: pt(30, 40) });
    let grab = move_request_xdg(&all, 101, true, true, pt(5, 5)).unwrap();
    assert_eq!(grab.initial_window_location, pt(5, 5));
    assert!(move_request_xdg(&all, 101, false, false, pt(5, 5)).is_none());
    assert!(move_request_xdg(&all, 999, true, false, pt(5, 5)).is_none());
}

#[test]
fn resize_request_xdg_drops_title_bar_height_only() {
    let all = two_outputs();
    let (grab, state) = resize_request_xdg(&all, 101, XdgResizeEdge::Top, Size { w: 200, h: 100 }, Some(20)).unwrap();
    assert_eq!(grab.window, wayland(1));
    assert_eq!(grab.initial_rect, rect(30, 40, 200, 80));
    assert_eq!(grab.edges, ResizeEdge::top());
    assert_eq!(state, ResizeSurfaceState::Resizing { edges: ResizeEdge::top(), initial_rect: rect(30, 40, 200, 80) });
    let (tiled, _) = resize_request_xdg(&all, 102, XdgResizeEdge::Right, Size { w: 50, h: 60 }, None).unwrap();
    assert_eq!(tiled.initial_rect, rect(0, 0, 50, 60));
}

#[test]
fn fullscreen_records_for_x11_windows() {
    let ws = workspace_with_floating(x11(1), pt(10, 10));
    let mut records: Vec<(u64, FullscreenSurface)> = vec![(5, FullscreenSurface::new())];
    assert_eq!(fullscreen_request_x11(&ws, &x11(1), &vec![], &vec![5, 6], &mut records, 2), Some(5));
    assert_eq!(records[0].1.get(), (Some(x11(1)), Some(2)));
    assert_eq!(fullscreen_request_x11(&ws, &x11(1), &vec![6], &vec![5, 6], &mut records, 0), Some(6));
    assert_eq!(records.len(), 2);
    assert_eq!(records[1], (6, { let mut f = FullscreenSurface::new(); f.set(x11(1), 0); f }));
    assert_eq!(fullscreen_request_x11(&ws, &x11(9), &vec![6], &vec![5, 6], &mut records, 0), None);
    assert_eq!(unfullscreen_request_x11(&ws, &x11(1), &mut records), Some(5));
    assert_eq!(records[0].1.get(), (None, None));
    assert_eq!(records[1].1.get(), (Some(x11(1)), Some(0)));
    assert_eq!(unfullscreen_request_x11(&ws, &x11(1), &mut records), Some(6));
    assert_eq!(unfullscreen_request_x11(&ws, &x11(1), &mut records), None);
    assert_eq!(unfullscreen_request_x11(&ws, &x11(9), &mut records), None);
}

#[test]
fn resize_motion_configures_floating_windows_only() {
    let mut all = Workspaces::new(2);
    all.add_output(10);
    let set = all.workspace_set_mut(10).unwrap();
    set.current_workspace_mut().floating_layer.map_element(wayland(1), pt(0, 0));
    set.current_workspace_mut().floating_layer.map_element(x11(2), pt(0, 0));
    set.current_workspace_mut().tiling_layer.map_element(wayland(3));
    assert!(all.workspace_for(&wayland(3)).is_some());
    let mut g = ResizeSurfaceGrab::new(wayland(1), ResizeEdge::right(), rect(0, 0, 100, 100));
    g.motion(Size { w: 150, h: 100 }, Size { w: 0, h: 0 }, Size { w: 0, h: 0 });
    assert_eq!(g.motion_configure(&all, pt(7, 7)), Some(ResizeConfigure::Wayland(Size { w: 150, h: 100 })));
    let x = ResizeSurfaceGrab::new(x11(2), ResizeEdge::right(), rect(0, 0, 100, 100));
    assert_eq!(x.motion_configure(&all, pt(7, 7)), Some(ResizeConfigure::X11(rect(7, 7, 100, 100))));
    let t = ResizeSurfaceGrab::new(wayland(3), ResizeEdge::right(), rect(0, 0, 100, 100));
    assert_eq!(t.motion_configure(&all, pt(7, 7)), None);
    let gone = ResizeSurfaceGrab::new(wayland(4), ResizeEdge::right(), rect(0, 0, 100, 100));
    assert_eq!(gone.motion_configure(&all, pt(7, 7)), None);
    assert!(all.workspace_for(&wayland(4)).is_none());
}
