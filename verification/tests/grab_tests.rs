use buddaraysh::element::{WindowElement, WindowHandle};
use buddaraysh::geometry::{Point, Rectangle, Size};
use buddaraysh::grabs::resize_grab::{handle_commit, ResizeEdge, ResizeSurfaceState, X11ResizeEdge, XdgResizeEdge};
use buddaraysh::grabs::{MoveSurfaceGrab, ResizeSurfaceGrab};
use buddaraysh::workspace::Workspace;
use buddaraysh::{BTN_LEFT, BTN_RIGHT};

fn window(id: u64) -> WindowElement {
    WindowElement::Wayland(WindowHandle { id, surface: Some(id) })
}

fn rect(x: i32, y: i32, w: i32, h: i32) -> Rectangle {
    Rectangle { loc: Point { x, y }, size: Size { w, h } }
}

#[test]
fn resize_edge_bits() {
    assert_eq!(ResizeEdge::from_bits(5).map(|e| e.bits()), Some(5));
    assert!(ResizeEdge::from_bits(16).is_none());
    assert!(ResizeEdge::top_left().intersects(ResizeEdge::left()));
    assert!(!ResizeEdge::bottom_right().intersects(ResizeEdge::top_left()));
    assert!(ResizeEdge::top_left().contains(ResizeEdge::top()));
    assert_eq!(ResizeEdge::top().union(ResizeEdge::right()), ResizeEdge::top_right());
    assert_eq!(ResizeEdge::empty().bits(), 0);
}

#[test]
fn resize_edge_from_protocols() {
    assert_eq!(ResizeEdge::from_xdg(XdgResizeEdge::NoEdge).bits(), 0);
    assert_eq!(ResizeEdge::from_xdg(XdgResizeEdge::BottomRight), ResizeEdge::bottom_right());
    assert_eq!(ResizeEdge::from_xdg(XdgResizeEdge::Left).bits(), 4);
    assert_eq!(ResizeEdge::from_x11(X11ResizeEdge::TopLeft), ResizeEdge::top_left());
    assert_eq!(ResizeEdge::from_x11(X11ResizeEdge::Bottom).bits(), 2);
}

#[test]
fn commit_ends_finished_resize_once() {
    let mut s = ResizeSurfaceState::WaitingForLastCommit { edges: ResizeEdge::left(), initial_rect: rect(0, 0, 10, 10) };
    assert_eq!(s.commit(), Some((ResizeEdge::left(), rect(0, 0, 10, 10))));
    assert_eq!(s, ResizeSurfaceState::Idle);
    assert_eq!(s.commit(), None);
    let mut r = ResizeSurfaceState::Resizing { edges: ResizeEdge::top(), initial_rect: rect(1, 1, 2, 2) };
    assert!(r.commit().is_some());
    assert!(r.commit().is_some());
}

#[test]
fn resize_motion_respects_size_hints() {
    let mut g = ResizeSurfaceGrab::new(window(1), ResizeEdge::bottom_right(), rect(0, 0, 300, 200));
    assert_eq!(g.last_window_size, Size { w: 300, h: 200 });
    let s = g.motion(Size { w: -50, h: 5000 }, Size { w: 0, h: 100 }, Size { w: 0, h: 900 });
    assert_eq!(s, Size { w: 1, h: 900 });
    assert_eq!(g.last_window_size, s);
    let s = g.motion(Size { w: 500, h: 50 }, Size { w: 200, h: 100 }, Size { w: 400, h: 0 });
    assert_eq!(s, Size { w: 400, h: 100 });
    assert!(g.resizes_width() && g.resizes_height());
    let top = ResizeSurfaceGrab::new(window(1), ResizeEdge::top(), rect(0, 0, 1, 1));
    assert!(!top.resizes_width() && top.resizes_height());
}

#[test]
fn resize_button_release() {
    let g = ResizeSurfaceGrab::new(window(1), ResizeEdge::left(), rect(5, 5, 10, 10));
    assert_eq!(g.button(&[BTN_LEFT]), None);
    assert_eq!(g.button(&[BTN_RIGHT]), None);
    assert_eq!(
        g.button(&[]),
        Some(ResizeSurfaceState::WaitingForLastCommit { edges: ResizeEdge::left(), initial_rect: rect(5, 5, 10, 10) })
    );
}

#[test]
fn commit_after_left_resize_keeps_right_edge() {
    let mut ws = Workspace::new(0, 1);
    ws.floating_layer.map_element(window(1), Point { x: 100, y: 100 });
    let mut state = ResizeSurfaceState::WaitingForLastCommit { edges: ResizeEdge::top_left(), initial_rect: rect(100, 100, 400, 300) };
    assert_eq!(handle_commit(&mut ws, 1, &mut state, Size { w: 350, h: 250 }), Some(()));
    assert_eq!(ws.window_location(&window(1)), Some(Point { x: 150, y: 150 }));
    assert_eq!(state, ResizeSurfaceState::Idle);
}

#[test]
fn commit_after_bottom_right_resize_keeps_place() {
    let mut ws = Workspace::new(0, 1);
    ws.floating_layer.map_element(window(1), Point { x: 100, y: 100 });
    let mut state = ResizeSurfaceState::Resizing { edges: ResizeEdge::bottom_right(), initial_rect: rect(100, 100, 400, 300) };
    assert_eq!(handle_commit(&mut ws, 1, &mut state, Size { w: 350, h: 250 }), Some(()));
    assert_eq!(ws.window_location(&window(1)), Some(Point { x: 100, y: 100 }));
    assert!(matches!(state, ResizeSurfaceState::Resizing { .. }));
}

#[test]
fn commit_of_unknown_surface_does_nothing() {
    let mut ws = Workspace::new(0, 1);
    let mut state = ResizeSurfaceState::WaitingForLastCommit { edges: ResizeEdge::left(), initial_rect: rect(0, 0, 1, 1) };
    assert_eq!(handle_commit(&mut ws, 9, &mut state, Size { w: 1, h: 1 }), None);
    assert!(matches!(state, ResizeSurfaceState::WaitingForLastCommit { .. }));
}

#[test]
fn commit_of_tiled_window_does_not_move_it() {
    let mut ws = Workspace::new(0, 1);
    ws.tiling_layer.map_element(window(1));
    let mut state = ResizeSurfaceState::WaitingForLastCommit { edges: ResizeEdge::left(), initial_rect: rect(50, 0, 100, 100) };
    assert_eq!(handle_commit(&mut ws, 1, &mut state, Size { w: 80, h: 100 }), Some(()));
    assert_eq!(ws.window_location(&window(1)), Some(Point { x: 0, y: 0 }));
    assert_eq!(state, ResizeSurfaceState::Idle);
}

#[test]
fn move_grab_moves_floating_windows_only() {
    let mut ws = Workspace::new(0, 1);
    ws.floating_layer.map_element(window(1), Point { x: 0, y: 0 });
    ws.tiling_layer.map_element(window(2));
    let g = MoveSurfaceGrab { window: window(1), initial_window_location: Point { x: 0, y: 0 } };
    g.motion(&mut ws, Point { x: 40, y: 30 });
    assert_eq!(ws.window_location(&window(1)), Some(Point { x: 40, y: 30 }));
    let t = MoveSurfaceGrab { window: window(2), initial_window_location: Point { x: 0, y: 0 } };
    t.motion(&mut ws, Point { x: 40, y: 30 });
    assert_eq!(ws.window_location(&window(2)), Some(Point { x: 0, y: 0 }));
    assert!(!g.button(&[BTN_LEFT]));
    assert!(g.button(&[BTN_RIGHT]));
}
