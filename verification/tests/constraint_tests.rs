use buddaraysh::constraints::{
    activates, confined_motion_allowed, constraint_mode, region_contains_point, ConstraintMode, PointerConstraint,
    Region, RectangleKind,
};
use buddaraysh::geometry::{Point, Rectangle, Size};
use buddaraysh::shell::layout::tiling_area;
use buddaraysh::shell::{initial_configure_action, InitialConfigure, SurfaceKind};

fn rect(x: i32, y: i32, w: i32, h: i32) -> Rectangle {
    Rectangle { loc: Point { x, y }, size: Size { w, h } }
}

fn pt(x: i32, y: i32) -> Point {
    Point { x, y }
}

fn frame_region() -> Region {
    Region { rects: vec![(RectangleKind::Add, rect(0, 0, 100, 100)), (RectangleKind::Subtract, rect(10, 10, 80, 80))] }
}

#[test]
fn region_last_containing_rectangle_decides() {
    let r = frame_region();
    assert!(region_contains_point(&r, pt(5, 5)));
    assert!(!region_contains_point(&r, pt(50, 50)));
    assert!(!region_contains_point(&r, pt(100, 5)));
    assert!(region_contains_point(&r, pt(99, 99)));
    assert!(!region_contains_point(&Region { rects: vec![] }, pt(0, 0)));
}

#[test]
fn active_constraint_locks_or_confines_inside_its_region() {
    let lock = Some(PointerConstraint { active: true, locked: true, region: None });
    assert_eq!(constraint_mode(&lock, pt(500, 500), pt(400, 400)), ConstraintMode::Locked);
    let confine = Some(PointerConstraint { active: true, locked: false, region: Some(frame_region()) });
    assert_eq!(constraint_mode(&confine, pt(405, 405), pt(400, 400)), ConstraintMode::Confined);
    assert_eq!(constraint_mode(&confine, pt(450, 450), pt(400, 400)), ConstraintMode::Free);
    let inactive = Some(PointerConstraint { active: false, locked: true, region: None });
    assert_eq!(constraint_mode(&inactive, pt(0, 0), pt(0, 0)), ConstraintMode::Free);
    assert_eq!(constraint_mode(&None, pt(0, 0), pt(0, 0)), ConstraintMode::Free);
}

#[test]
fn confined_pointer_stays_on_surface_and_region() {
    let region = Some(frame_region());
    assert!(confined_motion_allowed(Some(3), Some(3), &region, pt(405, 405), pt(400, 400)));
    assert!(!confined_motion_allowed(Some(3), Some(4), &region, pt(405, 405), pt(400, 400)));
    assert!(!confined_motion_allowed(Some(3), Some(3), &region, pt(450, 450), pt(400, 400)));
    assert!(confined_motion_allowed(Some(3), Some(3), &None, pt(450, 450), pt(400, 400)));
}

#[test]
fn inactive_constraint_activates_inside_region() {
    let c = Some(PointerConstraint { active: false, locked: false, region: Some(frame_region()) });
    assert!(activates(&c, pt(5, 5), pt(0, 0)));
    assert!(!activates(&c, pt(50, 50), pt(0, 0)));
    let on = Some(PointerConstraint { active: true, locked: false, region: None });
    assert!(!activates(&on, pt(5, 5), pt(0, 0)));
    assert!(!activates(&None, pt(5, 5), pt(0, 0)));
}

#[test]
fn initial_configure_by_surface_kind() {
    let none = InitialConfigure { send_configure: false, retile_all: false };
    assert_eq!(initial_configure_action(SurfaceKind::Window { wayland: true }, false, true), InitialConfigure { send_configure: true, retile_all: false });
    assert_eq!(initial_configure_action(SurfaceKind::Window { wayland: true }, true, false), none);
    assert_eq!(initial_configure_action(SurfaceKind::Window { wayland: false }, false, false), none);
    assert_eq!(initial_configure_action(SurfaceKind::XdgPopup, false, false).send_configure, true);
    assert_eq!(initial_configure_action(SurfaceKind::InputMethodPopup, false, true), none);
    assert_eq!(initial_configure_action(SurfaceKind::LayerSurface, true, true), InitialConfigure { send_configure: false, retile_all: true });
    assert_eq!(initial_configure_action(SurfaceKind::LayerSurface, false, false), InitialConfigure { send_configure: true, retile_all: false });
    assert_eq!(initial_configure_action(SurfaceKind::Other, false, true), none);
}

#[test]
fn tiling_area_uses_layer_free_zone() {
    let output = rect(1920, 0, 1920, 1080);
    assert_eq!(tiling_area(output, false, rect(0, 30, 1920, 1050)), output);
    assert_eq!(tiling_area(output, true, rect(0, 30, 1920, 1050)), rect(1920, 30, 1920, 1050));
}
