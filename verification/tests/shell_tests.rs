use buddaraysh::commands::Command;
use buddaraysh::element::{WindowElement, WindowHandle};
use buddaraysh::geometry::{Point, Rectangle, Size};
use buddaraysh::shell::layout::space::Space;
use buddaraysh::shell::layout::{
    should_be_floating, FloatingLayout, Layout, TilingLayout, WindowKindProperties, WindowProperties,
    WmWindowType,
};
use buddaraysh::shell::x11::{configure_request_geometry, output_for_window, OldGeometry};
use buddaraysh::shell::xdg::{padded_target, popup_target};
use buddaraysh::shell::{place_new_window, placement_area, FullscreenSurface};

fn window(id: u64) -> WindowElement {
    WindowElement::Wayland(WindowHandle { id, surface: Some(id) })
}

fn rect(x: i32, y: i32, w: i32, h: i32) -> Rectangle {
    Rectangle { loc: Point { x, y }, size: Size { w, h } }
}

fn wayland_props(app_id: &str, title: &str) -> WindowProperties {
    WindowProperties {
        kind: WindowKindProperties::Wayland { has_parent: false },
        min_size: None,
        max_size: None,
        app_id: app_id.to_string(),
        title: title.to_string(),
    }
}

#[test]
fn floating_rule_by_type() {
    let mut p = wayland_props("kitty", "zsh");
    assert!(!should_be_floating(&p));
    p.kind = WindowKindProperties::Wayland { has_parent: true };
    assert!(should_be_floating(&p));
    p.kind = WindowKindProperties::X11 { override_redirect: false, popup: false, window_type: Some(WmWindowType::Utility) };
    assert!(!should_be_floating(&p));
    p.kind = WindowKindProperties::X11 { override_redirect: false, popup: false, window_type: None };
    assert!(!should_be_floating(&p));
    p.kind = WindowKindProperties::X11 { override_redirect: false, popup: false, window_type: Some(WmWindowType::Dialog) };
    assert!(should_be_floating(&p));
    p.kind = WindowKindProperties::X11 { override_redirect: true, popup: false, window_type: None };
    assert!(should_be_floating(&p));
    p.kind = WindowKindProperties::X11 { override_redirect: false, popup: true, window_type: None };
    assert!(should_be_floating(&p));
}

#[test]
fn floating_rule_by_size_hints() {
    let mut p = wayland_props("kitty", "zsh");
    p.min_size = Some(Size { w: 300, h: 200 });
    p.max_size = Some(Size { w: 300, h: 200 });
    assert!(should_be_floating(&p));
    p.max_size = Some(Size { w: 301, h: 200 });
    assert!(!should_be_floating(&p));
    p.min_size = None;
    p.max_size = None;
    assert!(!should_be_floating(&p));
}

#[test]
fn floating_rule_by_exceptions() {
    assert!(should_be_floating(&wayland_props("Gjs", "Settings")));
    assert!(!should_be_floating(&wayland_props("Gjs", "Calendar")));
    assert!(should_be_floating(&wayland_props("Steam", "Steam Guard")));
    assert!(should_be_floating(&wayland_props("anything", "Steam")));
    assert!(should_be_floating(&wayland_props("zoom", "Meeting")));
    assert!(should_be_floating(&wayland_props("org.gnome.Foo", "Discord Updater")));
    assert!(should_be_floating(&wayland_props("jetbrains-webstorm", "Welcome to WebStorm")));
    assert!(!should_be_floating(&wayland_props("firefox", "Mozilla Firefox")));
}

#[test]
fn fullscreen_surface_set_get_clear() {
    let mut f = FullscreenSurface::new();
    assert_eq!(f.get(), (None, None));
    f.set(window(3), 2);
    assert_eq!(f.get(), (Some(window(3)), Some(2)));
    assert_eq!(f.window_on(2), Some(window(3)));
    assert_eq!(f.window_on(1), None);
    assert_eq!(f.clear(), (Some(window(3)), Some(2)));
    assert_eq!(f.get(), (None, None));
    assert_eq!(f.clear(), (None, None));
}

#[test]
fn placement_area_and_random_position() {
    assert_eq!(placement_area(None), rect(0, 0, 800, 800));
    assert_eq!(placement_area(Some((rect(1920, 0, 1920, 1080), rect(0, 30, 1920, 1050)))), rect(1920, 30, 1920, 1050));
    let mut layer = FloatingLayout::new();
    for _ in 0..50 {
        let p = place_new_window(&mut layer, window(1), rect(100, 200, 90, 90), 160, 260);
        assert!(100 <= p.x && p.x < 160);
        assert!(200 <= p.y && p.y < 260);
        assert_eq!(layer.element_location(&window(1)), Some(p));
    }
    assert_eq!(layer.elements(), vec![window(1)]);
}

#[test]
fn popup_padding() {
    assert_eq!(padded_target(rect(0, 0, 100, 100)), rect(8, 8, 84, 84));
    assert_eq!(padded_target(rect(0, 0, 16, 17)), rect(0, 8, 16, 1));
    assert_eq!(popup_target(Size { w: 1920, h: 1080 }, Point { x: 100, y: 50 }, Point { x: 10, y: 20 }), rect(-110, -70, 1920, 1080));
}

#[test]
fn x11_geometry_helpers() {
    let mut g = OldGeometry::new();
    assert_eq!(g.restore(), None);
    g.save(rect(1, 2, 3, 4));
    assert_eq!(g.restore(), Some(rect(1, 2, 3, 4)));
    assert_eq!(g.restore(), None);
    assert_eq!(configure_request_geometry(rect(5, 6, 7, 8), Some(100), None), rect(5, 6, 100, 8));
    assert_eq!(configure_request_geometry(rect(5, 6, 7, 8), None, Some(0xffff_ffff)), rect(5, 6, 7, -1));
    assert_eq!(output_for_window(&vec![], &vec![3, 4]), 3);
    assert_eq!(output_for_window(&vec![9], &vec![3, 4]), 9);
}

#[test]
fn space_stacking_and_outputs() {
    let mut s = Space::new();
    s.map_element(window(1), Point { x: 1, y: 1 });
    s.map_element(window(2), Point { x: 2, y: 2 });
    s.map_element(window(1), Point { x: 3, y: 3 });
    assert_eq!(s.elements(), vec![window(2), window(1)]);
    assert_eq!(s.element_location(&window(1)), Some(Point { x: 3, y: 3 }));
    s.raise_element(&window(2));
    assert_eq!(s.elements(), vec![window(1), window(2)]);
    s.unmap_elem(&window(1));
    assert_eq!(s.elements(), vec![window(2)]);
    assert!(!s.contains(&window(1)));
    assert_eq!(s.element_for_surface(2), Some(window(2)));
    s.map_output(1, Point { x: 0, y: 0 });
    s.map_output(2, Point { x: 1920, y: 0 });
    s.map_output(1, Point { x: 5, y: 5 });
    assert_eq!(s.outputs(), vec![1, 2]);
    assert_eq!(s.output_location(1), Some(Point { x: 5, y: 5 }));
    s.unmap_output(1);
    assert_eq!(s.outputs(), vec![2]);
    assert_eq!(s.output_location(1), None);
}

#[test]
fn layouts_map_and_unmap() {
    let mut t = TilingLayout::new();
    t.map_element(window(1));
    assert!(t.unmap_element(&window(1)));
    assert!(!t.unmap_element(&window(1)));
    t.map_output(4, Point { x: 0, y: 0 });
    assert_eq!(t.outputs(), vec![4]);
    assert_eq!(t.space().outputs(), vec![4]);
    t.space_mut().map_element(window(2), Point { x: 9, y: 9 });
    assert_eq!(t.element_location(&window(2)), Some(Point { x: 9, y: 9 }));
    assert_eq!(t.element_for_surface(2), Some(window(2)));
    t.unmap_output(4);
    assert!(t.outputs().is_empty());
    let mut f = FloatingLayout::new();
    f.map_element(window(3), Point { x: 1, y: 1 });
    f.raise_element(&window(3));
    assert_eq!(f.element_for_surface(3), Some(window(3)));
    assert!(f.unmap_element(&window(3)));
    assert_eq!(Layout::default(), Layout::MasterStack);
    assert!(window(1).is_wayland() && !window(1).is_x11());
    assert_eq!(window(1).wl_surface(), Some(1));
    let cmd = Command::Spawn("kitty");
    assert!(matches!(cmd, Command::Spawn("kitty")));
    assert!(matches!(Command::SwitchVT(2), Command::SwitchVT(2)));
}
