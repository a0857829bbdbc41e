use buddaraysh::element::{WindowElement, WindowHandle};
use buddaraysh::focus::{
    button_focus, focus_after_switch, grab_for_button, surface_under, update_keyboard_focus, ButtonFocus, FocusChange,
    FocusTarget, GrabRequest,
};
use buddaraysh::geometry::Point;
use buddaraysh::input::ModifiersState;
use buddaraysh::shell::FullscreenSurface;
use buddaraysh::workspace::WorkspaceSet;
use buddaraysh::{BTN_LEFT, BTN_RIGHT};

fn window(id: u64) -> WindowElement {
    WindowElement::Wayland(WindowHandle { id, surface: Some(id) })
}

fn p(x: i32, y: i32) -> Point {
    Point { x, y }
}

#[test]
fn surface_under_prefers_fullscreen_then_layers() {
    let out = Some(p(1920, 0));
    assert_eq!(
        surface_under(out, Some(window(1)), Some((7, p(0, 0))), None, Some((window(2), p(5, 5))), None),
        Some((FocusTarget::Window(window(1)), p(1920, 0)))
    );
    assert_eq!(
        surface_under(out, None, Some((7, p(10, 20))), None, Some((window(2), p(5, 5))), None),
        Some((FocusTarget::LayerSurface(7), p(1930, 20)))
    );
    assert_eq!(
        surface_under(out, None, None, Some((window(3), p(1, 2))), Some((window(2), p(5, 5))), None),
        Some((FocusTarget::Window(window(3)), p(1921, 2)))
    );
    assert_eq!(
        surface_under(out, None, None, None, Some((window(2), p(5, 5))), Some((8, p(0, 0)))),
        Some((FocusTarget::Window(window(2)), p(5, 5)))
    );
    assert_eq!(
        surface_under(out, None, None, None, None, Some((8, p(3, 3)))),
        Some((FocusTarget::LayerSurface(8), p(1923, 3)))
    );
    assert_eq!(surface_under(out, None, None, None, None, None), None);
    assert_eq!(surface_under(None, Some(window(1)), None, None, None, None), None);
}

#[test]
fn keyboard_focus_follows_click() {
    assert_eq!(update_keyboard_focus(true, false, false, Some(window(1)), None, None, None), FocusChange::Keep);
    assert_eq!(update_keyboard_focus(false, true, false, Some(window(1)), None, None, None), FocusChange::Keep);
    assert_eq!(
        update_keyboard_focus(false, true, true, Some(window(1)), None, None, None),
        FocusChange::Focus(FocusTarget::Window(window(1)))
    );
    assert_eq!(
        update_keyboard_focus(false, false, false, None, Some(4), Some(window(2)), None),
        FocusChange::Focus(FocusTarget::LayerSurface(4))
    );
    assert_eq!(update_keyboard_focus(false, false, false, None, None, Some(window(2)), Some(5)), FocusChange::RaiseAndFocus(window(2)));
    assert_eq!(
        update_keyboard_focus(false, false, false, None, None, None, Some(5)),
        FocusChange::Focus(FocusTarget::LayerSurface(5))
    );
    assert_eq!(update_keyboard_focus(false, false, false, None, None, None, None), FocusChange::Keep);
}

#[test]
fn button_press_focus() {
    assert_eq!(button_focus(true, false, Some(window(1))), ButtonFocus::Focus(window(1)));
    assert_eq!(button_focus(true, false, None), ButtonFocus::Clear);
    assert_eq!(button_focus(false, false, Some(window(1))), ButtonFocus::Unchanged);
    assert_eq!(button_focus(true, true, Some(window(1))), ButtonFocus::Unchanged);
}

#[test]
fn logo_buttons_start_grabs() {
    let logo = ModifiersState { ctrl: false, alt: false, shift: false, caps_lock: false, logo: true, num_lock: false };
    let none = ModifiersState { logo: false, ..logo };
    assert_eq!(grab_for_button(true, false, &logo, BTN_LEFT, false, false, true), Some(GrabRequest::Move));
    assert_eq!(grab_for_button(true, false, &logo, BTN_RIGHT, false, false, true), Some(GrabRequest::Resize));
    assert_eq!(grab_for_button(true, false, &logo, 0x112, false, false, true), None);
    assert_eq!(grab_for_button(true, false, &none, BTN_LEFT, false, false, true), None);
    assert_eq!(grab_for_button(true, true, &logo, BTN_LEFT, false, false, true), None);
    assert_eq!(grab_for_button(false, false, &logo, BTN_LEFT, false, false, true), None);
    assert_eq!(grab_for_button(true, false, &logo, BTN_LEFT, true, false, true), None);
    assert_eq!(grab_for_button(true, false, &logo, BTN_LEFT, false, false, false), None);
}

#[test]
fn focus_after_switch_follows_new_workspace() {
    let mut set = WorkspaceSet::new(1, 2);
    set.get_mut(1).unwrap().floating_layer.map_element(window(5), Point { x: 3, y: 3 });
    set.current_workspace_mut().floating_layer.map_element(window(6), Point { x: 3, y: 3 });
    set.set_current_workspace(1);
    let none = FullscreenSurface::new();
    let o = Some(Point { x: 0, y: 0 });
    let hits = [window(5), window(6)];
    assert_eq!(focus_after_switch(&set, o, &none, None, None, &hits, None), Some(FocusTarget::Window(window(5))));
    assert_eq!(focus_after_switch(&set, o, &none, Some((9, Point { x: 1, y: 1 })), None, &hits, None), Some(FocusTarget::LayerSurface(9)));
    assert_eq!(focus_after_switch(&set, o, &none, None, None, &[], Some((8, Point { x: 0, y: 0 }))), Some(FocusTarget::LayerSurface(8)));
    assert_eq!(focus_after_switch(&set, o, &none, None, None, &[], None), None);
    let mut full = FullscreenSurface::new();
    full.set(window(7), 1);
    assert_eq!(focus_after_switch(&set, o, &full, None, None, &hits, None), Some(FocusTarget::Window(window(7))));
    full.set(window(7), 0);
    assert_eq!(focus_after_switch(&set, o, &full, None, None, &hits, None), Some(FocusTarget::Window(window(5))));
    assert_eq!(focus_after_switch(&set, None, &full, None, None, &hits, None), None);
}
