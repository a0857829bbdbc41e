use buddaraysh::element::{WindowElement, WindowHandle};
use buddaraysh::geometry::{Point, Rectangle, Size};
use buddaraysh::shell::layout::{ManagedLayer, WindowKindProperties, WindowProperties};
use buddaraysh::workspace::{Workspace, WorkspaceSet, Workspaces};

fn wayland(id: u64) -> WindowElement {
    WindowElement::Wayland(WindowHandle { id, surface: Some(id + 100) })
}

fn x11(id: u64) -> WindowElement {
    WindowElement::X11(WindowHandle { id, surface: None })
}

fn props(app_id: &str, title: &str) -> WindowProperties {
    WindowProperties {
        kind: WindowKindProperties::Wayland { has_parent: false },
        min_size: None,
        max_size: None,
        app_id: app_id.to_string(),
        title: title.to_string(),
    }
}

fn screen() -> Rectangle {
    Rectangle { loc: Point { x: 0, y: 0 }, size: Size { w: 1920, h: 1080 } }
}

fn rect(x: i32, y: i32, w: i32, h: i32) -> Rectangle {
    Rectangle { loc: Point { x, y }, size: Size { w, h } }
}

#[test]
fn tile_three_windows_master_stack() {
    let mut ws = Workspace::new(0, 1);
    ws.tiling_layer.map_element(wayland(1));
    ws.tiling_layer.map_element(wayland(2));
    ws.tiling_layer.map_element(wayland(3));
    let configured = ws.tile_windows(screen());
    assert_eq!(configured.len(), 3);
    assert_eq!(configured[0], (wayland(1), rect(0, 0, 960, 1080)));
    assert_eq!(configured[1], (wayland(2), rect(960, 0, 960, 540)));
    assert_eq!(configured[2], (wayland(3), rect(960, 540, 960, 540)));
    assert_eq!(ws.window_location(&wayland(3)), Some(Point { x: 960, y: 540 }));
    assert_eq!(ws.tiling_layer.elements(), vec![wayland(1), wayland(2), wayland(3)]);
}

#[test]
fn tile_single_window_fills_area() {
    let mut ws = Workspace::new(0, 1);
    ws.tiling_layer.map_element(wayland(1));
    let area = rect(10, 20, 800, 600);
    let configured = ws.tile_windows(area);
    assert_eq!(configured, vec![(wayland(1), area)]);
    assert_eq!(ws.window_location(&wayland(1)), Some(Point { x: 10, y: 20 }));
}

#[test]
fn tile_empty_workspace_configures_nothing() {
    let mut ws = Workspace::new(0, 1);
    assert!(ws.tile_windows(screen()).is_empty());
}

#[test]
fn tile_many_windows_keeps_minimum_height() {
    let mut ws = Workspace::new(0, 1);
    for id in 1..=31 {
        ws.tiling_layer.map_element(wayland(id));
    }
    let configured = ws.tile_windows(screen());
    assert_eq!(configured.len(), 31);
    // 30 stack windows share 1080 rows: 36 each, shown at least 40 high.
    assert_eq!(configured[1].1, rect(960, 0, 960, 40));
    assert_eq!(configured[2].1, rect(960, 36, 960, 40));
    assert_eq!(configured[30].1, rect(960, 36 * 29, 960, 40));
}

#[test]
fn tile_stack_column_starts_at_half_width_from_origin() {
    let mut ws = Workspace::new(0, 1);
    ws.tiling_layer.map_element(wayland(1));
    ws.tiling_layer.map_element(wayland(2));
    let configured = ws.tile_windows(rect(100, 50, 1001, 700));
    assert_eq!(configured[0].1, rect(100, 50, 500, 700));
    assert_eq!(configured[1].1, rect(500, 50, 500, 700));
}

#[test]
fn tile_twice_gives_the_same_layout() {
    let mut ws = Workspace::new(0, 1);
    for id in 1..=4 {
        ws.tiling_layer.map_element(wayland(id));
    }
    let first = ws.tile_windows(screen());
    let second = ws.tile_windows(screen());
    assert_eq!(first, second);
}

#[test]
fn map_window_tiles_ordinary_window() {
    let mut ws = Workspace::new(0, 1);
    ws.map_window(wayland(1), &props("kitty", "zsh"), Size { w: 1920, h: 1080 }, Size { w: 400, h: 300 });
    assert!(ws.is_tiled(&wayland(1)));
    assert_eq!(ws.window_location(&wayland(1)), Some(Point { x: 0, y: 0 }));
}

#[test]
fn map_window_centres_floating_window() {
    let mut ws = Workspace::new(0, 1);
    let p = WindowProperties {
        kind: WindowKindProperties::Wayland { has_parent: true },
        min_size: None,
        max_size: None,
        app_id: "kitty".to_string(),
        title: "zsh".to_string(),
    };
    ws.map_window(wayland(1), &p, Size { w: 1920, h: 1080 }, Size { w: 401, h: 301 });
    assert!(!ws.is_tiled(&wayland(1)));
    assert_eq!(ws.window_location(&wayland(1)), Some(Point { x: 760, y: 390 }));
}

#[test]
fn map_window_checked_refuses_other_layer() {
    let mut ws = Workspace::new(0, 1);
    ws.tiling_layer.map_element(wayland(1));
    let dialog = WindowProperties {
        kind: WindowKindProperties::Wayland { has_parent: true },
        min_size: None,
        max_size: None,
        app_id: "x".to_string(),
        title: "y".to_string(),
    };
    assert!(!ws.map_window_checked(wayland(1), &dialog, Size { w: 100, h: 100 }, Size { w: 10, h: 10 }));
    assert!(ws.is_tiled(&wayland(1)));
    assert!(ws.map_window_checked(wayland(2), &dialog, Size { w: 100, h: 100 }, Size { w: 10, h: 10 }));
    assert_eq!(ws.window_location(&wayland(2)), Some(Point { x: 45, y: 45 }));
}

#[test]
fn windows_lists_floating_then_tiled() {
    let mut ws = Workspace::new(0, 1);
    ws.tiling_layer.map_element(wayland(1));
    ws.floating_layer.map_element(wayland(2), Point { x: 5, y: 5 });
    ws.tiling_layer.map_element(wayland(3));
    assert_eq!(ws.windows(), vec![wayland(2), wayland(1), wayland(3)]);
    assert_eq!(ws.window_for_surface(103), Some(wayland(3)));
    assert_eq!(ws.window_for_surface(999), None);
    assert_eq!(ws.window_for_element(&wayland(2)), Some(wayland(2)));
    assert_eq!(ws.window_for_element(&x11(7)), None);
}

#[test]
fn unmap_window_reports_layer_and_fullscreen() {
    let mut ws = Workspace::new(3, 1);
    ws.tiling_layer.map_element(wayland(1));
    ws.floating_layer.map_element(wayland(2), Point { x: 5, y: 5 });
    ws.fullscreen_request(&wayland(1), Some((ManagedLayer::Tiling, 3)), rect(0, 0, 10, 10));
    let tiled = ws.unmap_window(&wayland(1)).unwrap();
    assert_eq!(tiled.layer, ManagedLayer::Tiling);
    assert_eq!(tiled.was_fullscreen.unwrap().window, wayland(1));
    let floating = ws.unmap_window(&wayland(2)).unwrap();
    assert_eq!(floating.layer, ManagedLayer::Floating);
    assert!(ws.unmap_window(&wayland(2)).is_none());
    assert!(ws.windows().is_empty());
}

#[test]
fn unfullscreen_returns_what_fullscreen_recorded() {
    let mut ws = Workspace::new(2, 1);
    ws.floating_layer.map_element(wayland(1), Point { x: 5, y: 5 });
    let previously = ws.previous_place(&wayland(1));
    assert_eq!(previously, (ManagedLayer::Floating, 2));
    ws.fullscreen_request(&wayland(1), Some(previously), rect(5, 5, 300, 200));
    assert_eq!(ws.unfullscreen_request(&wayland(1)), Some((ManagedLayer::Floating, 2)));
    assert_eq!(ws.unfullscreen_request(&wayland(9)), None);
    assert_eq!(ws.fullscreen.unwrap().original_geometry, rect(5, 5, 300, 200));
}

#[test]
fn toggle_floating_twice_restores_tiling() {
    let mut ws = Workspace::new(0, 1);
    ws.tiling_layer.map_element(wayland(1));
    ws.tiling_layer.map_element(wayland(2));
    ws.tile_windows(screen());
    let configured = ws.toggle_floating(&wayland(2), screen());
    assert!(!ws.is_tiled(&wayland(2)));
    assert_eq!(ws.window_location(&wayland(2)), Some(Point { x: 960, y: 0 }));
    assert_eq!(configured, vec![(wayland(1), screen())]);
    let configured = ws.toggle_floating(&wayland(2), screen());
    assert!(ws.is_tiled(&wayland(2)));
    assert_eq!(configured.len(), 2);
    assert_eq!(configured[1], (wayland(2), rect(960, 0, 960, 1080)));
}

#[test]
fn tiled_neighbours_by_direction() {
    let mut ws = Workspace::new(0, 1);
    for id in 1..=3 {
        ws.tiling_layer.map_element(wayland(id));
    }
    ws.tile_windows(screen());
    let down = ws.tiled_window_down(&wayland(2));
    assert_eq!(down, vec![(wayland(3), Point { x: 960, y: 540 })]);
    let up = ws.tiled_window_up(&wayland(3));
    assert_eq!(up, vec![(wayland(1), Point { x: 0, y: 0 }), (wayland(2), Point { x: 960, y: 0 })]);
    let right = ws.tiled_window_right(&wayland(1));
    assert_eq!(right.len(), 2);
    let left = ws.tiled_window_left(&wayland(3));
    assert_eq!(left, vec![(wayland(1), Point { x: 0, y: 0 })]);
}

#[test]
fn set_output_remaps_both_layers() {
    let mut ws = Workspace::new(0, 1);
    ws.set_output(1, Point { x: 0, y: 0 });
    ws.set_output(7, Point { x: 1920, y: 0 });
    assert_eq!(ws.outputs(), vec![7]);
    assert_eq!(ws.tiling_layer.outputs(), vec![7]);
    assert_eq!(ws.floating_layer.space().output_location(7), Some(Point { x: 1920, y: 0 }));
    assert_eq!(ws.output, 1);
}

#[test]
fn raise_window_puts_it_on_top() {
    let mut ws = Workspace::new(0, 1);
    ws.floating_layer.map_element(wayland(1), Point { x: 1, y: 1 });
    ws.floating_layer.map_element(wayland(2), Point { x: 2, y: 2 });
    ws.raise_window(&wayland(1));
    assert_eq!(ws.floating_layer.elements(), vec![wayland(2), wayland(1)]);
    assert_eq!(ws.window_location(&wayland(1)), Some(Point { x: 1, y: 1 }));
}

#[test]
fn workspace_set_switches_only_to_existing_index() {
    let mut set = WorkspaceSet::new(1, 9);
    assert_eq!(set.current_workspace_index(), 0);
    assert_eq!(set.set_current_workspace(4).map(|w| w.handle), Some(4));
    assert_eq!(set.current_workspace_index(), 4);
    assert!(set.set_current_workspace(9).is_none());
    assert_eq!(set.current_workspace_index(), 4);
    assert_eq!(set.current_workspace().handle, 4);
    assert_eq!(set.workspaces().len(), 9);
    assert!(set.get(8).is_some());
    assert!(set.get(9).is_none());
    assert!(set.set_current_workspace_mut(2).is_some());
    assert_eq!(set.current_workspace_index(), 2);
}

#[test]
fn workspace_set_moves_window_between_workspaces() {
    let mut set = WorkspaceSet::new(1, 3);
    set.current_workspace_mut().floating_layer.map_element(wayland(1), Point { x: 30, y: 40 });
    set.move_window_to_workspace(&wayland(1), 2);
    assert!(set.get(0).unwrap().windows().is_empty());
    assert_eq!(set.get(2).unwrap().window_location(&wayland(1)), Some(Point { x: 30, y: 40 }));
    assert_eq!(set.workspace_for(&wayland(1)).map(|w| w.handle), Some(2));
    assert_eq!(set.window_for_surface(101), Some(wayland(1)));
}

#[test]
fn workspace_set_move_to_missing_index_keeps_window() {
    let mut set = WorkspaceSet::new(1, 2);
    set.current_workspace_mut().tiling_layer.map_element(wayland(1));
    set.move_window_to_workspace(&wayland(1), 5);
    assert!(set.get(0).unwrap().is_tiled(&wayland(1)));
    set.move_window_to_workspace(&wayland(1), 0);
    assert!(set.get(0).unwrap().is_tiled(&wayland(1)));
}

#[test]
fn workspace_set_get_mut_and_set_output() {
    let mut set = WorkspaceSet::new(1, 2);
    set.get_mut(1).unwrap().tiling_layer.map_element(wayland(5));
    assert!(set.get_mut(2).is_none());
    set.set_output(4);
    assert_eq!(set.output, 4);
    assert_eq!(set.get(1).unwrap().outputs(), vec![4]);
    assert!(set.workspace_for_mut(&wayland(5)).is_some());
    assert!(set.workspace_for_mut(&wayland(6)).is_none());
}

#[test]
fn workspaces_add_output_is_idempotent() {
    let mut all = Workspaces::new(3);
    all.add_output(10);
    all.workspace_set_mut(10).unwrap().set_current_workspace(2);
    all.add_output(10);
    assert_eq!(all.outputs(), vec![10]);
    assert_eq!(all.workspace_set(10).unwrap().current_workspace_index(), 2);
    all.add_output(11);
    assert_eq!(all.outputs(), vec![10, 11]);
    assert_eq!(all.workspaces().len(), 6);
    assert_eq!(all.workspacesets().len(), 2);
    assert_eq!(all.index_of(11), Some(1));
}

#[test]
fn workspaces_add_output_takes_spare_set() {
    let mut all = Workspaces::new(3);
    let mut spare = WorkspaceSet::new(1, 2);
    spare.current_workspace_mut().tiling_layer.map_element(wayland(1));
    all.backup_set = Some(spare);
    all.add_output(5);
    assert!(all.backup_set.is_none());
    let set = all.workspace_set(5).unwrap();
    assert_eq!(set.output, 5);
    assert_eq!(set.workspaces().len(), 2);
    assert!(set.get(0).unwrap().is_tiled(&wayland(1)));
    assert_eq!(set.get(0).unwrap().outputs(), vec![5]);
}

#[test]
fn workspaces_set_current_workspace_by_output() {
    let mut all = Workspaces::new(4);
    all.add_output(1);
    assert_eq!(all.set_current_workspace(1, 3).map(|w| w.handle), Some(3));
    assert!(all.set_current_workspace(1, 4).is_none());
    assert_eq!(all.workspace_set(1).unwrap().current_workspace_index(), 3);
    assert!(all.set_current_workspace(2, 0).is_none());
    all.backup_set = Some(WorkspaceSet::new(9, 2));
    assert_eq!(all.set_current_workspace(2, 1).map(|w| w.handle), Some(1));
    assert_eq!(all.backup_set.as_ref().unwrap().current_workspace_index(), 1);
}

#[test]
fn workspaces_set_current_workspace_mut_by_output() {
    let mut all = Workspaces::new(3);
    all.add_output(1);
    let ws = all.set_current_workspace_mut(1, 2).unwrap();
    assert_eq!(ws.handle, 2);
    ws.tiling_layer.map_element(wayland(7));
    assert_eq!(all.workspace_set(1).unwrap().current_workspace_index(), 2);
    assert!(all.workspace_set(1).unwrap().current_workspace().is_tiled(&wayland(7)));
    assert!(all.set_current_workspace_mut(1, 3).is_none());
    assert_eq!(all.workspace_set(1).unwrap().current_workspace_index(), 2);
    assert!(all.set_current_workspace_mut(5, 0).is_none());
    all.backup_set = Some(WorkspaceSet::new(9, 2));
    assert_eq!(all.set_current_workspace_mut(5, 1).map(|w| w.handle), Some(1));
    assert_eq!(all.backup_set.as_ref().unwrap().current_workspace_index(), 1);
}

#[test]
fn unfullscreen_gives_back_recorded_geometry() {
    let mut ws = Workspace::new(0, 1);
    ws.tiling_layer.map_element(wayland(1));
    ws.fullscreen_request(&wayland(1), Some((ManagedLayer::Tiling, 0)), rect(5, 5, 300, 200));
    assert_eq!(ws.unfullscreen_geometry(&wayland(1)), Some(rect(5, 5, 300, 200)));
    assert_eq!(ws.unfullscreen_geometry(&wayland(2)), None);
    assert_eq!(Workspace::new(0, 1).unfullscreen_geometry(&wayland(1)), None);
}

#[test]
fn move_to_workspace_replaces_copy_in_target() {
    let mut set = WorkspaceSet::new(1, 3);
    set.current_workspace_mut().floating_layer.map_element(wayland(1), Point { x: 40, y: 50 });
    set.current_workspace_mut().floating_layer.map_element(wayland(2), Point { x: 1, y: 2 });
    set.get_mut(1).unwrap().tiling_layer.map_element(wayland(1));
    set.move_window_to_workspace(&wayland(1), 1);
    assert!(set.current_workspace().window_for_element(&wayland(1)).is_none());
    let target = set.get(1).unwrap();
    assert!(!target.is_tiled(&wayland(1)));
    assert_eq!(target.window_location(&wayland(1)), Some(Point { x: 40, y: 50 }));
    assert_eq!(set.current_workspace().window_location(&wayland(2)), Some(Point { x: 1, y: 2 }));
}

#[test]
fn set_current_workspace_keeps_spare_set_and_fails_without_change() {
    let mut all = Workspaces::new(2);
    all.add_output(1);
    all.backup_set = Some(WorkspaceSet::new(9, 2));
    assert!(all.set_current_workspace(1, 5).is_none());
    assert_eq!(all.workspace_set(1).unwrap().current_workspace_index(), 0);
    assert!(all.set_current_workspace(1, 1).is_some());
    assert_eq!(all.backup_set.as_ref().unwrap().current_workspace_index(), 0);
}

#[test]
fn window_under_prefers_topmost_floating_then_tiled() {
    let mut ws = Workspace::new(0, 1);
    ws.floating_layer.map_element(wayland(1), Point { x: 10, y: 10 });
    ws.floating_layer.map_element(wayland(2), Point { x: 20, y: 20 });
    ws.tiling_layer.map_element(wayland(3));
    ws.tiling_layer.map_element(wayland(4));
    assert_eq!(ws.window_under(&[wayland(1), wayland(2), wayland(3)]), Some((wayland(2), Point { x: 20, y: 20 })));
    assert_eq!(ws.window_under(&[wayland(3), wayland(4)]), Some((wayland(4), Point { x: 0, y: 0 })));
    assert_eq!(ws.window_under(&[wayland(9)]), None);
}

#[test]
fn moved_tiled_window_joins_end_of_target_order() {
    let mut set = WorkspaceSet::new(1, 2);
    set.current_workspace_mut().tiling_layer.map_element(wayland(1));
    set.get_mut(1).unwrap().tiling_layer.map_element(wayland(2));
    set.get_mut(1).unwrap().tiling_layer.map_element(wayland(3));
    set.move_window_to_workspace(&wayland(1), 1);
    assert_eq!(set.get(1).unwrap().windows(), vec![wayland(2), wayland(3), wayland(1)]);
}
