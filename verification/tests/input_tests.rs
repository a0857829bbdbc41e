use buddaraysh::element::{WindowElement, WindowHandle};
use buddaraysh::geometry::Point;
use buddaraysh::input::{
    filter_key, input_to_action, move_to_workspace, process_common_actions, switch_workspace,
    vt_for_keysym, ActionEffect, KeyFilterResult, ModifiersState, KEY_1, KEY_C, KEY_D, KEY_PERIOD,
    KEY_PRINT, KEY_Q, KEY_SWITCH_VT_1, KEY_V, KEY_X,
};
use buddaraysh::workspace::WorkspaceSet;
use buddaraysh::Action;

fn mods(logo: bool, shift: bool, ctrl: bool, alt: bool) -> ModifiersState {
    ModifiersState { ctrl, alt, shift, caps_lock: false, logo, num_lock: false }
}

fn spawned(a: Option<Action>) -> Option<String> {
    match a {
        Some(Action::Spawn(s)) => Some(s),
        _ => None,
    }
}

#[test]
fn logo_digit_switches_workspace() {
    let r = input_to_action(&mods(true, false, false, false), KEY_1 + 2, &[KEY_1 + 2], true, false);
    assert!(matches!(r, Some(Action::SwitchToWorkspace(2))));
    let r = switch_workspace(&mods(true, false, false, false), &[KEY_1 + 8]);
    assert!(matches!(r, Some(Some(Action::SwitchToWorkspace(8)))));
    assert!(switch_workspace(&mods(false, false, false, false), &[KEY_1]).is_none());
}

#[test]
fn logo_shift_digit_moves_window() {
    let r = input_to_action(&mods(true, true, false, false), KEY_1, &[KEY_1], true, false);
    assert!(matches!(r, Some(Action::MoveToWorkspace(0))));
    assert!(matches!(move_to_workspace(&mods(true, true, false, false), &[KEY_1 + 4]), Some(Some(Action::MoveToWorkspace(4)))));
    // With Ctrl held it is no move, so Logo+digit switches.
    let r = input_to_action(&mods(true, true, true, false), KEY_1, &[KEY_1], true, false);
    assert!(matches!(r, Some(Action::SwitchToWorkspace(0))));
    assert!(move_to_workspace(&mods(true, true, false, true), &[KEY_1]).is_none());
}

#[test]
fn lowest_digit_wins() {
    let r = input_to_action(&mods(true, false, false, false), KEY_1 + 5, &[KEY_1 + 5, KEY_1 + 1], true, false);
    assert!(matches!(r, Some(Action::SwitchToWorkspace(1))));
}

#[test]
fn logo_letters_spawn_and_close() {
    let logo = mods(true, false, false, false);
    assert!(matches!(input_to_action(&logo, KEY_C, &[KEY_C], true, false), Some(Action::Close)));
    assert_eq!(spawned(input_to_action(&logo, KEY_Q, &[KEY_Q], true, false)).as_deref(), Some("kitty"));
    assert_eq!(
        spawned(input_to_action(&logo, KEY_D, &[KEY_D], true, false)).as_deref(),
        Some("pkill rofi || ~/.config/rofi/launcher.sh")
    );
    assert_eq!(
        spawned(input_to_action(&logo, KEY_PERIOD, &[KEY_PERIOD], true, false)).as_deref(),
        Some("pkill rofi || rofi -theme $HOME/.config/rofi/clipboard_theme -modi emoji -show emoji")
    );
}

#[test]
fn quit_clipboard_and_screenshot() {
    assert!(matches!(input_to_action(&mods(true, true, false, false), KEY_X, &[KEY_X], true, false), Some(Action::Quit)));
    assert!(input_to_action(&mods(true, false, false, false), KEY_X, &[KEY_X], true, false).is_none());
    assert_eq!(
        spawned(input_to_action(&mods(true, false, true, false), KEY_V, &[KEY_V], true, false)).as_deref(),
        Some("pkill rofi || rofi -theme $HOME/.config/rofi/clipboard_theme -modi clipboard:~/.local/bin/cliphist-rofi -show clipboard")
    );
    assert_eq!(
        spawned(input_to_action(&mods(false, false, false, false), KEY_PRINT, &[KEY_PRINT], true, false)).as_deref(),
        Some("grimblast --freeze copysave area ~/Pictures/$(date +%Y-%m-%d_%H-%m-%s).png")
    );
}

#[test]
fn release_or_inhibited_gives_no_action() {
    assert!(input_to_action(&mods(true, false, false, false), KEY_C, &[KEY_C], false, false).is_none());
    assert!(input_to_action(&mods(true, false, false, false), KEY_C, &[KEY_C], true, true).is_none());
    assert!(input_to_action(&mods(false, false, false, false), KEY_C, &[KEY_C], true, false).is_none());
}

#[test]
fn vt_switch_keys() {
    assert_eq!(vt_for_keysym(KEY_SWITCH_VT_1), Some(1));
    assert_eq!(vt_for_keysym(KEY_SWITCH_VT_1 + 11), Some(12));
    assert_eq!(vt_for_keysym(KEY_SWITCH_VT_1 + 12), None);
    assert!(matches!(filter_key(&mods(false, false, false, false), KEY_SWITCH_VT_1 + 2, &[], true, false), KeyFilterResult::SwitchVt(3)));
    assert!(matches!(filter_key(&mods(true, false, false, false), KEY_C, &[KEY_C], true, false), KeyFilterResult::Intercept(Action::Close)));
    assert!(matches!(filter_key(&mods(false, false, false, false), KEY_C, &[KEY_C], true, false), KeyFilterResult::Forward));
}

fn window(id: u64) -> WindowElement {
    WindowElement::Wayland(WindowHandle { id, surface: Some(id) })
}

#[test]
fn actions_apply_to_workspace_set() {
    let mut set = WorkspaceSet::new(1, 3);
    assert!(matches!(process_common_actions(&mut set, Action::Quit, None), ActionEffect::Quit));
    assert!(matches!(process_common_actions(&mut set, Action::Close, Some(window(1))), ActionEffect::Close(w) if w == window(1)));
    assert!(matches!(process_common_actions(&mut set, Action::Close, None), ActionEffect::Nothing));
    assert!(matches!(process_common_actions(&mut set, Action::Spawn("kitty".to_string()), None), ActionEffect::Spawn(s) if s == "kitty"));
    assert!(matches!(process_common_actions(&mut set, Action::SwitchToWorkspace(7), None), ActionEffect::Switched(false)));
    assert!(matches!(process_common_actions(&mut set, Action::SwitchToWorkspace(1), None), ActionEffect::Switched(true)));
    assert_eq!(set.current_workspace_index(), 1);
    set.current_workspace_mut().floating_layer.map_element(window(4), Point { x: 3, y: 4 });
    assert!(matches!(process_common_actions(&mut set, Action::MoveToWorkspace(1), Some(window(4))), ActionEffect::Nothing));
    assert!(matches!(process_common_actions(&mut set, Action::MoveToWorkspace(0), Some(window(4))), ActionEffect::Moved(_)));
    assert_eq!(set.get(0).unwrap().window_location(&window(4)), Some(Point { x: 3, y: 4 }));
    assert!(set.get(1).unwrap().windows().is_empty());
    assert!(matches!(process_common_actions(&mut set, Action::Noop, None), ActionEffect::Nothing));
    assert!(matches!(process_common_actions(&mut set, Action::ToggleFloating, Some(window(4))), ActionEffect::Nothing));
}
