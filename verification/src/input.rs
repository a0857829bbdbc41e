//! Key bindings: which keys, with which modifiers, ask for which action.
use vstd::prelude::*;

use crate::element::WindowElement;
use crate::geometry::Point;
use crate::shell::layout::space::{holds, without};
use crate::workspace::WorkspaceSet;
use crate::{Action, ActionView};

verus! {

/// The modifier keys held and the lock states, as the keyboard reports them.
#[derive(Debug, Clone, Copy, PartialEq, Eq, Structural)]
pub struct ModifiersState {
    pub ctrl: bool,
    pub alt: bool,
    pub shift: bool,
    pub caps_lock: bool,
    pub logo: bool,
    pub num_lock: bool,
}

/// Keysym of the key `1`; the digits `1` to `9` follow it.
pub const KEY_1: u32 = 0x31;

/// Keysym of `c`.
pub const KEY_C: u32 = 0x63;

/// Keysym of `d`.
pub const KEY_D: u32 = 0x64;

/// Keysym of `q`.
pub const KEY_Q: u32 = 0x71;

/// Keysym of `v`.
pub const KEY_V: u32 = 0x76;

/// Keysym of `x`.
pub const KEY_X: u32 = 0x78;

/// Keysym of `.`.
pub const KEY_PERIOD: u32 = 0x2e;

/// Keysym of the Print key.
pub const KEY_PRINT: u32 = 0xff61;

/// Keysym of XF86Switch_VT_1; those of VT 2 to 12 follow it.
pub const KEY_SWITCH_VT_1: u32 = 0x1008fe01;

/// Keysym of XF86Switch_VT_12.
pub const KEY_SWITCH_VT_12: u32 = 0x1008fe0c;

/// The terminal started by Logo+Q.
pub const TERMINAL_COMMAND: &'static str = "kitty";

/// The launcher toggled by Logo+D.
pub const LAUNCHER_COMMAND: &'static str = "pkill rofi || ~/.config/rofi/launcher.sh";

/// The clipboard history menu toggled by Logo+Ctrl+V.
pub const CLIPBOARD_COMMAND: &'static str =
    "pkill rofi || rofi -theme $HOME/.config/rofi/clipboard_theme -modi clipboard:~/.local/bin/cliphist-rofi -show clipboard";

/// The emoji picker toggled by Logo+Period.
pub const EMOJI_COMMAND: &'static str =
    "pkill rofi || rofi -theme $HOME/.config/rofi/clipboard_theme -modi emoji -show emoji";

/// The screenshot taken by Print.
pub const SCREENSHOT_COMMAND: &'static str =
    "grimblast --freeze copysave area ~/Pictures/$(date +%Y-%m-%d_%H-%m-%s).png";

/// Logo held, and neither Alt, Shift nor Ctrl.
pub open spec fn logo_alone(m: ModifiersState) -> bool {
    m.logo && !m.alt && !m.shift && !m.ctrl
}

/// The keysym of digit `k`, for `k` in 1..=9.
pub open spec fn digit_sym(k: int) -> u32 {
    (KEY_1 + k - 1) as u32
}

/// The smallest digit `k` in 1..=9 whose key is among `syms`.
pub open spec fn lowest_digit(syms: Seq<u32>) -> Option<int> {
    if exists|k: int| 1 <= k <= 9 && syms.contains(#[trigger] digit_sym(k)) {
        Some(
            choose|k: int|
                1 <= k <= 9 && syms.contains(digit_sym(k)) && forall|j: int|
                    1 <= j < k ==> !syms.contains(#[trigger] digit_sym(j)),
        )
    } else {
        None
    }
}

/// Logo+Shift+digit `k` (without Alt or Ctrl) moves the focused window to
/// workspace `k - 1`.
pub open spec fn move_binding(m: ModifiersState, syms: Seq<u32>) -> Option<usize> {
    if m.logo && m.shift && !m.alt && !m.ctrl && lowest_digit(syms) is Some {
        Some((lowest_digit(syms)->0 - 1) as usize)
    } else {
        None
    }
}

/// Logo+digit `k` switches to workspace `k - 1`.
pub open spec fn switch_binding(m: ModifiersState, syms: Seq<u32>) -> Option<usize> {
    if m.logo && lowest_digit(syms) is Some {
        Some((lowest_digit(syms)->0 - 1) as usize)
    } else {
        None
    }
}

/// The action bound to the keys `syms` with modifiers `m`, bindings tried
/// in this order: move to a workspace, switch to a workspace, close,
/// terminal, launcher, quit, clipboard, emoji, screenshot.
pub open spec fn key_binding(m: ModifiersState, syms: Seq<u32>) -> Option<ActionView> {
    if move_binding(m, syms) is Some {
        Some(ActionView::MoveToWorkspace(move_binding(m, syms)->0))
    } else if switch_binding(m, syms) is Some {
        Some(ActionView::SwitchToWorkspace(switch_binding(m, syms)->0))
    } else if logo_alone(m) && syms.contains(KEY_C) {
        Some(ActionView::Close)
    } else if logo_alone(m) && syms.contains(KEY_Q) {
        Some(ActionView::Spawn(TERMINAL_COMMAND@))
    } else if logo_alone(m) && syms.contains(KEY_D) {
        Some(ActionView::Spawn(LAUNCHER_COMMAND@))
    } else if m.logo && !m.alt && !m.ctrl && m.shift && syms.contains(KEY_X) {
        Some(ActionView::Quit)
    } else if m.logo && !m.alt && !m.shift && m.ctrl && syms.contains(KEY_V) {
        Some(ActionView::Spawn(CLIPBOARD_COMMAND@))
    } else if logo_alone(m) && syms.contains(KEY_PERIOD) {
        Some(ActionView::Spawn(EMOJI_COMMAND@))
    } else if syms.contains(KEY_PRINT) {
        Some(ActionView::Spawn(SCREENSHOT_COMMAND@))
    } else {
        None
    }
}

/// Logo+Shift+digit, without Alt or Ctrl, moves the focused window rather
/// than switching workspace; Logo+digit with any other modifiers switches.
/// Either way the digit `k` names workspace `k - 1`, and the smallest
/// digit held counts.
pub proof fn law_digit_bindings(m: ModifiersState, syms: Seq<u32>, k: int)
    requires
        m.logo,
        lowest_digit(syms) == Some(k),
    ensures
        1 <= k <= 9,
        m.shift && !m.alt && !m.ctrl ==> key_binding(m, syms) == Some(ActionView::MoveToWorkspace((k - 1) as usize)),
        !(m.shift && !m.alt && !m.ctrl) ==> key_binding(m, syms) == Some(ActionView::SwitchToWorkspace((k - 1) as usize)),
{
}

/// The lock states do not take part in the bindings: two modifier states
/// that differ only in Caps Lock and Num Lock bind the same keys to the
/// same actions. In particular Logo alone with `q` (and no digit or `c`
/// held) starts the terminal whatever the locks.
pub proof fn law_lock_states_do_not_matter(m: ModifiersState, m2: ModifiersState, syms: Seq<u32>)
    requires
        m.ctrl == m2.ctrl,
        m.alt == m2.alt,
        m.shift == m2.shift,
        m.logo == m2.logo,
    ensures
        key_binding(m, syms) == key_binding(m2, syms),
        m.logo && !m.alt && !m.shift && !m.ctrl && syms.contains(KEY_Q) && !syms.contains(KEY_C) && lowest_digit(
            syms,
        ) is None ==> key_binding(m, syms) == Some(ActionView::Spawn(TERMINAL_COMMAND@)),
{
}

/// The view of an optional action.
pub open spec fn action_view(a: Option<Action>) -> Option<ActionView> {
    match a {
        Some(a) => Some(a@),
        None => None,
    }
}

/// Whether `sym` is among `syms`.
pub fn contains_sym(syms: &[u32], sym: u32) -> (r: bool)
    ensures
        r == syms@.contains(sym),
{
    let mut i: usize = 0;
    while i < syms.len()
        invariant
            i <= syms@.len(),
            forall|j: int| 0 <= j < i ==> syms@[j] != sym,
        decreases syms@.len() - i,
    {
        if syms[i] == sym {
            assert(syms@[i as int] == sym);
            return true;
        }
        i = i + 1;
    }
    false
}

/// The smallest digit among the keys, if any.
fn find_lowest_digit(syms: &[u32]) -> (r: Option<usize>)
    ensures
        match r {
            Some(k) => lowest_digit(syms@) == Some(k as int) && 1 <= k <= 9,
            None => lowest_digit(syms@) is None,
        },
{
    let mut k: usize = 1;
    while k <= 9
        invariant
            1 <= k <= 10,
            forall|j: int| 1 <= j < k ==> !syms@.contains(#[trigger] digit_sym(j)),
        decreases 10 - k,
    {
        if contains_sym(syms, KEY_1 + (k as u32) - 1) {
            proof {
                let c = choose|c: int|
                    1 <= c <= 9 && syms@.contains(digit_sym(c)) && forall|j: int|
                        1 <= j < c ==> !syms@.contains(#[trigger] digit_sym(j));
                assert(digit_sym(k as int) == KEY_1 + (k as u32) - 1);
                assert(1 <= k <= 9 && syms@.contains(digit_sym(k as int)));
                if c < k {
                    assert(!syms@.contains(digit_sym(c)));
                }
                if k < c {
                    assert(!syms@.contains(digit_sym(k as int)));
                }
            }
            return Some(k);
        }
        k = k + 1;
    }
    None
}

/// Logo+digit `k` asks to switch to workspace `k - 1`; the outer `None`
/// means the keys are no such binding.
pub fn switch_workspace(modifiers: &ModifiersState, raw_syms: &[u32]) -> (r: Option<Option<Action>>)
    ensures
        match switch_binding(*modifiers, raw_syms@) {
            Some(i) => r matches Some(Some(a)) && a@ == ActionView::SwitchToWorkspace(i),
            None => r is None,
        },
{
    if !modifiers.logo {
        return None;
    }
    match find_lowest_digit(raw_syms) {
        Some(k) => Some(Some(Action::SwitchToWorkspace(k - 1))),
        None => None,
    }
}

/// Logo+Shift+digit `k` (without Alt or Ctrl) asks to move the focused
/// window to workspace `k - 1`; the outer `None` means the keys are no
/// such binding.
pub fn move_to_workspace(modifiers: &ModifiersState, raw_syms: &[u32]) -> (r: Option<Option<Action>>)
    ensures
        match move_binding(*modifiers, raw_syms@) {
            Some(i) => r matches Some(Some(a)) && a@ == ActionView::MoveToWorkspace(i),
            None => r is None,
        },
{
    if !(modifiers.logo && modifiers.shift && !modifiers.alt && !modifiers.ctrl) {
        return None;
    }
    match find_lowest_digit(raw_syms) {
        Some(k) => Some(Some(Action::MoveToWorkspace(k - 1))),
        None => None,
    }
}

/// The action bound to a key event: only a press counts, and none while
/// the focused client inhibits the compositor's shortcuts.
pub fn input_to_action(
    modifiers: &ModifiersState,
    keysym: u32,
    raw_syms: &[u32],
    pressed: bool,
    shortcuts_inhibited: bool,
) -> (r: Option<Action>)
    ensures
        action_view(r) == (if pressed && !shortcuts_inhibited {
            key_binding(*modifiers, raw_syms@)
        } else {
            None
        }),
{
    if pressed && !shortcuts_inhibited {
        if let Some(value) = move_to_workspace(modifiers, raw_syms) {
            return value;
        }
        if let Some(value) = switch_workspace(modifiers, raw_syms) {
            return value;
        }
        let logo_alone = modifiers.logo && !modifiers.alt && !modifiers.shift && !modifiers.ctrl;
        if logo_alone && contains_sym(raw_syms, KEY_C) {
            return Some(Action::Close);
        }
        if logo_alone && contains_sym(raw_syms, KEY_Q) {
            return Some(Action::Spawn(TERMINAL_COMMAND.to_owned()));
        }
        if logo_alone && contains_sym(raw_syms, KEY_D) {
            return Some(Action::Spawn(LAUNCHER_COMMAND.to_owned()));
        }
        if modifiers.logo && !modifiers.alt && !modifiers.ctrl && modifiers.shift && contains_sym(
            raw_syms,
            KEY_X,
        ) {
            return Some(Action::Quit);
        }
        if modifiers.logo && !modifiers.alt && !modifiers.shift && modifiers.ctrl && contains_sym(
            raw_syms,
            KEY_V,
        ) {
            return Some(Action::Spawn(CLIPBOARD_COMMAND.to_owned()));
        }
        if logo_alone && contains_sym(raw_syms, KEY_PERIOD) {
            return Some(Action::Spawn(EMOJI_COMMAND.to_owned()));
        }
        if contains_sym(raw_syms, KEY_PRINT) {
            return Some(Action::Spawn(SCREENSHOT_COMMAND.to_owned()));
        }
    }
    None
}

/// The virtual terminal that a XF86Switch_VT_n keysym asks for.
pub fn vt_for_keysym(keysym: u32) -> (r: Option<i32>)
    ensures
        r == (if KEY_SWITCH_VT_1 <= keysym <= KEY_SWITCH_VT_12 {
            Some((keysym - KEY_SWITCH_VT_1 + 1) as i32)
        } else {
            None
        }),
{
    if KEY_SWITCH_VT_1 <= keysym && keysym <= KEY_SWITCH_VT_12 {
        Some((keysym - KEY_SWITCH_VT_1 + 1) as i32)
    } else {
        None
    }
}

/// What the keyboard filter does with a key event.
pub enum KeyFilterResult {
    /// Switch to this virtual terminal and swallow the key.
    SwitchVt(i32),
    /// Swallow the key and perform the action.
    Intercept(Action),
    /// Hand the key to the focused client.
    Forward,
}

/// The keyboard filter of the session backend: a VT-switch keysym switches
/// the virtual terminal; otherwise a bound key is intercepted with its
/// action and any other key goes to the client.
pub fn filter_key(
    modifiers: &ModifiersState,
    keysym: u32,
    raw_syms: &[u32],
    pressed: bool,
    shortcuts_inhibited: bool,
) -> (r: KeyFilterResult)
    ensures
        KEY_SWITCH_VT_1 <= keysym <= KEY_SWITCH_VT_12 ==> r == KeyFilterResult::SwitchVt(
            (keysym - KEY_SWITCH_VT_1 + 1) as i32,
        ),
        !(KEY_SWITCH_VT_1 <= keysym <= KEY_SWITCH_VT_12) ==> match r {
            KeyFilterResult::Intercept(a) => pressed && !shortcuts_inhibited && key_binding(
                *modifiers,
                raw_syms@,
            ) == Some(a@),
            KeyFilterResult::Forward => !(pressed && !shortcuts_inhibited && key_binding(
                *modifiers,
                raw_syms@,
            ) is Some),
            KeyFilterResult::SwitchVt(_) => false,
        },
{
    if let Some(vt) = vt_for_keysym(keysym) {
        return KeyFilterResult::SwitchVt(vt);
    }
    match input_to_action(modifiers, keysym, raw_syms, pressed, shortcuts_inhibited) {
        Some(action) => KeyFilterResult::Intercept(action),
        None => KeyFilterResult::Forward,
    }
}

/// What the compositor still has to do after an action was applied to the
/// workspaces.
pub enum ActionEffect {
    /// Run this command line in a shell.
    Spawn(String),
    /// Stop the compositor.
    Quit,
    /// Ask this window to close.
    Close(WindowElement),
    /// The current workspace was switched (`true`), or the index named no
    /// workspace (`false`). Either way the pointer is moved in place and
    /// the keyboard focus goes to what `focus::focus_after_switch` gives
    /// for the current workspace.
    Switched(bool),
    /// This window was moved to another workspace.
    Moved(WindowElement),
    /// Nothing.
    Nothing,
}

/// Applies `action` to the workspace set of the output in use, with
/// `focused` the window that has keyboard focus, and says what is left to
/// do. Moving takes the focused window, which must be on the current
/// workspace, to the workspace of the given index (back to the current one
/// when there is no such workspace), in the layer it had and, when
/// floating, at the place it had, on top; a tiled window joins the end of
/// the target's tiling order. Every other window stays where it was.
/// Moving to the current index does nothing. Toggling floating and the
/// empty action do nothing here.
pub fn process_common_actions(set: &mut WorkspaceSet, action: Action, focused: Option<WindowElement>) -> (r: ActionEffect)
    requires
        old(set).wf(),
        match action {
            Action::MoveToWorkspace(i) => i != old(set).current_index() && focused is Some ==> {
                &&& old(set).spaces().len() > 0
                &&& old(set).spaces()[old(set).current_index() as int].has_window(focused->0)
            },
            _ => true,
        },
    ensures
        final(set).wf(),
        final(set).output_of() == old(set).output_of(),
        final(set).spaces().len() == old(set).spaces().len(),
        match action {
            Action::Spawn(program) => r matches ActionEffect::Spawn(p) && p@ == program@ && *final(set) == *old(set),
            Action::Quit => r is Quit && *final(set) == *old(set),
            Action::Close => *final(set) == *old(set) && match focused {
                Some(w) => r == ActionEffect::Close(w),
                None => r is Nothing,
            },
            Action::SwitchToWorkspace(i) => {
                &&& r == ActionEffect::Switched(i < old(set).spaces().len())
                &&& final(set).spaces() == old(set).spaces()
                &&& final(set).current_index() == if i < old(set).spaces().len() { i } else { old(set).current_index() }
            },
            Action::MoveToWorkspace(i) => if i == old(set).current_index() || focused is None {
                r is Nothing && *final(set) == *old(set)
            } else {
                let w = focused->0;
                let cur = old(set).current_index() as int;
                let target = if i < old(set).spaces().len() { i as int } else { cur };
                &&& r == ActionEffect::Moved(w)
                &&& final(set).current_index() == old(set).current_index()
                &&& final(set).spaces()[target].has_window(w)
                &&& holds(final(set).spaces()[target].floating_layer.stack(), w) == holds(
                    old(set).spaces()[cur].floating_layer.stack(),
                    w,
                )
                &&& holds(old(set).spaces()[cur].floating_layer.stack(), w)
                    ==> final(set).spaces()[target].location_of(w) == old(set).spaces()[cur].location_of(w)
                &&& holds(old(set).spaces()[cur].floating_layer.stack(), w)
                    ==> final(set).spaces()[target].floating_layer.stack() == without(
                    old(set).spaces()[target].floating_layer.stack(),
                    w,
                ).push((w, old(set).spaces()[cur].location_of(w)->0))
                &&& !holds(old(set).spaces()[cur].floating_layer.stack(), w)
                    ==> final(set).spaces()[target].tiling_layer.stack() == without(
                    old(set).spaces()[target].tiling_layer.stack(),
                    w,
                ).push((w, Point { x: 0, y: 0 }))
                &&& target != cur ==> !final(set).spaces()[cur].has_window(w)
                &&& forall|v: WindowElement, k: int| v != w && 0 <= k < old(set).spaces().len()
                    ==> #[trigger] final(set).spaces()[k].has_window(v) == old(set).spaces()[k].has_window(v)
                &&& forall|v: WindowElement, k: int| v != w && 0 <= k < old(set).spaces().len()
                    ==> #[trigger] final(set).spaces()[k].location_of(v) == old(set).spaces()[k].location_of(v)
                &&& forall|k: int| 0 <= k < old(set).spaces().len() && k != cur && k != target
                    ==> #[trigger] final(set).spaces()[k] == old(set).spaces()[k]
            },
            Action::ToggleFloating => r is Nothing && *final(set) == *old(set),
            Action::Noop => r is Nothing && *final(set) == *old(set),
        },
{
    match action {
        Action::Spawn(program) => ActionEffect::Spawn(program),
        Action::Quit => ActionEffect::Quit,
        Action::Close => match focused {
            Some(w) => ActionEffect::Close(w),
            None => ActionEffect::Nothing,
        },
        Action::SwitchToWorkspace(workspace_index) => {
            let switched = set.set_current_workspace(workspace_index).is_some();
            ActionEffect::Switched(switched)
        },
        Action::MoveToWorkspace(workspace_index) => {
            if set.current_workspace_index() == workspace_index {
                return ActionEffect::Nothing;
            }
            match focused {
                Some(window) => {
                    set.move_window_to_workspace(&window, workspace_index);
                    ActionEffect::Moved(window)
                },
                None => ActionEffect::Nothing,
            }
        },
        Action::ToggleFloating => ActionEffect::Nothing,
        Action::Noop => ActionEffect::Nothing,
    }
}

} // verus!
