//! The two layers of a workspace and the rule that sorts new windows into
//! them.
use vstd::prelude::*;

use crate::geometry::Size;
use crate::shell::FullscreenWindow;

pub mod floating;
pub mod space;
pub mod tiling;

pub use floating::FloatingLayout;
pub use tiling::Layout;
pub use tiling::TilingLayout;
pub use tiling::tiling_area;

verus! {

/// What became of a window that was taken off a workspace.
#[derive(Debug, Clone, Copy, PartialEq, Eq)]
pub struct ManagedState {
    pub layer: ManagedLayer,
    pub was_fullscreen: Option<FullscreenWindow>,
}

/// Which layer of a workspace holds a window.
#[derive(Debug, Clone, Copy, PartialEq, Eq, Hash, Structural)]
pub enum ManagedLayer {
    Tiling,
    Floating,
}

/// The window types of `_NET_WM_WINDOW_TYPE` that an X11 window may carry.
#[derive(Debug, Clone, Copy, PartialEq, Eq, Structural)]
pub enum WmWindowType {
    DropdownMenu,
    Dialog,
    Menu,
    Notification,
    Normal,
    PopupMenu,
    Splash,
    Toolbar,
    Tooltip,
    Utility,
}

/// What the window-type check reads of a window.
#[derive(Debug, Clone, Copy, PartialEq, Eq, Structural)]
pub enum WindowKindProperties {
    /// A Wayland toplevel, and whether it has a parent toplevel.
    Wayland { has_parent: bool },
    /// An X11 window.
    X11 { override_redirect: bool, popup: bool, window_type: Option<WmWindowType> },
}

/// What the floating rule reads of a window.
pub struct WindowProperties {
    pub kind: WindowKindProperties,
    pub min_size: Option<Size>,
    pub max_size: Option<Size>,
    pub app_id: String,
    pub title: String,
}

/// Application ids of windows that float when their title matches the
/// pattern at the same position of [`EXCEPTIONS_TITLE`].
pub const EXCEPTIONS_APPID: [&'static str; 32] = [
    "Authy Desktop",
    "Com.github.amezin.ddterm",
    "Com.github.donadigo.eddy",
    ".*",
    "Enpass",
    "Gjs",
    "Gnome-initial-setup",
    "Gnome-terminal",
    "Guake",
    "Io.elementary.sideload",
    "KotatogramDesktop",
    "Mozilla VPN",
    "update-manager",
    "Solaar",
    "Steam",
    "",
    "TelegramDesktop",
    "Zotero",
    "gjs",
    "gnome-screenshot",
    "ibus-.*",
    "jetbrains-toolbox",
    "jetbrains-webstorm",
    "jetbrains-webstorm",
    "jetbrains-webstorm",
    "krunner",
    "pritunl",
    "re.sonny.Junction",
    "system76-driver",
    "tilda",
    "zoom",
    "^.*?action=join.*$",
];

/// Title patterns paired with [`EXCEPTIONS_APPID`].
pub const EXCEPTIONS_TITLE: [&'static str; 32] = [
    ".*",
    ".*",
    ".*",
    "Discord Updater",
    "Enpass Assistant",
    "Settings",
    ".*",
    "Preferences – General",
    ".*",
    ".*",
    "Media viewer",
    ".*",
    "Software Updater",
    ".*",
    "^.*?(Guard|Login).*",
    "Steam",
    "Media viewer",
    "Quick Format Citation",
    ".*",
    ".*",
    ".*",
    ".*",
    "Customize WebStorm",
    "License Activation",
    "Welcome to WebStorm",
    ".*",
    ".*",
    ".*",
    ".*",
    ".*",
    ".*",
    ".*",
];

/// Whether `pattern` compiles as a regular expression of the `regex` crate
/// and matches somewhere in `text`.
pub uninterp spec fn regex_matches(pattern: Seq<char>, text: Seq<char>) -> bool;

/// Compiles `pattern` with `regex::Regex::new` and, when it compiles, tests
/// `text` with `Regex::is_match`; a pattern that does not compile matches
/// nothing. Claimed: the result is `regex_matches` of the two strings, a
/// function of them alone.
#[verifier::external_body]
fn pattern_matches(pattern: &str, text: &str) -> (r: bool)
    ensures
        r == regex_matches(pattern@, text@),
{
    match regex::Regex::new(pattern) {
        Ok(re) => re.is_match(text),
        Err(_) => false,
    }
}

/// The window's type marks it as a dialog-like window.
pub open spec fn floats_by_type(kind: WindowKindProperties) -> bool {
    match kind {
        WindowKindProperties::Wayland { has_parent } => has_parent,
        WindowKindProperties::X11 { override_redirect, popup, window_type } => {
            override_redirect || popup || !(window_type == None::<WmWindowType>
                || window_type == Some(WmWindowType::Normal) || window_type == Some(WmWindowType::Utility))
        },
    }
}

/// The window's size hints fix its size, as a dialog's do.
pub open spec fn floats_by_size(min_size: Option<Size>, max_size: Option<Size>) -> bool {
    min_size is Some && min_size == max_size
}

/// Some pair of exception patterns matches both the application id and the
/// title.
pub open spec fn floats_by_exception(app_id: Seq<char>, title: Seq<char>) -> bool {
    exists|i: int|
        0 <= i < 32 && #[trigger] regex_matches(EXCEPTIONS_APPID[i]@, app_id) && regex_matches(
            EXCEPTIONS_TITLE[i]@,
            title,
        )
}

/// The floating rule.
pub open spec fn floats(p: WindowProperties) -> bool {
    floats_by_type(p.kind) || floats_by_size(p.min_size, p.max_size) || floats_by_exception(
        p.app_id@,
        p.title@,
    )
}

/// The floating rule by the kind of window. An X11 window that is neither
/// override-redirect nor a popup, of no type or of type normal or utility,
/// and a Wayland window without a parent, float only when their size hints
/// fix their size or an exception names them. Every other X11 window (an
/// override-redirect one, a popup, or one of any other type) and every
/// Wayland window with a parent floats.
pub proof fn law_floating_rule(p: WindowProperties)
    ensures
        (p.kind == WindowKindProperties::X11 { override_redirect: false, popup: false, window_type: None }
            || p.kind == WindowKindProperties::X11 {
            override_redirect: false,
            popup: false,
            window_type: Some(WmWindowType::Normal),
        } || p.kind == WindowKindProperties::X11 {
            override_redirect: false,
            popup: false,
            window_type: Some(WmWindowType::Utility),
        } || p.kind == WindowKindProperties::Wayland { has_parent: false }) ==> (floats(p) <==> ((p.min_size is Some
            && p.min_size == p.max_size) || floats_by_exception(p.app_id@, p.title@))),
        p.kind matches WindowKindProperties::X11 { override_redirect, popup, window_type } && (override_redirect
            || popup || (window_type is Some && window_type != Some(WmWindowType::Normal) && window_type != Some(
            WmWindowType::Utility,
        ))) ==> floats(p),
        p.kind == (WindowKindProperties::Wayland { has_parent: true }) ==> floats(p),
{
}

/// Whether a new window goes to the floating layer rather than the tiling
/// one: windows with a parent, X11 popups, override-redirect windows and
/// windows of a type other than normal or utility; windows whose minimum
/// size equals their maximum size; and the listed exceptions.
pub fn should_be_floating(window: &WindowProperties) -> (r: bool)
    ensures
        r == floats(*window),
{
    let by_type = match window.kind {
        WindowKindProperties::Wayland { has_parent } => has_parent,
        WindowKindProperties::X11 { override_redirect, popup, window_type } => {
            override_redirect || popup || !(match window_type {
                None => true,
                Some(WmWindowType::Normal) => true,
                Some(WmWindowType::Utility) => true,
                Some(_) => false,
            })
        },
    };
    if by_type {
        return true;
    }
    let by_size = match (window.min_size, window.max_size) {
        (Some(min), Some(max)) => min == max,
        _ => false,
    };
    if by_size {
        return true;
    }
    let mut i: usize = 0;
    while i < 32
        invariant
            i <= 32,
            forall|j: int|
                0 <= j < i ==> !(#[trigger] regex_matches(EXCEPTIONS_APPID[j]@, window.app_id@)
                    && regex_matches(EXCEPTIONS_TITLE[j]@, window.title@)),
        decreases 32 - i,
    {
        if pattern_matches(EXCEPTIONS_APPID[i], window.app_id.as_str()) && pattern_matches(
            EXCEPTIONS_TITLE[i],
            window.title.as_str(),
        ) {
            return true;
        }
        i = i + 1;
    }
    false
}

} // verus!
