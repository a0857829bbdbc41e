//! Window-management logic of a tiling Wayland compositor: workspaces with
//! a tiling and a floating layer, key bindings, pointer grabs and the
//! decisions that route input to windows.
use vstd::prelude::*;

pub mod commands;
pub mod constraints;
pub mod element;
pub mod focus;
pub mod geometry;
pub mod grabs;
pub mod input;
pub mod shell;
pub mod workspace;

verus! {

/// Button code of the left mouse button (`BTN_LEFT` of the kernel's input
/// event codes).
pub const BTN_LEFT: u32 = 0x110;

/// Button code of the right mouse button (`BTN_RIGHT`).
pub const BTN_RIGHT: u32 = 0x111;

/// What a key binding asks the compositor to do.
#[derive(Debug, Clone)]
pub enum Action {
    ToggleFloating,
    Spawn(String),
    Quit,
    SwitchToWorkspace(usize),
    MoveToWorkspace(usize),
    Noop,
    Close,
}

/// An [`Action`] with the command line of `Spawn` as a sequence of
/// characters.
pub enum ActionView {
    ToggleFloating,
    Spawn(Seq<char>),
    Quit,
    SwitchToWorkspace(usize),
    MoveToWorkspace(usize),
    Noop,
    Close,
}

impl View for Action {
    type V = ActionView;

    open spec fn view(&self) -> ActionView {
        match self {
            Action::ToggleFloating => ActionView::ToggleFloating,
            Action::Spawn(s) => ActionView::Spawn(s@),
            Action::Quit => ActionView::Quit,
            Action::SwitchToWorkspace(i) => ActionView::SwitchToWorkspace(*i),
            Action::MoveToWorkspace(i) => ActionView::MoveToWorkspace(*i),
            Action::Noop => ActionView::Noop,
            Action::Close => ActionView::Close,
        }
    }
}

} // verus!
