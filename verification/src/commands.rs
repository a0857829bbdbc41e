//! Commands that a client of the compositor may give.
use vstd::prelude::*;

verus! {

/// A command: switch to a virtual terminal, run a command line, quit, or
/// nothing.
pub enum Command<'a> {
    SwitchVT(i32),
    Spawn(&'a str),
    Quit,
    Noop,
}

} // verus!
