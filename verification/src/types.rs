//! The data model: actions, keymap entries and the session state.

use crate::child_map::ChildMap;
use vstd::prelude::*;

verus! {

/// A program to start, with its arguments and the label shown for it.
///
/// `name` is for display only and plays no part in dispatch.
#[derive(Clone, Copy, Debug, PartialEq, Eq)]
pub struct Launch {
    pub name: &'static str,
    pub program: &'static str,
    pub args: &'static [&'static str],
}

/// Switch to a workspace, and start a program there unless a window matching
/// `instance_match` is already present on it.
#[derive(Clone, Copy, Debug, PartialEq, Eq)]
pub struct GoToOrLaunch {
    pub workspace_name: &'static str,
    pub instance_match: &'static str,
    pub launch: Launch,
}

/// The effect that a terminal keymap entry performs.
#[derive(Clone, Copy, Debug, PartialEq, Eq)]
pub enum Leaf {
    /// Focus the workspace, start the program if no instance is there, end the session.
    GoToOrLaunch(GoToOrLaunch),
    /// Start the program and end the session.
    Launch(Launch),
    /// Start the program and keep the session alive.
    LaunchNoQuit(Launch),
    /// End the session without starting anything.
    Quit,
}

/// One entry of the keymap tree: a terminal action, or a named mode whose
/// children are reached by one more key each.
#[derive(Debug, PartialEq, Eq)]
pub enum KeymapEntry {
    Leaf(Leaf),
    Node { name: &'static str, map: ChildMap },
}

/// The state of a session: what has been typed so far, and the keymap that
/// it is resolved against. The keymap is built once and never changes.
#[derive(Debug, PartialEq, Eq)]
pub struct State {
    pub input_value: String,
    pub keymap: KeymapEntry,
}

/// Why a keymap could not be built.
#[derive(Clone, Copy, Debug, PartialEq, Eq)]
pub enum KeymapError {
    /// Two children of one mode were bound to the same key.
    DuplicateKey(char),
}

/// The arguments of a launch as plain text.
pub open spec fn args_view(args: &[&'static str]) -> Seq<Seq<char>> {
    Seq::new(args@.len(), |i: int| args@[i]@)
}

} // verus!
