//! What one keystroke does: which action, if any, the new input fires, and
//! which input the session keeps.

use crate::types::KeymapEntry;
use crate::types::Leaf;
use vstd::prelude::*;

verus! {

/// The outcome of one keystroke.
#[derive(Clone, Debug, PartialEq, Eq)]
pub struct Dispatch {
    /// The input that the session keeps.
    pub retained: String,
    /// The action to run now, where the keystroke completed one.
    pub fired: Option<Leaf>,
}

/// The action that `candidate` fires: the one it selects exactly. An input
/// that selects a mode, or nothing, fires none.
pub open spec fn fired_by(root: KeymapEntry, candidate: Seq<char>) -> Option<Leaf> {
    match root.spec_resolve(candidate) {
        Some(KeymapEntry::Leaf(leaf)) => Some(leaf),
        _ => None,
    }
}

/// The input kept after `candidate` was typed: empty after an action that
/// leaves the session running, else `candidate` itself, matched or not.
pub open spec fn retained_after(root: KeymapEntry, candidate: Seq<char>) -> Seq<char> {
    match fired_by(root, candidate) {
        Some(Leaf::LaunchNoQuit(_)) => Seq::empty(),
        _ => candidate,
    }
}

/// Decides what the whole new input `candidate` does.
pub fn dispatch_input(root: &KeymapEntry, candidate: String) -> (d: Dispatch)
    ensures
        d.fired == fired_by(*root, candidate@),
        d.retained@ == retained_after(*root, candidate@),
{
    match root.resolve(candidate.as_str()) {
        Some(KeymapEntry::Leaf(leaf)) => {
            let fired = *leaf;
            match fired {
                Leaf::LaunchNoQuit(_) => Dispatch { retained: String::new(), fired: Some(fired) },
                _ => Dispatch { retained: candidate, fired: Some(fired) },
            }
        },
        _ => Dispatch { retained: candidate, fired: None },
    }
}

/// Decides what typing `new_char` after `previous_input` does: the candidate
/// input is `previous_input` with `new_char` appended.
pub fn dispatch_on_change(root: &KeymapEntry, previous_input: &str, new_char: char) -> (d:
    Dispatch)
    ensures
        d.fired == fired_by(*root, previous_input@.push(new_char)),
        d.retained@ == retained_after(*root, previous_input@.push(new_char)),
{
    let mut candidate = previous_input.to_owned();
    candidate.push(new_char);
    dispatch_input(root, candidate)
}

/// A keystroke never rejects input: unless it fired an action that leaves
/// the session running, the session keeps the whole candidate.
pub proof fn lemma_unmatched_input_is_kept(root: KeymapEntry, candidate: Seq<char>)
    requires
        !(fired_by(root, candidate) matches Some(Leaf::LaunchNoQuit(_))),
    ensures
        retained_after(root, candidate) == candidate,
{
}

} // verus!
