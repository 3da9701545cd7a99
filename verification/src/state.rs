//! The session: the accumulated input and the keymap, and what a change of
//! the input does to them.

use crate::child_map::ChildMap;
use crate::dispatch::dispatch_input;
use crate::dispatch::fired_by;
use crate::dispatch::retained_after;
use crate::keymap::get_keymap;
use crate::keymap::is_linux_keymap;
use crate::keymap_entry::lists;
use crate::keymap_entry::ChildRow;
use crate::types::KeymapEntry;
use crate::types::Leaf;
use crate::types::State;
use vstd::prelude::*;

verus! {

impl Default for KeymapEntry {
    /// A mode named `top` with no children.
    fn default() -> (entry: Self)
        ensures
            entry matches KeymapEntry::Node { name, map } && name@ == "top"@ && map@ == Map::<
                char,
                KeymapEntry,
            >::empty(),
    {
        KeymapEntry::Node { name: "top", map: ChildMap::new() }
    }
}

impl Default for State {
    /// A session with nothing typed, over a mode with no children.
    fn default() -> (state: Self)
        ensures
            state.input_value@ == Seq::<char>::empty(),
            state.keymap matches KeymapEntry::Node { name, map } && name@ == "top"@ && map@
                == Map::<char, KeymapEntry>::empty(),
    {
        State { input_value: String::new(), keymap: KeymapEntry::default() }
    }
}

impl State {
    /// A session over the Linux catalog that starts with `input` already
    /// typed, so that it can open inside a mode.
    pub fn new(input: String) -> (state: State)
        ensures
            state.input_value@ == input@,
            is_linux_keymap(state.keymap),
    {
        State { input_value: input, keymap: get_keymap() }
    }

    /// Takes the new content `value` of the input field: returns the action
    /// that it fires, if any, and keeps the input that is to be shown next.
    /// The keymap stays as it is.
    pub fn update(&mut self, value: String) -> (fired: Option<Leaf>)
        ensures
            final(self).keymap == old(self).keymap,
            fired == fired_by(old(self).keymap, value@),
            final(self).input_value@ == retained_after(old(self).keymap, value@),
    {
        let dispatch = dispatch_input(&self.keymap, value);
        self.input_value = dispatch.retained;
        dispatch.fired
    }

    /// The hint list for what has been typed so far.
    pub fn maps(&self) -> (rows: Vec<ChildRow>)
        ensures
            match self.keymap.spec_resolve(self.input_value@) {
                Some(KeymapEntry::Node { map, .. }) => lists(rows@, map),
                _ => rows@.len() == 0,
            },
    {
        self.keymap.view_children(self.input_value.as_str())
    }
}

} // verus!
