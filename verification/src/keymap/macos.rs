//! The catalog of shortcuts for macOS.

use crate::keymap::is_mode_with;
use crate::keymap::keymap_for;
use crate::keymap::lemma_mode_children;
use crate::keymap::quits;
use crate::types::KeymapEntry;
use vstd::prelude::*;

verus! {

/// The `apps` mode of the macOS catalog, which so far only offers to quit.
pub open spec fn is_apps_mode(at: Option<KeymapEntry>) -> bool {
    &&& is_mode_with(at, "apps"@, set!['q'])
    &&& quits(KeymapEntry::step(at, 'q'))
}

/// The catalog for macOS: the root mode, with the mode `apps` under it.
pub open spec fn is_keymap(keymap: KeymapEntry) -> bool {
    let root = Some(keymap);
    &&& is_mode_with(root, ""@, set!['a', 'q'])
    &&& is_apps_mode(KeymapEntry::step(root, 'a'))
    &&& quits(KeymapEntry::step(root, 'q'))
}

/// The catalog of shortcuts for macOS.
pub fn get_keymap() -> (keymap: KeymapEntry)
    ensures
        is_keymap(keymap),
{
    let no_entries: Vec<(char, KeymapEntry)> = vec![];
    let ghost none = no_entries@;
    let apps = keymap_for("apps", no_entries).unwrap();
    proof {
        lemma_mode_children(apps, "apps", none);
    }

    let entries = vec![('a', apps)];
    let ghost listed = entries@;
    let keymap = keymap_for("", entries).unwrap();
    proof {
        lemma_mode_children(keymap, "", listed);
        assert(listed[0].0 == 'a');
    }
    keymap
}

} // verus!
