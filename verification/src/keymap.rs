//! Building keymaps: the constructors of entries, and the catalog of
//! shortcuts that the launcher ships with.

use crate::child_map::bindings_map;
use crate::child_map::binds;
use crate::child_map::index_of;
use crate::child_map::keys_of;
use crate::child_map::lemma_bindings_map;
use crate::child_map::lemma_bindings_map_push;
use crate::child_map::ChildMap;
use crate::types::GoToOrLaunch;
use crate::types::KeymapEntry;
use crate::types::KeymapError;
use crate::types::Launch;
use crate::types::Leaf;
use vstd::prelude::*;

pub mod linux;
pub mod macos;
pub mod windows;

verus! {

/// The key that every mode built by `keymap_for` binds to the quit action.
pub const QUIT_KEY: char = 'q';

/// An entry that starts `program` and leaves the session running.
pub fn launch_no_exit(
    name: &'static str,
    program: &'static str,
    args: &'static [&'static str],
) -> (entry: KeymapEntry)
    ensures
        entry == KeymapEntry::Leaf(Leaf::LaunchNoQuit(Launch { name, program, args })),
{
    KeymapEntry::Leaf(Leaf::LaunchNoQuit(Launch { program, args, name }))
}

/// An entry that starts `program` and ends the session.
pub fn launch(name: &'static str, program: &'static str, args: &'static [&'static str]) -> (entry:
    KeymapEntry)
    ensures
        entry == KeymapEntry::Leaf(Leaf::Launch(Launch { name, program, args })),
{
    KeymapEntry::Leaf(Leaf::Launch(Launch { program, args, name }))
}

/// An entry that focuses the workspace `workspace_name` and starts `program`
/// there unless a window matching `instance_match` is present.
pub fn go_to_or_launch(
    workspace_name: &'static str,
    instance_match: &'static str,
    name: &'static str,
    program: &'static str,
    args: &'static [&'static str],
) -> (entry: KeymapEntry)
    ensures
        entry == KeymapEntry::Leaf(
            Leaf::GoToOrLaunch(
                GoToOrLaunch {
                    workspace_name,
                    instance_match,
                    launch: Launch { name, program, args },
                },
            ),
        ),
{
    KeymapEntry::Leaf(
        Leaf::GoToOrLaunch(
            GoToOrLaunch { workspace_name, instance_match, launch: Launch { name, program, args } },
        ),
    )
}

/// The bindings of a mode built from `entries`: those, then the quit key.
pub open spec fn with_quit(entries: Seq<(char, KeymapEntry)>) -> Seq<(char, KeymapEntry)> {
    entries.push((QUIT_KEY, KeymapEntry::Leaf(Leaf::Quit)))
}

/// `keys[at]` is the first key that repeats an earlier one.
pub open spec fn first_repeat(keys: Seq<char>, at: int) -> bool {
    &&& 0 <= at < keys.len()
    &&& keys.take(at).no_duplicates()
    &&& keys.take(at).contains(keys[at])
}

/// `entry` is the mode named `name` that holds `entries` and the quit key.
pub open spec fn is_mode_of(
    entry: KeymapEntry,
    name: &'static str,
    entries: Seq<(char, KeymapEntry)>,
) -> bool {
    &&& entry matches KeymapEntry::Node { name: n, map }
    &&& n == name
    &&& map@ == bindings_map(with_quit(entries))
}

/// A repeated key is a duplicate.
pub proof fn lemma_first_repeat(keys: Seq<char>, at: int)
    requires
        first_repeat(keys, at),
    ensures
        !keys.no_duplicates(),
{
    let earlier = choose|i: int| 0 <= i < keys.take(at).len() && keys.take(at)[i] == keys[at];
    assert(keys[earlier] == keys[at]);
}

/// A mode named `name` whose children are `entries` and, under the quit key,
/// the quit action.
///
/// No key may be bound twice, the quit key included: the first key that
/// repeats an earlier one is reported and no mode is built.
pub fn keymap_for(name: &'static str, entries: Vec<(char, KeymapEntry)>) -> (r: Result<
    KeymapEntry,
    KeymapError,
>)
    ensures
        r is Ok <==> keys_of(with_quit(entries@)).no_duplicates(),
        match r {
            Ok(entry) => is_mode_of(entry, name, entries@),
            Err(error) => exists|at: int|
                #![trigger first_repeat(keys_of(with_quit(entries@)), at)]
                first_repeat(keys_of(with_quit(entries@)), at) && error
                    == KeymapError::DuplicateKey(keys_of(with_quit(entries@))[at]),
        },
{
    let ghost all = entries@;
    let ghost keys = keys_of(with_quit(all));
    let mut map = ChildMap::new();
    assert(all.take(0) =~= Seq::<(char, KeymapEntry)>::empty());
    for binding in it: entries.into_iter()
        invariant
            it.seq() == all,
            keys == keys_of(with_quit(all)),
            keys_of(all.take(it.index() as int)).no_duplicates(),
            map@ == bindings_map(all.take(it.index() as int)),
    {
        let ghost done = all.take(it.index() as int);
        let ghost at = it.index() as int;
        let (key, entry) = binding;
        assert(all.take(at + 1) =~= done.push((key, entry)));
        assert(keys.take(at) =~= keys_of(done));
        assert(keys[at] == key);
        match map.insert(key, entry) {
            Ok(more) => {
                proof {
                    lemma_bindings_map_push(done, key, entry);
                }
                map = more;
            },
            Err(error) => {
                proof {
                    let j = index_of(done, key);
                    assert(keys_of(done)[j] == key);
                    assert(first_repeat(keys, at));
                    lemma_first_repeat(keys, at);
                }
                return Err(error);
            },
        }
    }
    let ghost at = all.len() as int;
    assert(all.take(at) =~= all);
    assert(keys.take(at) =~= keys_of(all));
    assert(keys[at] == QUIT_KEY);
    match map.insert(QUIT_KEY, KeymapEntry::Leaf(Leaf::Quit)) {
        Ok(map) => {
            proof {
                lemma_bindings_map_push(all, QUIT_KEY, KeymapEntry::Leaf(Leaf::Quit));
            }
            Ok(KeymapEntry::Node { name, map })
        },
        Err(error) => {
            proof {
                let j = index_of(all, QUIT_KEY);
                assert(keys_of(all)[j] == QUIT_KEY);
                assert(first_repeat(keys, at));
                lemma_first_repeat(keys, at);
            }
            Err(error)
        },
    }
}

/// What a mode built from `entries` holds: each of them under its key, the
/// quit action under the quit key, and nothing under any other key.
pub proof fn lemma_mode_children(
    mode: KeymapEntry,
    name: &'static str,
    entries: Seq<(char, KeymapEntry)>,
)
    requires
        is_mode_of(mode, name, entries),
        keys_of(with_quit(entries)).no_duplicates(),
    ensures
        forall|i: int|
            0 <= i < entries.len() ==> mode.child(#[trigger] entries[i].0) == Some(entries[i].1),
        mode.child(QUIT_KEY) == Some(KeymapEntry::Leaf(Leaf::Quit)),
        forall|key: char| #[trigger]
            mode.child(key) is Some ==> key == QUIT_KEY || binds(entries, key),
{
    let all = with_quit(entries);
    lemma_bindings_map(all);
    assert forall|i: int| 0 <= i < entries.len() implies mode.child(#[trigger] entries[i].0)
        == Some(entries[i].1) by {
        assert(all[i] == entries[i]);
        assert(all[i].0 == entries[i].0);
    }
    assert(all[entries.len() as int].0 == QUIT_KEY);
    assert forall|key: char| #[trigger] mode.child(key) is Some implies key == QUIT_KEY || binds(
        entries,
        key,
    ) by {
        let j = index_of(all, key);
        if j < entries.len() {
            assert(entries[j].0 == key);
        }
    }
}

/// `at` is a mode shown as `name` whose keys are exactly `keys`.
pub open spec fn is_mode_with(at: Option<KeymapEntry>, name: Seq<char>, keys: Set<char>) -> bool {
    &&& at matches Some(KeymapEntry::Node { name: n, map })
    &&& n@ == name
    &&& map@.dom() =~= keys
}

/// `launch` is shown as `name` and starts `program` with `args`.
pub open spec fn starts(
    launch: Launch,
    name: Seq<char>,
    program: Seq<char>,
    args: Seq<Seq<char>>,
) -> bool {
    &&& launch.name@ == name
    &&& launch.program@ == program
    &&& crate::types::args_view(launch.args) =~= args
}

/// `at` is the action that starts a program and ends the session.
pub open spec fn launches(
    at: Option<KeymapEntry>,
    name: Seq<char>,
    program: Seq<char>,
    args: Seq<Seq<char>>,
) -> bool {
    at matches Some(KeymapEntry::Leaf(Leaf::Launch(l))) && starts(l, name, program, args)
}

/// `at` is the action that starts a program and keeps the session.
pub open spec fn launches_and_stays(
    at: Option<KeymapEntry>,
    name: Seq<char>,
    program: Seq<char>,
    args: Seq<Seq<char>>,
) -> bool {
    at matches Some(KeymapEntry::Leaf(Leaf::LaunchNoQuit(l))) && starts(l, name, program, args)
}

/// `at` is the action that focuses `workspace` and starts a program there
/// unless `probe` is found.
pub open spec fn goes_to(
    at: Option<KeymapEntry>,
    workspace: Seq<char>,
    probe: Seq<char>,
    name: Seq<char>,
    program: Seq<char>,
    args: Seq<Seq<char>>,
) -> bool {
    &&& at matches Some(KeymapEntry::Leaf(Leaf::GoToOrLaunch(go)))
    &&& go.workspace_name@ == workspace
    &&& go.instance_match@ == probe
    &&& starts(go.launch, name, program, args)
}

/// `at` is the quit action.
pub open spec fn quits(at: Option<KeymapEntry>) -> bool {
    at == Some(KeymapEntry::Leaf(Leaf::Quit))
}

/// The catalog for a Linux desktop: the root mode, with the modes `apps`,
/// `go_to`, `admin`, `sound`, `toggle`, `window` and `framework` and the
/// program launcher under it.
pub open spec fn is_linux_keymap(keymap: KeymapEntry) -> bool {
    let root = Some(keymap);
    &&& is_mode_with(root, ""@, set!['a', 'g', 'i', 's', 'c', 'w', ' ', 'f', 'q'])
    &&& linux::is_apps_mode(KeymapEntry::step(root, 'a'))
    &&& linux::is_go_to_mode(KeymapEntry::step(root, 'g'))
    &&& linux::is_admin_mode(KeymapEntry::step(root, 'i'))
    &&& linux::is_sound_mode(KeymapEntry::step(root, 's'))
    &&& linux::is_toggle_mode(KeymapEntry::step(root, 'c'))
    &&& linux::is_window_mode(KeymapEntry::step(root, 'w'))
    &&& linux::is_rofi(KeymapEntry::step(root, ' '))
    &&& linux::is_framework_mode(KeymapEntry::step(root, 'f'))
    &&& quits(KeymapEntry::step(root, 'q'))
}

/// The catalog of shortcuts for a Linux desktop.
pub fn get_keymap() -> (keymap: KeymapEntry)
    ensures
        is_linux_keymap(keymap),
{
    let apps = linux::apps();
    let go_to = linux::go_to();
    let admin = linux::admin();
    let sound = linux::sound();
    let toggle = linux::toggle();
    let window = linux::window();
    let rofi = linux::rofi();
    let framework = linux::framework();

    let entries = vec![
        ('a', apps),
        ('g', go_to),
        ('i', admin),
        ('s', sound),
        ('c', toggle),
        ('w', window),
        (' ', rofi),
        ('f', framework),
    ];
    let ghost listed = entries@;
    let keymap = keymap_for("", entries).unwrap();
    proof {
        lemma_mode_children(keymap, "", listed);
        assert(listed[0].0 == 'a');
        assert(listed[1].0 == 'g');
        assert(listed[2].0 == 'i');
        assert(listed[3].0 == 's');
        assert(listed[4].0 == 'c');
        assert(listed[5].0 == 'w');
        assert(listed[6].0 == ' ');
        assert(listed[7].0 == 'f');
    }
    keymap
}

} // verus!
