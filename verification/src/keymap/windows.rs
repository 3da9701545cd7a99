//! The catalog of shortcuts for Windows.

use crate::keymap::is_mode_with;
use crate::keymap::keymap_for;
use crate::keymap::launch;
use crate::keymap::launches;
use crate::keymap::lemma_mode_children;
use crate::keymap::quits;
use crate::types::KeymapEntry;
use vstd::prelude::*;

verus! {

/// The `apps` mode of the Windows catalog.
pub open spec fn is_apps_mode(at: Option<KeymapEntry>) -> bool {
    &&& is_mode_with(at, "apps"@, set!['c', 'd', 'v', 'q'])
    &&& launches(
        KeymapEntry::step(at, 'c'),
        "chrome"@,
        r"C:\Program Files\Google\Chrome\Application\chrome.exe"@,
        seq![],
    )
    &&& launches(
        KeymapEntry::step(at, 'd'),
        "discord"@,
        r"C:\Users\matth\AppData\Local\Discord\Update.exe"@,
        seq!["--processStart"@, "Discord.exe"@],
    )
    &&& launches(
        KeymapEntry::step(at, 'v'),
        "vscode"@,
        r"C:\Users\matth\AppData\Local\Programs\Microsoft VS Code\Code.exe"@,
        seq![],
    )
    &&& quits(KeymapEntry::step(at, 'q'))
}

/// Builds the `apps` mode.
fn apps() -> (mode: KeymapEntry)
    ensures
        is_apps_mode(Some(mode)),
{
    let chrome = launch("chrome", r"C:\Program Files\Google\Chrome\Application\chrome.exe", &[]);
    let discord = launch(
        "discord",
        r"C:\Users\matth\AppData\Local\Discord\Update.exe",
        &["--processStart", "Discord.exe"],
    );
    let vscode = launch(
        "vscode",
        r"C:\Users\matth\AppData\Local\Programs\Microsoft VS Code\Code.exe",
        &[],
    );
    let entries = vec![('c', chrome), ('d', discord), ('v', vscode)];
    let ghost listed = entries@;
    let built = keymap_for("apps", entries);
    let mode = built.unwrap();
    proof {
        lemma_mode_children(mode, "apps", listed);
        assert(listed[0].0 == 'c');
        assert(listed[1].0 == 'd');
        assert(listed[2].0 == 'v');
    }
    mode
}

/// The `go to` mode of the Windows catalog: web applications, each in a
/// window of its own.
pub open spec fn is_go_to_mode(at: Option<KeymapEntry>) -> bool {
    &&& is_mode_with(at, "go to"@, set!['g', 'c', 't', 'm', 'q'])
    &&& launches(
        KeymapEntry::step(at, 'g'),
        "gmail"@,
        r"C:\Program Files\Google\Chrome\Application\chrome.exe"@,
        seq!["--app=https://mail.google.com"@],
    )
    &&& launches(
        KeymapEntry::step(at, 'c'),
        "calendar"@,
        r"C:\Program Files\Google\Chrome\Application\chrome.exe"@,
        seq!["--app=https://calendar.google.com"@],
    )
    &&& launches(
        KeymapEntry::step(at, 't'),
        "calendar"@,
        r"C:\Program Files\Google\Chrome\Application\chrome.exe"@,
        seq!["--app=https://messages.google.com"@],
    )
    &&& launches(
        KeymapEntry::step(at, 'm'),
        "messenger"@,
        r"C:\Program Files\Google\Chrome\Application\chrome.exe"@,
        seq!["--app=https://messenger.com"@],
    )
    &&& quits(KeymapEntry::step(at, 'q'))
}

/// Builds the `go to` mode.
fn go_to() -> (mode: KeymapEntry)
    ensures
        is_go_to_mode(Some(mode)),
{
    let gmail = launch(
        "gmail",
        r"C:\Program Files\Google\Chrome\Application\chrome.exe",
        &["--app=https://mail.google.com"],
    );
    let calendar = launch(
        "calendar",
        r"C:\Program Files\Google\Chrome\Application\chrome.exe",
        &["--app=https://calendar.google.com"],
    );
    let texts = launch(
        "calendar",
        r"C:\Program Files\Google\Chrome\Application\chrome.exe",
        &["--app=https://messages.google.com"],
    );
    let messenger = launch(
        "messenger",
        r"C:\Program Files\Google\Chrome\Application\chrome.exe",
        &["--app=https://messenger.com"],
    );

    let entries = vec![('g', gmail), ('c', calendar), ('t', texts), ('m', messenger)];
    let ghost listed = entries@;
    let mode = keymap_for("go to", entries).unwrap();
    proof {
        lemma_mode_children(mode, "go to", listed);
        assert(listed[0].0 == 'g');
        assert(listed[1].0 == 'c');
        assert(listed[2].0 == 't');
        assert(listed[3].0 == 'm');
    }
    mode
}

/// The catalog for Windows: the root mode, with the modes `apps` and `go to`
/// under it.
pub open spec fn is_keymap(keymap: KeymapEntry) -> bool {
    let root = Some(keymap);
    &&& is_mode_with(root, ""@, set!['a', 'g', 'q'])
    &&& is_apps_mode(KeymapEntry::step(root, 'a'))
    &&& is_go_to_mode(KeymapEntry::step(root, 'g'))
    &&& quits(KeymapEntry::step(root, 'q'))
}

/// The catalog of shortcuts for Windows.
pub fn get_keymap() -> (keymap: KeymapEntry)
    ensures
        is_keymap(keymap),
{
    let apps = apps();
    let go_to = go_to();

    let entries = vec![('a', apps), ('g', go_to)];
    let ghost listed = entries@;
    let keymap = keymap_for("", entries).unwrap();
    proof {
        lemma_mode_children(keymap, "", listed);
        assert(listed[0].0 == 'a');
        assert(listed[1].0 == 'g');
    }
    keymap
}

} // verus!
