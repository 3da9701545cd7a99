//! The modes of the Linux catalog, for a desktop run by the i3 window
//! manager.

use crate::keymap::go_to_or_launch;
use crate::keymap::goes_to;
use crate::keymap::is_mode_with;
use crate::keymap::keymap_for;
use crate::keymap::launch;
use crate::keymap::launch_no_exit;
use crate::keymap::launches;
use crate::keymap::launches_and_stays;
use crate::keymap::lemma_mode_children;
use crate::keymap::quits;
use crate::types::KeymapEntry;
use vstd::prelude::*;

verus! {

/// The `apps` mode: programs to start.
pub open spec fn is_apps_mode(at: Option<KeymapEntry>) -> bool {
    &&& is_mode_with(at, "apps"@, set!['c', 'f', 'q'])
    &&& launches(KeymapEntry::step(at, 'c'), "chrome"@, "google-chrome-stable"@, seq![])
    &&& launches(KeymapEntry::step(at, 'f'), "files"@, "thunar"@, seq![])
    &&& quits(KeymapEntry::step(at, 'q'))
}

/// The `go_to` mode: workspaces to focus, each with the program that lives
/// there.
pub open spec fn is_go_to_mode(at: Option<KeymapEntry>) -> bool {
    &&& is_mode_with(at, "go_to"@, set!['a', 'd', 'i', 's', 'y', 't', 'c', 'g', 'm', 'q'])
    &&& goes_to(KeymapEntry::step(at, 'a'), "\u{f19c}"@, r"^anki$"@, "anki"@, "anki"@, seq![])
    &&& goes_to(
        KeymapEntry::step(at, 'd'),
        "\u{f392}"@,
        r"^discord$"@,
        "discord"@,
        "discord"@,
        seq![],
    )
    &&& goes_to(
        KeymapEntry::step(at, 'i'),
        "\u{f023}"@,
        r"^signal$"@,
        "signal"@,
        "signal-desktop"@,
        seq![],
    )
    &&& goes_to(
        KeymapEntry::step(at, 's'),
        "\u{f1bc}"@,
        r"^spotify$"@,
        "spotify"@,
        "spotify"@,
        seq![],
    )
    &&& goes_to(
        KeymapEntry::step(at, 'y'),
        "$"@,
        r"^app\\.youneedabudget\\.com"@,
        "ynab"@,
        "google-chrome-stable"@,
        seq![
            "--app=https://app.youneedabudget.com/d9a98bef-38c4-4602-ae84-9be39fe8937e/budget"@,
        ],
    )
    &&& goes_to(
        KeymapEntry::step(at, 't'),
        "\u{f7cd}"@,
        r"^messages\\.google\\.com$"@,
        "texts"@,
        "google-chrome-stable"@,
        seq!["--app=https://messages.google.com"@],
    )
    &&& goes_to(
        KeymapEntry::step(at, 'c'),
        "\u{f133}"@,
        r"^calendar\\.google\\.com$"@,
        "calendar"@,
        "google-chrome-stable"@,
        seq!["--app=https://calendar.google.com"@],
    )
    &&& goes_to(
        KeymapEntry::step(at, 'g'),
        "\u{f0e0}"@,
        r"^mail\\.google\\.com$"@,
        "gmail"@,
        "google-chrome-stable"@,
        seq!["--app=https://mail.google.com"@],
    )
    &&& goes_to(
        KeymapEntry::step(at, 'm'),
        "\u{f39f}"@,
        r"^messenger\\.com$"@,
        "messenger"@,
        "google-chrome-stable"@,
        seq!["--app=https://messenger.com"@],
    )
    &&& quits(KeymapEntry::step(at, 'q'))
}

/// The `logout` mode: a second key to confirm leaving the desktop session.
pub open spec fn is_logout_mode(at: Option<KeymapEntry>) -> bool {
    &&& is_mode_with(at, "logout"@, set!['x', 'q'])
    &&& launches(KeymapEntry::step(at, 'x'), "logout"@, "i3-msg"@, seq!["exit"@])
    &&& quits(KeymapEntry::step(at, 'q'))
}

/// The `admin` mode: locking, reloading and leaving the desktop session.
pub open spec fn is_admin_mode(at: Option<KeymapEntry>) -> bool {
    &&& is_mode_with(at, "admin"@, set!['l', 'e', 'r', 'x', 'q'])
    &&& launches(KeymapEntry::step(at, 'l'), "lock"@, "mjh-lock"@, seq![])
    &&& launches(KeymapEntry::step(at, 'e'), "reload"@, "i3-msg"@, seq!["reload"@])
    &&& launches(KeymapEntry::step(at, 'r'), "restart"@, "i3-msg"@, seq!["restart"@])
    &&& is_logout_mode(KeymapEntry::step(at, 'x'))
    &&& quits(KeymapEntry::step(at, 'q'))
}

/// The `sound` mode.
pub open spec fn is_sound_mode(at: Option<KeymapEntry>) -> bool {
    &&& is_mode_with(at, "sound"@, set!['a', 'q'])
    &&& launches(
        KeymapEntry::step(at, 'a'),
        "mixer"@,
        "alacritty"@,
        seq!["--class"@, "float"@, "-e"@, "pulsemixer"@],
    )
    &&& quits(KeymapEntry::step(at, 'q'))
}

/// The `toggle` mode: switches of the window manager.
pub open spec fn is_toggle_mode(at: Option<KeymapEntry>) -> bool {
    &&& is_mode_with(at, "toggle"@, set!['b', 'B', 'f', 's', 'q'])
    &&& launches(KeymapEntry::step(at, 'b'), "bar"@, "i3-msg"@, seq!["bar mode toggle"@])
    &&& launches(KeymapEntry::step(at, 'B'), "border"@, "i3-msg"@, seq!["border toggle"@])
    &&& launches(KeymapEntry::step(at, 'f'), "floating"@, "i3-msg"@, seq!["floating toggle"@])
    &&& launches(
        KeymapEntry::step(at, 's'),
        "mpv float"@,
        "i3-msg"@,
        seq![
            "[class=mpv] floating toggle, sticky toggle; [class=mpv floating] resize set 30ppt, move position 69ppt 73ppt, border none"@,
        ],
    )
    &&& quits(KeymapEntry::step(at, 'q'))
}

/// The `window` mode, which so far only offers to quit.
pub open spec fn is_window_mode(at: Option<KeymapEntry>) -> bool {
    &&& is_mode_with(at, "window"@, set!['q'])
    &&& quits(KeymapEntry::step(at, 'q'))
}

/// The `brightness` mode: two fixed levels, and two steps that keep the
/// session so that they can be repeated.
pub open spec fn is_brightness_mode(at: Option<KeymapEntry>) -> bool {
    &&& is_mode_with(at, "brightness"@, set!['n', 'd', 'k', 'j', 'q'])
    &&& launches(KeymapEntry::step(at, 'n'), "night"@, "xbacklight"@, seq!["-set"@, "1"@])
    &&& launches(KeymapEntry::step(at, 'd'), "day"@, "xbacklight"@, seq!["-set"@, "20"@])
    &&& launches_and_stays(
        KeymapEntry::step(at, 'k'),
        "increase"@,
        "xbacklight"@,
        seq!["-inc"@, "1"@],
    )
    &&& launches_and_stays(
        KeymapEntry::step(at, 'j'),
        "decrease"@,
        "xbacklight"@,
        seq!["-dec"@, "1"@],
    )
    &&& quits(KeymapEntry::step(at, 'q'))
}

/// The `screenshots` mode.
pub open spec fn is_screenshots_mode(at: Option<KeymapEntry>) -> bool {
    &&& is_mode_with(at, "screenshots"@, set!['u', 'a', 'd', 'c', 'q'])
    &&& launches(KeymapEntry::step(at, 'u'), "full screen"@, "screenshot"@, seq![])
    &&& launches(KeymapEntry::step(at, 'a'), "select area"@, "screenshot"@, seq!["-sD"@])
    &&& launches(
        KeymapEntry::step(at, 'd'),
        "full screen delay"@,
        "screenshot"@,
        seq!["-d"@, "3"@],
    )
    &&& launches(KeymapEntry::step(at, 'c'), "current window"@, "screenshot"@, seq!["-s"@])
    &&& quits(KeymapEntry::step(at, 'q'))
}

/// The `framework` mode: settings of the laptop.
pub open spec fn is_framework_mode(at: Option<KeymapEntry>) -> bool {
    &&& is_mode_with(at, "framework"@, set!['b', 's', 'q'])
    &&& is_brightness_mode(KeymapEntry::step(at, 'b'))
    &&& is_screenshots_mode(KeymapEntry::step(at, 's'))
    &&& quits(KeymapEntry::step(at, 'q'))
}

/// The program launcher that the space key starts.
pub open spec fn is_rofi(at: Option<KeymapEntry>) -> bool {
    launches(at, "rofi"@, "rofi"@, seq!["-show"@, "run"@])
}

/// Builds the `apps` mode.
pub(crate) fn apps() -> (mode: KeymapEntry)
    ensures
        is_apps_mode(Some(mode)),
{
    let chrome = launch("chrome", "google-chrome-stable", &[]);
    let files = launch("files", "thunar", &[]);

    let entries = vec![('c', chrome), ('f', files)];
    let ghost listed = entries@;
    let mode = keymap_for("apps", entries).unwrap();
    proof {
        lemma_mode_children(mode, "apps", listed);
        assert(listed[0].0 == 'c');
        assert(listed[1].0 == 'f');
    }
    mode
}

/// Builds the `go_to` mode.
pub(crate) fn go_to() -> (mode: KeymapEntry)
    ensures
        is_go_to_mode(Some(mode)),
{
    let anki = go_to_or_launch("\u{f19c}", r"^anki$", "anki", "anki", &[]);
    let discord = go_to_or_launch("\u{f392}", r"^discord$", "discord", "discord", &[]);
    let signal = go_to_or_launch("\u{f023}", r"^signal$", "signal", "signal-desktop", &[]);
    let spotify = go_to_or_launch("\u{f1bc}", r"^spotify$", "spotify", "spotify", &[]);
    let ynab = go_to_or_launch(
        "$",
        r"^app\\.youneedabudget\\.com",
        "ynab",
        "google-chrome-stable",
        &["--app=https://app.youneedabudget.com/d9a98bef-38c4-4602-ae84-9be39fe8937e/budget"],
    );
    let texts = go_to_or_launch(
        "\u{f7cd}",
        r"^messages\\.google\\.com$",
        "texts",
        "google-chrome-stable",
        &["--app=https://messages.google.com"],
    );
    let calendar = go_to_or_launch(
        "\u{f133}",
        r"^calendar\\.google\\.com$",
        "calendar",
        "google-chrome-stable",
        &["--app=https://calendar.google.com"],
    );
    let gmail = go_to_or_launch(
        "\u{f0e0}",
        r"^mail\\.google\\.com$",
        "gmail",
        "google-chrome-stable",
        &["--app=https://mail.google.com"],
    );
    let messenger = go_to_or_launch(
        "\u{f39f}",
        r"^messenger\\.com$",
        "messenger",
        "google-chrome-stable",
        &["--app=https://messenger.com"],
    );

    let entries = vec![
        ('a', anki),
        ('d', discord),
        ('i', signal),
        ('s', spotify),
        ('y', ynab),
        ('t', texts),
        ('c', calendar),
        ('g', gmail),
        ('m', messenger),
    ];
    let ghost listed = entries@;
    let mode = keymap_for("go_to", entries).unwrap();
    proof {
        lemma_mode_children(mode, "go_to", listed);
        assert(listed[0].0 == 'a');
        assert(listed[1].0 == 'd');
        assert(listed[2].0 == 'i');
        assert(listed[3].0 == 's');
        assert(listed[4].0 == 'y');
        assert(listed[5].0 == 't');
        assert(listed[6].0 == 'c');
        assert(listed[7].0 == 'g');
        assert(listed[8].0 == 'm');
    }
    mode
}

/// Builds the `logout` mode.
fn logout() -> (mode: KeymapEntry)
    ensures
        is_logout_mode(Some(mode)),
{
    let logout = launch("logout", "i3-msg", &["exit"]);

    let entries = vec![('x', logout)];
    let ghost listed = entries@;
    let mode = keymap_for("logout", entries).unwrap();
    proof {
        lemma_mode_children(mode, "logout", listed);
        assert(listed[0].0 == 'x');
    }
    mode
}

/// Builds the `admin` mode, with the `logout` mode under it.
pub(crate) fn admin() -> (mode: KeymapEntry)
    ensures
        is_admin_mode(Some(mode)),
{
    let logout = logout();
    let lock = launch("lock", "mjh-lock", &[]);
    let reload = launch("reload", "i3-msg", &["reload"]);
    let restart = launch("restart", "i3-msg", &["restart"]);

    let entries = vec![('l', lock), ('e', reload), ('r', restart), ('x', logout)];
    let ghost listed = entries@;
    let mode = keymap_for("admin", entries).unwrap();
    proof {
        lemma_mode_children(mode, "admin", listed);
        assert(listed[0].0 == 'l');
        assert(listed[1].0 == 'e');
        assert(listed[2].0 == 'r');
        assert(listed[3].0 == 'x');
    }
    mode
}

/// Builds the `sound` mode.
pub(crate) fn sound() -> (mode: KeymapEntry)
    ensures
        is_sound_mode(Some(mode)),
{
    let alsamixer = launch("mixer", "alacritty", &["--class", "float", "-e", "pulsemixer"]);

    let entries = vec![('a', alsamixer)];
    let ghost listed = entries@;
    let mode = keymap_for("sound", entries).unwrap();
    proof {
        lemma_mode_children(mode, "sound", listed);
        assert(listed[0].0 == 'a');
    }
    mode
}

/// Builds the `toggle` mode.
pub(crate) fn toggle() -> (mode: KeymapEntry)
    ensures
        is_toggle_mode(Some(mode)),
{
    let bar = launch("bar", "i3-msg", &["bar mode toggle"]);
    let border = launch("border", "i3-msg", &["border toggle"]);
    let floating = launch("floating", "i3-msg", &["floating toggle"]);
    let mpv_sticky_float = launch(
        "mpv float",
        "i3-msg",
        &[
            "[class=mpv] floating toggle, sticky toggle; [class=mpv floating] resize set 30ppt, move position 69ppt 73ppt, border none",
        ],
    );

    let entries = vec![('b', bar), ('B', border), ('f', floating), ('s', mpv_sticky_float)];
    let ghost listed = entries@;
    let mode = keymap_for("toggle", entries).unwrap();
    proof {
        lemma_mode_children(mode, "toggle", listed);
        assert(listed[0].0 == 'b');
        assert(listed[1].0 == 'B');
        assert(listed[2].0 == 'f');
        assert(listed[3].0 == 's');
    }
    mode
}

/// Builds the `window` mode.
pub(crate) fn window() -> (mode: KeymapEntry)
    ensures
        is_window_mode(Some(mode)),
{
    let entries: Vec<(char, KeymapEntry)> = vec![];
    let ghost listed = entries@;
    let mode = keymap_for("window", entries).unwrap();
    proof {
        lemma_mode_children(mode, "window", listed);
    }
    mode
}

/// Builds the `brightness` mode.
fn brightness() -> (mode: KeymapEntry)
    ensures
        is_brightness_mode(Some(mode)),
{
    let nighttime = launch("night", "xbacklight", &["-set", "1"]);
    let daytime = launch("day", "xbacklight", &["-set", "20"]);
    let increase = launch_no_exit("increase", "xbacklight", &["-inc", "1"]);
    let decrease = launch_no_exit("decrease", "xbacklight", &["-dec", "1"]);

    let entries = vec![('n', nighttime), ('d', daytime), ('k', increase), ('j', decrease)];
    let ghost listed = entries@;
    let mode = keymap_for("brightness", entries).unwrap();
    proof {
        lemma_mode_children(mode, "brightness", listed);
        assert(listed[0].0 == 'n');
        assert(listed[1].0 == 'd');
        assert(listed[2].0 == 'k');
        assert(listed[3].0 == 'j');
    }
    mode
}

/// Builds the `screenshots` mode.
fn screenshots() -> (mode: KeymapEntry)
    ensures
        is_screenshots_mode(Some(mode)),
{
    let full_screen = launch("full screen", "screenshot", &[]);
    let select_area = launch("select area", "screenshot", &["-sD"]);
    let full_screen_delay = launch("full screen delay", "screenshot", &["-d", "3"]);
    let current_window = launch("current window", "screenshot", &["-s"]);

    let entries = vec![
        ('u', full_screen),
        ('a', select_area),
        ('d', full_screen_delay),
        ('c', current_window),
    ];
    let ghost listed = entries@;
    let mode = keymap_for("screenshots", entries).unwrap();
    proof {
        lemma_mode_children(mode, "screenshots", listed);
        assert(listed[0].0 == 'u');
        assert(listed[1].0 == 'a');
        assert(listed[2].0 == 'd');
        assert(listed[3].0 == 'c');
    }
    mode
}

/// Builds the `framework` mode, with the `brightness` and `screenshots` modes under it.
pub(crate) fn framework() -> (mode: KeymapEntry)
    ensures
        is_framework_mode(Some(mode)),
{
    let brightness = brightness();
    let screenshots = screenshots();

    let entries = vec![('b', brightness), ('s', screenshots)];
    let ghost listed = entries@;
    let mode = keymap_for("framework", entries).unwrap();
    proof {
        lemma_mode_children(mode, "framework", listed);
        assert(listed[0].0 == 'b');
        assert(listed[1].0 == 's');
    }
    mode
}

/// Builds the entry that starts the program launcher.
pub(crate) fn rofi() -> (entry: KeymapEntry)
    ensures
        is_rofi(Some(entry)),
{
    launch("rofi", "rofi", &["-show", "run"])
}

} // verus!
