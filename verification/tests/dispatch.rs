use single_mode_shortcuts::dispatch_input;
use single_mode_shortcuts::dispatch_on_change;
use single_mode_shortcuts::get_keymap;
use single_mode_shortcuts::keymap::keymap_for;
use single_mode_shortcuts::keymap::launch_no_exit;
use single_mode_shortcuts::run::Reply;
use single_mode_shortcuts::run::Request;
use single_mode_shortcuts::run::SessionOutcome;
use single_mode_shortcuts::run::Step;
use single_mode_shortcuts::Dispatch;
use single_mode_shortcuts::KeymapEntry;
use single_mode_shortcuts::Launch;
use single_mode_shortcuts::Leaf;
use single_mode_shortcuts::State;

fn brightness_tree() -> KeymapEntry {
    let increase = launch_no_exit("increase", "xbacklight", &["-inc", "1"]);
    let brightness = keymap_for("brightness", vec![('k', increase)]).unwrap();
    let framework = keymap_for("framework", vec![('b', brightness)]).unwrap();
    keymap_for("", vec![('f', framework)]).unwrap()
}

const INCREASE: Launch = Launch { name: "increase", program: "xbacklight", args: &["-inc", "1"] };

#[test]
fn dispatch_launch_no_quit_resets_input_and_keeps_session() {
    let tree = brightness_tree();
    let mut input = String::new();
    for c in ['f', 'b'] {
        let d = dispatch_on_change(&tree, &input, c);
        assert_eq!(d.fired, None);
        input = d.retained;
    }
    assert_eq!(input, "fb");
    let d = dispatch_on_change(&tree, &input, 'k');
    assert_eq!(d.retained, "");
    assert_eq!(d.fired, Some(Leaf::LaunchNoQuit(INCREASE)));

    let step = d.fired.unwrap().run();
    let stage = match step {
        Step::Perform { request, stage } => {
            assert_eq!(request, Request::Spawn { program: "xbacklight", args: &["-inc", "1"] });
            stage
        }
        Step::Finished(_) => panic!("the program has to be started first"),
    };
    assert_eq!(stage.resume(&Reply::Started), Step::Finished(Ok(SessionOutcome::Continue)));
}

#[test]
fn dispatch_quit_terminates_without_spawning() {
    let tree = keymap_for("", vec![]).unwrap();
    assert_eq!(tree.resolve("q"), Some(&KeymapEntry::Leaf(Leaf::Quit)));
    let d = dispatch_on_change(&tree, "", 'q');
    assert_eq!(d.fired, Some(Leaf::Quit));
    assert_eq!(d.retained, "q");
    assert_eq!(Leaf::Quit.run(), Step::Finished(Ok(SessionOutcome::Terminate)));
}

#[test]
fn dispatch_keeps_unmatched_input() {
    let tree = get_keymap();
    let d = dispatch_on_change(&tree, "a", 'x');
    assert_eq!(d, Dispatch { retained: "ax".to_string(), fired: None });
    let d = dispatch_on_change(&tree, "ax", 'c');
    assert_eq!(d, Dispatch { retained: "axc".to_string(), fired: None });
}

#[test]
fn dispatch_keeps_input_while_navigating() {
    let tree = get_keymap();
    let d = dispatch_on_change(&tree, "", 'f');
    assert_eq!(d, Dispatch { retained: "f".to_string(), fired: None });
    let d = dispatch_on_change(&tree, "f", 'b');
    assert_eq!(d, Dispatch { retained: "fb".to_string(), fired: None });
}

#[test]
fn dispatch_keeps_input_of_a_quitting_launch() {
    let tree = get_keymap();
    let d = dispatch_on_change(&tree, "a", 'c');
    assert_eq!(d.retained, "ac");
    assert_eq!(
        d.fired,
        Some(Leaf::Launch(Launch { name: "chrome", program: "google-chrome-stable", args: &[] }))
    );
}

#[test]
fn dispatch_past_a_leaf_fires_nothing() {
    let tree = get_keymap();
    let d = dispatch_on_change(&tree, "ac", 'c');
    assert_eq!(d, Dispatch { retained: "acc".to_string(), fired: None });
}

#[test]
fn dispatch_input_takes_the_whole_candidate() {
    let tree = get_keymap();
    let d = dispatch_input(&tree, "fbj".to_string());
    assert_eq!(d.retained, "");
    assert_eq!(
        d.fired,
        Some(Leaf::LaunchNoQuit(Launch {
            name: "decrease",
            program: "xbacklight",
            args: &["-dec", "1"],
        }))
    );
    let d = dispatch_input(&tree, String::new());
    assert_eq!(d, Dispatch { retained: String::new(), fired: None });
    let d = dispatch_input(&tree, "fbz".to_string());
    assert_eq!(d, Dispatch { retained: "fbz".to_string(), fired: None });
}

#[test]
fn dispatch_on_change_agrees_with_resolve() {
    let tree = get_keymap();
    for previous in ["", "a", "f", "fb", "g", "x", "ac"] {
        for c in ['a', 'b', 'c', 'k', 'q', ' ', 'z'] {
            let d = dispatch_on_change(&tree, previous, c);
            let mut candidate = String::from(previous);
            candidate.push(c);
            match tree.resolve(&candidate) {
                Some(KeymapEntry::Leaf(leaf)) => {
                    assert_eq!(d.fired, Some(*leaf));
                    if matches!(leaf, Leaf::LaunchNoQuit(_)) {
                        assert_eq!(d.retained, "");
                    } else {
                        assert_eq!(d.retained, candidate);
                    }
                }
                _ => {
                    assert_eq!(d.fired, None);
                    assert_eq!(d.retained, candidate);
                }
            }
        }
    }
}

#[test]
fn state_new_seeds_the_input() {
    let state = State::new("g".to_string());
    assert_eq!(state.input_value, "g");
    assert_eq!(state.keymap, get_keymap());
    let keys: Vec<char> = state.maps().iter().map(|r| r.key).collect();
    assert_eq!(keys, vec!['a', 'c', 'd', 'g', 'i', 'm', 'q', 's', 't', 'y']);
}

#[test]
fn state_update_follows_the_keystrokes() {
    let mut state = State::new(String::new());
    assert_eq!(state.maps().len(), 9);
    assert_eq!(state.update("f".to_string()), None);
    assert_eq!(state.input_value, "f");
    assert_eq!(state.update("fb".to_string()), None);
    assert_eq!(state.maps().len(), 5);
    assert_eq!(state.update("fbk".to_string()), Some(Leaf::LaunchNoQuit(INCREASE)));
    assert_eq!(state.input_value, "");
    assert_eq!(state.maps().len(), 9);
    assert_eq!(state.keymap, get_keymap());
    assert_eq!(state.update("zz".to_string()), None);
    assert_eq!(state.input_value, "zz");
    assert!(state.maps().is_empty());
    assert_eq!(state.update("q".to_string()), Some(Leaf::Quit));
    assert_eq!(state.input_value, "q");
}

#[test]
fn state_default_is_empty() {
    let state = State::default();
    assert_eq!(state.input_value, "");
    assert_eq!(state.keymap, KeymapEntry::default());
    assert!(state.maps().is_empty());
}
