use single_mode_shortcuts::get_keymap;
use single_mode_shortcuts::keymap::keymap_for;
use single_mode_shortcuts::keymap::launch;
use single_mode_shortcuts::keymap_entry::key_text;
use single_mode_shortcuts::keymap_entry::rows_of;
use single_mode_shortcuts::ChildMap;
use single_mode_shortcuts::ChildRow;
use single_mode_shortcuts::KeymapEntry;
use single_mode_shortcuts::Leaf;

fn row(key: char, key_text: &str, label: &'static str, is_branch: bool) -> ChildRow {
    ChildRow { key, key_text: key_text.to_string(), label, is_branch }
}

#[test]
fn view_children_lists_the_root_in_key_order() {
    let tree = get_keymap();
    let rows = tree.view_children("");
    let expected = vec![
        row(' ', "<space>", "rofi", false),
        row('a', "a", "apps", true),
        row('c', "c", "toggle", true),
        row('f', "f", "framework", true),
        row('g', "g", "go_to", true),
        row('i', "i", "admin", true),
        row('q', "q", "quit", false),
        row('s', "s", "sound", true),
        row('w', "w", "window", true),
    ];
    assert_eq!(rows, expected);
}

#[test]
fn view_children_is_sorted_and_has_exactly_the_keys() {
    let tree = get_keymap();
    for input in ["", "a", "g", "i", "ix", "s", "c", "w", "f", "fb", "fs"] {
        let rows = tree.view_children(input);
        let keys: Vec<char> = rows.iter().map(|r| r.key).collect();
        for pair in keys.windows(2) {
            assert!(pair[0] < pair[1]);
        }
        let node = tree.resolve(input).unwrap();
        for r in &rows {
            let child = node.get(r.key).unwrap();
            assert_eq!(r.label, child.get_name());
            assert_eq!(r.is_branch, child.is_mode());
        }
        for c in (0u32..0x250).filter_map(char::from_u32) {
            assert_eq!(node.get(c).is_some(), keys.contains(&c));
        }
    }
}

#[test]
fn view_children_does_not_depend_on_insertion_order() {
    let one = keymap_for(
        "m",
        vec![('z', launch("z", "z", &[])), ('a', launch("a", "a", &[])), ('r', launch("r", "r", &[]))],
    )
    .unwrap();
    let other = keymap_for(
        "m",
        vec![('r', launch("r", "r", &[])), ('z', launch("z", "z", &[])), ('a', launch("a", "a", &[]))],
    )
    .unwrap();
    assert_eq!(one.view_children(""), other.view_children(""));
    let keys: Vec<char> = one.view_children("").iter().map(|r| r.key).collect();
    assert_eq!(keys, vec!['a', 'q', 'r', 'z']);
    assert_eq!(one, other);
}

#[test]
fn view_children_orders_upper_case_before_lower_case() {
    let tree = get_keymap();
    let keys: Vec<char> = tree.view_children("c").iter().map(|r| r.key).collect();
    assert_eq!(keys, vec!['B', 'b', 'f', 'q', 's']);
}

#[test]
fn view_children_of_a_leaf_or_of_no_match_is_empty() {
    let tree = get_keymap();
    assert!(tree.view_children("ac").is_empty());
    assert!(tree.view_children("q").is_empty());
    assert!(tree.view_children("ax").is_empty());
    assert!(tree.view_children("acc").is_empty());
    assert!(tree.view_children("zz").is_empty());
}

#[test]
fn view_children_of_a_mode_shows_its_actions() {
    let tree = get_keymap();
    let expected = vec![
        row('d', "d", "day", false),
        row('j', "j", "decrease", false),
        row('k', "k", "increase", false),
        row('n', "n", "night", false),
        row('q', "q", "quit", false),
    ];
    assert_eq!(tree.view_children("fb"), expected);
}

#[test]
fn key_text_shows_space_as_placeholder() {
    assert_eq!(key_text(' '), "<space>");
    assert_eq!(key_text('a'), "a");
    assert_eq!(key_text('B'), "B");
    assert_eq!(key_text('\u{e9}'), "\u{e9}");
    assert_eq!(key_text('<'), "<");
}

#[test]
fn rows_of_an_empty_map_is_empty() {
    assert!(rows_of(&ChildMap::new()).is_empty());
}

#[test]
fn child_map_keeps_keys_ascending_and_refuses_duplicates() {
    let quit = || KeymapEntry::Leaf(Leaf::Quit);
    let map = ChildMap::new();
    assert_eq!(map.len(), 0);
    let map = map.insert('m', quit()).unwrap();
    let map = map.insert('a', launch("a", "pa", &[])).unwrap();
    let map = map.insert('z', launch("z", "pz", &[])).unwrap();
    let map = map.insert('n', launch("n", "pn", &[])).unwrap();
    assert_eq!(map.len(), 4);
    assert_eq!(map.key_at(0), 'a');
    assert_eq!(map.key_at(1), 'm');
    assert_eq!(map.key_at(2), 'n');
    assert_eq!(map.key_at(3), 'z');
    assert_eq!(map.child_at(0), &launch("a", "pa", &[]));
    assert_eq!(map.child_at(1), &quit());
    assert_eq!(map.get('n'), Some(&launch("n", "pn", &[])));
    assert_eq!(map.get('z'), Some(&launch("z", "pz", &[])));
    assert_eq!(map.get('b'), None);
    assert_eq!(
        map.insert('n', quit()),
        Err(single_mode_shortcuts::KeymapError::DuplicateKey('n'))
    );
}
