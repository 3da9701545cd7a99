//! Walking the keymap tree: resolving an input string to the entry it
//! selects, and listing the children of the selected mode for display.

use crate::child_map::ascending;
use crate::child_map::lemma_keys_are_domain;
use crate::child_map::ChildMap;
use crate::types::KeymapEntry;
use crate::types::Leaf;
use vstd::prelude::*;

verus! {

/// One line of the hint list: a key of the current mode and what it leads to.
#[derive(Clone, Debug, PartialEq, Eq)]
pub struct ChildRow {
    /// The key to press.
    pub key: char,
    /// The key as it is shown; a space is shown as a placeholder.
    pub key_text: String,
    /// The name of the mode or of the action behind the key.
    pub label: &'static str,
    /// Whether the key leads to a mode rather than to an action.
    pub is_branch: bool,
}

/// How a key is shown: the space key as `<space>`, any other as itself.
pub open spec fn key_text_of(key: char) -> Seq<char> {
    if key == ' ' {
        "<space>"@
    } else {
        seq![key]
    }
}

/// The keys of a list of rows, in the same order.
pub open spec fn row_keys(rows: Seq<ChildRow>) -> Seq<char> {
    rows.map_values(|row: ChildRow| row.key)
}

/// `rows` is the hint list of `map`: one row per child, in ascending key
/// order, each showing the child bound to its key.
pub open spec fn lists(rows: Seq<ChildRow>, map: ChildMap) -> bool {
    &&& ascending(row_keys(rows))
    &&& row_keys(rows).to_set() == map@.dom()
    &&& forall|i: int|
        0 <= i < rows.len() ==> {
            let row = #[trigger] rows[i];
            &&& map@.dom().contains(row.key)
            &&& row.key_text@ == key_text_of(row.key)
            &&& row.label@ == map@[row.key].label()
            &&& row.is_branch == map@[row.key] is Node
        }
}

/// The text under which `key` is shown.
pub fn key_text(key: char) -> (text: String)
    ensures
        text@ == key_text_of(key),
{
    if key == ' ' {
        "<space>".to_owned()
    } else {
        let mut text = String::new();
        text.push(key);
        text
    }
}

impl Leaf {
    /// The label under which the action is shown.
    pub open spec fn label(self) -> Seq<char> {
        match self {
            Leaf::GoToOrLaunch(go) => go.launch.name@,
            Leaf::Launch(launch) => launch.name@,
            Leaf::LaunchNoQuit(launch) => launch.name@,
            Leaf::Quit => "quit"@,
        }
    }
}

impl KeymapEntry {
    /// The label under which the entry is shown: the name of a mode, the name
    /// of the program that an action starts, `quit` for the quit action.
    pub open spec fn label(self) -> Seq<char> {
        match self {
            KeymapEntry::Leaf(leaf) => leaf.label(),
            KeymapEntry::Node { name, .. } => name@,
        }
    }

    /// The child reached from this entry by `key`. An action has no children.
    pub open spec fn child(self, key: char) -> Option<KeymapEntry> {
        match self {
            KeymapEntry::Leaf(_) => None,
            KeymapEntry::Node { map, .. } => map.lookup(key),
        }
    }

    /// One step of the walk: from the entry reached so far, if any, by `key`.
    pub open spec fn step(at: Option<KeymapEntry>, key: char) -> Option<KeymapEntry> {
        match at {
            Some(entry) => entry.child(key),
            None => None,
        }
    }

    /// The entry that `input` selects when the walk starts at `self`: the
    /// fold of `step` over the characters of `input`, left to right.
    pub open spec fn spec_resolve(self, input: Seq<char>) -> Option<KeymapEntry>
        decreases input.len(),
    {
        if input.len() == 0 {
            Some(self)
        } else {
            Self::step(self.spec_resolve(input.drop_last()), input.last())
        }
    }

    /// Whether the entry is a mode.
    pub fn is_mode(&self) -> (r: bool)
        ensures
            r == (self is Node),
    {
        match self {
            KeymapEntry::Leaf(_) => false,
            KeymapEntry::Node { .. } => true,
        }
    }

    /// The label under which the entry is shown.
    pub fn get_name(&self) -> (name: &'static str)
        ensures
            name@ == self.label(),
    {
        match self {
            KeymapEntry::Leaf(leaf) => match leaf {
                Leaf::GoToOrLaunch(go) => go.launch.name,
                Leaf::Launch(launch) => launch.name,
                Leaf::LaunchNoQuit(launch) => launch.name,
                Leaf::Quit => "quit",
            },
            KeymapEntry::Node { name, .. } => name,
        }
    }

    /// The child reached by `key`.
    pub fn get(&self, key: char) -> (r: Option<&KeymapEntry>)
        ensures
            match r {
                Some(child) => self.child(key) == Some(*child),
                None => self.child(key) is None,
            },
    {
        match self {
            KeymapEntry::Leaf(_) => None,
            KeymapEntry::Node { map, .. } => map.get(key),
        }
    }

    /// Walks from `self` along the characters of `input` and returns the
    /// entry reached: a mode while the input is a valid prefix, an action on
    /// an exact match, nothing once a key is unbound or an action is passed.
    pub fn resolve(&self, input: &str) -> (r: Option<&KeymapEntry>)
        ensures
            match r {
                Some(entry) => self.spec_resolve(input@) == Some(*entry),
                None => self.spec_resolve(input@) is None,
            },
    {
        let mut at: Option<&KeymapEntry> = Some(self);
        let ghost mut walked: Seq<char> = Seq::empty();
        for key in it: input.chars()
            invariant
                it.seq() == input@,
                walked == it.seq().take(it.index() as int),
                it.index() == it.seq().len() ==> walked =~= input@,
                match at {
                    Some(entry) => self.spec_resolve(walked) == Some(*entry),
                    None => self.spec_resolve(walked) is None,
                },
        {
            proof {
                assert(walked.push(key).drop_last() == walked);
                walked = walked.push(key);
            }
            at =
            match at {
                Some(entry) => entry.get(key),
                None => None,
            };
        }
        at
    }

    /// The hint list for `input`: where it selects a mode, one row for each
    /// child of that mode, in ascending key order; otherwise no rows.
    pub fn view_children(&self, input: &str) -> (rows: Vec<ChildRow>)
        ensures
            match self.spec_resolve(input@) {
                Some(KeymapEntry::Node { map, .. }) => lists(rows@, map),
                _ => rows@.len() == 0,
            },
    {
        match self.resolve(input) {
            Some(KeymapEntry::Node { map, .. }) => rows_of(map),
            _ => Vec::new(),
        }
    }
}

/// The hint list of `map`.
pub fn rows_of(map: &ChildMap) -> (listed: Vec<ChildRow>)
    ensures
        lists(listed@, *map),
{
    let n = map.len();
    let mut rows: Vec<ChildRow> = Vec::new();
    let mut i: usize = 0;
    while i < n
        invariant
            i <= n == map.bindings().len(),
            rows@.len() == i,
            forall|j: int|
                0 <= j < i ==> {
                    let row = #[trigger] rows@[j];
                    &&& row.key == map.bindings()[j].0
                    &&& map@.dom().contains(row.key)
                    &&& row.key_text@ == key_text_of(row.key)
                    &&& row.label@ == map@[row.key].label()
                    &&& row.is_branch == map@[row.key] is Node
                },
        decreases n - i,
    {
        let key = map.key_at(i);
        let child = map.child_at(i);
        let row = ChildRow {
            key,
            key_text: key_text(key),
            label: child.get_name(),
            is_branch: child.is_mode(),
        };
        let ghost before = rows@;
        assert(before.len() == i);
        rows.push(row);
        assert(rows@ == before.push(row));
        assert(before.push(row).len() == before.len() + 1);
        assert(rows@.len() == before.len() + 1);
        assert(rows@.len() == i + 1);
        i += 1;
    }
    proof {
        assert(row_keys(rows@) =~= map.keys());
        lemma_keys_are_domain(map.bindings());
    }
    rows
}

/// Resolving is a function of the tree and of the whole input: whatever two
/// calls of `resolve` on the same tree and input return, it is the same
/// entry.
pub proof fn lemma_resolve_is_deterministic(
    tree: &KeymapEntry,
    input: &str,
    first: Option<&KeymapEntry>,
    second: Option<&KeymapEntry>,
)
    requires
        call_ensures(KeymapEntry::resolve, (tree, input), first),
        call_ensures(KeymapEntry::resolve, (tree, input), second),
    ensures
        first == second,
{
}

/// The empty input selects the root itself.
pub proof fn lemma_resolve_empty(tree: KeymapEntry)
    ensures
        tree.spec_resolve(Seq::empty()) == Some(tree),
        tree.spec_resolve(""@) == Some(tree),
{
    reveal_strlit("");
}

/// Resolving folds `step` over the characters of the input, left to right,
/// from the root.
pub proof fn lemma_resolve_is_a_fold(tree: KeymapEntry, input: Seq<char>)
    ensures
        tree.spec_resolve(input) == input.fold_left(
            Some(tree),
            |at: Option<KeymapEntry>, key: char| KeymapEntry::step(at, key),
        ),
    decreases input.len(),
{
    if input.len() > 0 {
        lemma_resolve_is_a_fold(tree, input.drop_last());
    }
}

/// One more character extends the walk by one step.
pub proof fn lemma_resolve_push(tree: KeymapEntry, input: Seq<char>, key: char)
    ensures
        tree.spec_resolve(input.push(key)) == KeymapEntry::step(tree.spec_resolve(input), key),
{
    assert(input.push(key).drop_last() == input);
}

/// An action has no children: once the input selects an action, every longer
/// input by one character selects nothing.
pub proof fn lemma_resolve_past_leaf(tree: KeymapEntry, input: Seq<char>, key: char)
    requires
        tree.spec_resolve(input) matches Some(entry) && entry is Leaf,
    ensures
        tree.spec_resolve(input.push(key)) is None,
{
    lemma_resolve_push(tree, input, key);
}

/// Dead ends stay dead: once the input selects nothing, every longer input
/// by one character selects nothing.
pub proof fn lemma_resolve_dead_end(tree: KeymapEntry, input: Seq<char>, key: char)
    requires
        tree.spec_resolve(input) is None,
    ensures
        tree.spec_resolve(input.push(key)) is None,
{
    lemma_resolve_push(tree, input, key);
}

/// No way back: once the input selects nothing, or selects an action and
/// goes on, whatever is typed after it selects nothing.
pub proof fn lemma_resolve_stays_dead(tree: KeymapEntry, input: Seq<char>, more: Seq<char>)
    requires
        match tree.spec_resolve(input) {
            None => true,
            Some(entry) => entry is Leaf && more.len() > 0,
        },
    ensures
        tree.spec_resolve(input + more) is None,
    decreases more.len(),
{
    if more.len() == 0 {
        assert(input + more == input);
    } else {
        let shorter = more.drop_last();
        assert(input + more == (input + shorter).push(more.last()));
        lemma_resolve_push(tree, input + shorter, more.last());
        if shorter.len() == 0 {
            assert(input + shorter == input);
        } else {
            lemma_resolve_stays_dead(tree, input, shorter);
        }
    }
}

} // verus!
