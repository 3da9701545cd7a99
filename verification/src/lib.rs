//! A single-key shortcut launcher engine.
//!
//! The user types a short sequence of characters; each character narrows the
//! selection through a tree of named modes until a leaf action is reached.
//! This crate holds the keymap tree, the character-by-character dispatch over
//! it, and the decisions taken while an action runs. Rendering, keyboard
//! capture and process creation belong to the host program.

pub mod child_map;
pub mod dispatch;
pub mod i3;
pub mod keymap;
pub mod keymap_entry;
pub mod run;
pub mod state;
pub mod task;
pub mod text;
pub mod types;

pub use child_map::ChildMap;
pub use dispatch::dispatch_input;
pub use dispatch::dispatch_on_change;
pub use dispatch::Dispatch;
pub use keymap::get_keymap;
pub use keymap_entry::ChildRow;
pub use task::Filter;
pub use task::TaskMessage;
pub use task::TaskState;
pub use types::GoToOrLaunch;
pub use types::KeymapEntry;
pub use types::KeymapError;
pub use types::Launch;
pub use types::Leaf;
pub use types::State;
