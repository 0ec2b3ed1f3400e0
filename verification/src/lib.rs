//! Input-layer core of the reader: page positions, stored page tables, key
//! bindings and chords, the key routing of every mode (overlays, pickers,
//! modal screens, vim surfaces), overlay search, the navigation scans, the
//! borrowed toast strip, and the navigation self-test's script and verdicts.

pub mod page_top;
pub mod text;
pub mod page_table;
pub mod overlay_search;
pub mod actions;
pub mod keymap_config;
pub mod keymap;
pub mod overlay_keys;
pub mod pickers;
pub mod modal_keys;
pub mod editor_keys;
pub mod navigation;
pub mod chapter_toast;
pub mod reader_actions;
pub mod final_spread;

use vstd::prelude::*;

verus! {

} // verus!
