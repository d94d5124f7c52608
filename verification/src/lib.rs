//! Hotkey-driven window placement.
//!
//! The library tracks the keys that are held, matches them against a table
//! of key combinations, and works out where the foreground window goes
//! when a combination fires: onto a half or a quadrant of its monitor,
//! onto a fixed rectangle, or onto the neighbouring monitor. It decides;
//! its owner talks to the platform.

use vstd::prelude::*;

pub mod cardinal;
pub mod error;
pub mod executor;
pub mod hotkey_action;
pub mod key_set;
pub mod keyboard;
pub mod monitor;
pub mod timeout_action;
pub mod ui;
pub mod virtual_key;
pub mod window_actions;

use crate::hotkey_action::{views, HotkeyAction, HotkeyActionView};

verus! {

/// The bindings that the program ships with: those that move a window
/// between monitors, followed by those that place it on its monitor.
pub open spec fn default_bindings() -> Seq<HotkeyActionView> {
    monitor::monitor_bindings() + window_actions::window_bindings()
}

/// Builds the list of the bindings that the program ships with.
pub fn create_actions() -> (actions: Vec<HotkeyAction>)
    ensures
        views(actions@) == default_bindings(),
{
    let mut actions = Vec::new();
    monitor::add_actions(&mut actions);
    window_actions::add_actions(&mut actions);
    assert(views(actions@) =~= default_bindings());
    actions
}

} // verus!
