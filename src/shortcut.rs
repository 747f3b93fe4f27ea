//! Global keyboard shortcuts: the one registered at start-up and the event
//! that announces a pressed shortcut to the frontend.

use vstd::prelude::*;

verus! {

/// The accelerator registered at start-up, which asks for a new native window.
pub const DEFAULT_SHORTCUT: &'static str = "CmdOrCtrl+Shift+N";

/// The event sent to the frontend, with the accelerator, when a registered
/// shortcut is pressed.
pub const SHORTCUT_EVENT: &'static str = "nyx:global-shortcut";

} // verus!
