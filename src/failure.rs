//! Failed commands and the text the frontend receives for each.

use vstd::prelude::*;

verus! {

/// Why a command failed. Variants that carry a text hold the host's own
/// description of the error.
#[derive(Debug)]
pub enum CommandFailure {
    /// The external program could not be started.
    Launch(String),
    /// The host refused to build a new native window.
    CreateWindow(String),
    /// The host refused to register a global shortcut.
    RegisterShortcut(String),
    /// The host refused to unregister a global shortcut.
    UnregisterShortcut(String),
    /// No window has the requested label.
    WindowNotFound,
    /// Any other host call failed; its description is passed on unchanged.
    Host(String),
}

/// The message of a failure: a fixed prefix followed by the host's description,
/// the bare description for a plain host failure, or a fixed sentence when the
/// window is missing.
pub open spec fn failure_text(f: CommandFailure) -> Seq<char> {
    match f {
        CommandFailure::Launch(d) => "Failed to launch app: "@ + d@,
        CommandFailure::CreateWindow(d) => "Failed to create window: "@ + d@,
        CommandFailure::RegisterShortcut(d) => "Failed to register shortcut: "@ + d@,
        CommandFailure::UnregisterShortcut(d) => "Failed to unregister shortcut: "@ + d@,
        CommandFailure::WindowNotFound => "Window not found"@,
        CommandFailure::Host(d) => d@,
    }
}

impl CommandFailure {
    /// The text handed back to the frontend for this failure.
    pub fn message(&self) -> (r: String)
        ensures
            r@ == failure_text(*self),
    {
        match self {
            CommandFailure::Launch(d) => String::from_str("Failed to launch app: ").concat(d.as_str()),
            CommandFailure::CreateWindow(d) => String::from_str("Failed to create window: ").concat(d.as_str()),
            CommandFailure::RegisterShortcut(d) => String::from_str("Failed to register shortcut: ").concat(d.as_str()),
            CommandFailure::UnregisterShortcut(d) => String::from_str("Failed to unregister shortcut: ").concat(d.as_str()),
            CommandFailure::WindowNotFound => String::from_str("Window not found"),
            CommandFailure::Host(d) => d.clone(),
        }
    }
}

} // verus!
