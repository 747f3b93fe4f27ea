//! Command logic of a desktop shell: the tray menu and its actions, the
//! fixed list of launchable applications, system and performance records,
//! window command sequencing, and the messages of failed commands.

pub mod apps;
pub mod failure;
pub mod window;
pub mod tray;
pub mod system;
pub mod perf;
pub mod shortcut;
