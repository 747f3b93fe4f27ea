//! The applications the shell offers to launch.

use vstd::prelude::*;

verus! {

/// An application entry: its display name, the program to start, and an icon name.
#[derive(Debug)]
pub struct DesktopApp {
    pub name: String,
    pub path: String,
    pub icon: String,
}

impl DesktopApp {
    /// The entry holds exactly these three texts.
    pub open spec fn holds(&self, name: Seq<char>, path: Seq<char>, icon: Seq<char>) -> bool {
        &&& self.name@ == name
        &&& self.path@ == path
        &&& self.icon@ == icon
    }

    fn new(name: &str, path: &str, icon: &str) -> (r: DesktopApp)
        ensures
            r.holds(name@, path@, icon@),
    {
        DesktopApp { name: String::from_str(name), path: String::from_str(path), icon: String::from_str(icon) }
    }
}

/// The file manager program for the platform.
pub open spec fn file_manager_program(windows: bool) -> Seq<char> {
    if windows { "explorer.exe"@ } else { "nautilus"@ }
}

/// The terminal program for the platform.
pub open spec fn terminal_program(windows: bool) -> Seq<char> {
    if windows { "cmd.exe"@ } else { "gnome-terminal"@ }
}

/// The web browser program for the platform.
pub open spec fn browser_program(windows: bool) -> Seq<char> {
    if windows { "msedge.exe"@ } else { "firefox"@ }
}

/// The fixed list of desktop applications: a file manager, a terminal and a
/// web browser, in that order, each naming the program usual on Windows when
/// `windows` holds and the usual Linux desktop program otherwise.
pub fn desktop_apps(windows: bool) -> (r: Vec<DesktopApp>)
    ensures
        r.len() == 3,
        r[0].holds("File Manager"@, file_manager_program(windows), "folder"@),
        r[1].holds("Terminal"@, terminal_program(windows), "terminal"@),
        r[2].holds("Web Browser"@, browser_program(windows), "globe"@),
{
    let file_manager = if windows { "explorer.exe" } else { "nautilus" };
    let terminal = if windows { "cmd.exe" } else { "gnome-terminal" };
    let browser = if windows { "msedge.exe" } else { "firefox" };
    let mut apps: Vec<DesktopApp> = Vec::new();
    apps.push(DesktopApp::new("File Manager", file_manager, "folder"));
    apps.push(DesktopApp::new("Terminal", terminal, "terminal"));
    apps.push(DesktopApp::new("Web Browser", browser, "globe"));
    apps
}

} // verus!
