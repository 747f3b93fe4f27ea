use nyx_os::apps::desktop_apps;
use nyx_os::failure::CommandFailure;
use nyx_os::perf::{get_performance_info, performance_info};
use nyx_os::shortcut::{DEFAULT_SHORTCUT, SHORTCUT_EVENT};
use nyx_os::system::{cpu_count, system_info};
use nyx_os::tray::{main_window_ops, tray_action, tray_menu, TrayAction, TrayEvent, TrayMenuEntry};
use nyx_os::window::{
    close_ops, focus_ops, native_window_plan, next_creation_step, next_step, CreationStage,
    CreationStep, Step, WindowOp, MAIN_WINDOW_LABEL,
    MAIN_WINDOW_TITLE,
};

fn triples(windows: bool) -> Vec<(String, String, String)> {
    desktop_apps(windows)
        .into_iter()
        .map(|a| (a.name, a.path, a.icon))
        .collect()
}

#[test]
fn desktop_apps_on_linux() {
    let apps = triples(false);
    assert_eq!(apps.len(), 3);
    assert_eq!(apps[0], ("File Manager".to_string(), "nautilus".to_string(), "folder".to_string()));
    assert_eq!(apps[1], ("Terminal".to_string(), "gnome-terminal".to_string(), "terminal".to_string()));
    assert_eq!(apps[2], ("Web Browser".to_string(), "firefox".to_string(), "globe".to_string()));
}

#[test]
fn desktop_apps_on_windows() {
    let apps = triples(true);
    assert_eq!(apps.len(), 3);
    assert_eq!(apps[0].1, "explorer.exe");
    assert_eq!(apps[1].1, "cmd.exe");
    assert_eq!(apps[2].1, "msedge.exe");
    assert_eq!(apps[2].0, "Web Browser");
}

#[test]
fn tray_menu_layout() {
    let menu = tray_menu();
    assert_eq!(menu.len(), 4);
    let expect = [("show", "Show NYX OS"), ("hide", "Hide NYX OS")];
    for (k, (id, title)) in expect.iter().enumerate() {
        match &menu[k] {
            TrayMenuEntry::Item { id: i, title: t } => {
                assert_eq!(i, id);
                assert_eq!(t, title);
            }
            TrayMenuEntry::Separator => panic!("expected an item at {}", k),
        }
    }
    assert!(matches!(menu[2], TrayMenuEntry::Separator));
    match &menu[3] {
        TrayMenuEntry::Item { id, title } => {
            assert_eq!(id, "quit");
            assert_eq!(title, "Quit NYX OS");
        }
        TrayMenuEntry::Separator => panic!("expected the quit item"),
    }
}

#[test]
fn tray_quit_item_quits() {
    let e = TrayEvent::MenuItemClick("quit".to_string());
    assert_eq!(tray_action(&e), TrayAction::Quit);
}

#[test]
fn tray_show_and_hide_items() {
    assert_eq!(tray_action(&TrayEvent::MenuItemClick("show".to_string())), TrayAction::ShowMain);
    assert_eq!(tray_action(&TrayEvent::MenuItemClick("hide".to_string())), TrayAction::HideMain);
    assert_eq!(tray_action(&TrayEvent::LeftClick), TrayAction::ShowMain);
}

#[test]
fn tray_unknown_ids_are_ignored() {
    for id in ["", "Quit", "exit", "quit ", "showx"] {
        let e = TrayEvent::MenuItemClick(id.to_string());
        assert_eq!(tray_action(&e), TrayAction::Ignore);
        assert!(main_window_ops(tray_action(&e)).is_empty());
    }
    assert_eq!(tray_action(&TrayEvent::Other), TrayAction::Ignore);
}

#[test]
fn tray_actions_on_main_window() {
    assert_eq!(main_window_ops(TrayAction::ShowMain), vec![WindowOp::Show, WindowOp::Focus]);
    assert_eq!(main_window_ops(TrayAction::HideMain), vec![WindowOp::Hide]);
    assert!(main_window_ops(TrayAction::Quit).is_empty());
}

#[test]
fn failure_messages() {
    let d = "boom".to_string();
    assert_eq!(CommandFailure::Launch(d.clone()).message(), "Failed to launch app: boom");
    assert_eq!(CommandFailure::CreateWindow(d.clone()).message(), "Failed to create window: boom");
    assert_eq!(CommandFailure::RegisterShortcut(d.clone()).message(), "Failed to register shortcut: boom");
    assert_eq!(CommandFailure::UnregisterShortcut(d.clone()).message(), "Failed to unregister shortcut: boom");
    assert_eq!(CommandFailure::WindowNotFound.message(), "Window not found");
    assert_eq!(CommandFailure::Host(d).message(), "boom");
}

#[test]
fn launch_failure_with_empty_description() {
    assert_eq!(CommandFailure::Launch(String::new()).message(), "Failed to launch app: ");
}

#[test]
fn step_missing_window() {
    let ops = focus_ops();
    match next_step(false, &ops, 0, None) {
        Step::Done(Err(f)) => assert_eq!(f.message(), "Window not found"),
        other => panic!("unexpected {:?}", other),
    }
}

#[test]
fn step_runs_ops_in_order_then_succeeds() {
    let ops = focus_ops();
    assert!(matches!(next_step(true, &ops, 0, None), Step::Perform(WindowOp::Show)));
    assert!(matches!(next_step(true, &ops, 1, None), Step::Perform(WindowOp::Focus)));
    assert!(matches!(next_step(true, &ops, 2, None), Step::Done(Ok(()))));
}

#[test]
fn step_stops_at_first_failure() {
    let ops = focus_ops();
    match next_step(true, &ops, 0, Some("no display".to_string())) {
        Step::Done(Err(f)) => assert_eq!(f.message(), "no display"),
        other => panic!("unexpected {:?}", other),
    }
}

#[test]
fn close_is_a_single_op() {
    let ops = close_ops();
    assert_eq!(ops, vec![WindowOp::Close]);
    assert!(matches!(next_step(true, &ops, 0, None), Step::Perform(WindowOp::Close)));
    assert!(matches!(next_step(true, &ops, 1, None), Step::Done(Ok(()))));
}

#[test]
fn native_window_plan_sizes_only_with_both() {
    let p = native_window_plan("w1".to_string(), "Files".to_string(), true, true);
    assert_eq!(p.label, "w1");
    assert_eq!(p.title, "Files");
    assert_eq!(p.page, "index.html");
    assert!(p.visible);
    assert!(p.sized);
    assert_eq!(p.created_event, "nyx:native-window-created");
    assert!(!native_window_plan("a".to_string(), "b".to_string(), true, false).sized);
    assert!(!native_window_plan("a".to_string(), "b".to_string(), false, true).sized);
    assert!(!native_window_plan("a".to_string(), "b".to_string(), false, false).sized);
}

#[test]
fn cpu_count_at_least_one() {
    assert_eq!(cpu_count(None), 1);
    assert_eq!(cpu_count(Some(0)), 1);
    assert_eq!(cpu_count(Some(8)), 8);
    assert_eq!(cpu_count(Some(usize::MAX)), usize::MAX);
}

#[test]
fn system_info_record() {
    let s = system_info("linux".to_string(), "x86_64".to_string(), None, "host".to_string());
    assert_eq!(s.platform, "linux");
    assert_eq!(s.arch, "x86_64");
    assert_eq!(s.cpu_count, 1);
    assert_eq!(s.hostname, "host");
    assert_eq!(system_info(String::new(), String::new(), Some(4), String::new()).cpu_count, 4);
}

#[test]
fn performance_record() {
    let p = performance_info(1_700_000_000);
    assert_eq!(p.memory_usage, "Unknown");
    assert_eq!(p.cpu_usage, "Unknown");
    assert_eq!(p.timestamp, 1_700_000_000);
}

#[test]
fn performance_record_now() {
    let p = get_performance_info();
    assert_eq!(p.memory_usage, "Unknown");
    assert_eq!(p.cpu_usage, "Unknown");
}

#[test]
fn fixed_names() {
    assert_eq!(MAIN_WINDOW_LABEL, "main");
    assert_eq!(MAIN_WINDOW_TITLE, "NYX OS");
    assert_eq!(DEFAULT_SHORTCUT, "CmdOrCtrl+Shift+N");
    assert_eq!(SHORTCUT_EVENT, "nyx:global-shortcut");
}

#[test]
fn system_info_of_this_machine() {
    let s = nyx_os::system::get_system_info("linux".to_string(), "x86_64".to_string(), Some(2));
    assert_eq!(s.platform, "linux");
    assert_eq!(s.arch, "x86_64");
    assert_eq!(s.cpu_count, 2);
}

#[test]
fn creation_builds_then_announces() {
    assert!(matches!(next_creation_step(0, None), CreationStep::Perform(CreationStage::Build)));
    assert!(matches!(next_creation_step(1, None), CreationStep::Perform(CreationStage::Announce)));
    assert!(matches!(next_creation_step(2, None), CreationStep::Done(Ok(()))));
}

#[test]
fn creation_build_failure_is_reported() {
    match next_creation_step(0, Some("no display".to_string())) {
        CreationStep::Done(Err(f)) => assert_eq!(f.message(), "Failed to create window: no display"),
        other => panic!("unexpected {:?}", other),
    }
}

#[test]
fn creation_announce_failure_is_passed_on() {
    match next_creation_step(1, Some("event loop closed".to_string())) {
        CreationStep::Done(Err(f)) => assert_eq!(f.message(), "event loop closed"),
        other => panic!("unexpected {:?}", other),
    }
}
