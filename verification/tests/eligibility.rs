use glazewm::commands::minimize_ended::{
    handle_window_minimize_ended, rejoin_tiling, MinimizableWindow,
};
use glazewm::commands::window_eligibility::{
    classify, is_run_dialog_title, is_unmanaged_system_process, is_unmanaged_system_window,
    unmanaged_window_reason, NativeWindow,
};
use glazewm::model::{FloatingStateConfig, WindowState};
use glazewm::models::container::ContainerKind;
use glazewm::models::tree::ContainerTree;
use glazewm::state::WmState;

#[test]
fn excludes_capture_tools_without_excluding_shared_app_hosts() {
    for process in
        ["SnippingTool", "snippingtool", "ScreenClippingHost", "ScreenSketch", "TASKMGR", "RegEdit"]
    {
        assert!(is_unmanaged_system_process(process), "{process}");
    }
    for process in ["ApplicationFrameHost", "explorer", "mspaint", "notepad"] {
        assert!(!is_unmanaged_system_process(process), "{process}");
    }
}

#[test]
fn run_dialog_titles_do_not_match_other_explorer_dialogs() {
    assert!(is_run_dialog_title("Run"));
    assert!(is_run_dialog_title("Выполнить"));
    assert!(!is_run_dialog_title("Properties"));
    assert!(!is_run_dialog_title("Open"));
}

#[test]
fn owned_windows_are_auxiliary_even_when_resizable_or_app_windows() {
    // A recorder window has a caption and owner, but no tool style.
    assert_eq!(classify(true, false, false, false, false), Some("owned auxiliary window"));
}

#[test]
fn independent_windows_in_the_same_process_remain_manageable() {
    assert_eq!(classify(false, false, false, false, false), None);
}

#[test]
fn temporary_auxiliary_can_become_a_main_window() {
    assert!(classify(true, false, false, false, false).is_some());
    assert!(classify(false, false, false, false, false).is_none());
}

#[test]
fn native_exclusions_and_launcher_exception_are_preserved() {
    assert_eq!(classify(false, true, false, false, false), Some("child window"));
    assert_eq!(classify(false, false, true, false, false), Some("tool window"));
    assert_eq!(classify(false, false, false, true, false), Some("non-activating window"));
    assert_eq!(classify(true, false, true, false, true), None);
}

fn native(process: &str, class: &str, title: &str) -> NativeWindow {
    NativeWindow {
        process_name: Some(process.to_string()),
        class_name: Some(class.to_string()),
        title: Some(title.to_string()),
        owned: false,
        child: false,
        tool: false,
        no_activate: false,
    }
}

#[test]
fn only_the_run_dialog_of_the_shell_is_a_system_window() {
    assert!(is_unmanaged_system_window(&native("Explorer", "#32770", "RUN")));
    assert!(is_unmanaged_system_window(&native("explorer", "#32770", "Выполнить")));
    assert!(!is_unmanaged_system_window(&native("explorer", "#32770", "Properties")));
    assert!(!is_unmanaged_system_window(&native("explorer", "CabinetWClass", "Run")));
    assert!(!is_unmanaged_system_window(&native("notepad", "#32770", "Run")));
    let mut nameless = native("explorer", "#32770", "Run");
    nameless.process_name = None;
    assert!(!is_unmanaged_system_window(&nameless));
    let mut untitled = native("explorer", "#32770", "Run");
    untitled.title = None;
    assert!(!is_unmanaged_system_window(&untitled));
}

#[test]
fn reasons_name_the_first_exclusion_that_holds() {
    assert_eq!(unmanaged_window_reason(&native("regedit", "", "")), Some("system utility"));
    assert_eq!(unmanaged_window_reason(&native("notepad", "", "")), None);
    let mut launcher = native("Flow.Launcher", "", "Flow.Launcher");
    launcher.tool = true;
    assert_eq!(unmanaged_window_reason(&launcher), None);
    launcher.title = Some("Settings".to_string());
    assert_eq!(unmanaged_window_reason(&launcher), Some("tool window"));
    launcher.owned = true;
    assert_eq!(unmanaged_window_reason(&launcher), Some("owned auxiliary window"));
    launcher.child = true;
    assert_eq!(unmanaged_window_reason(&launcher), Some("child window"));
}

#[test]
fn restored_floating_window_rejoins_tiling_and_duplicate_event_is_safe() {
    let mut tree = ContainerTree::new();
    let root = tree.create(ContainerKind::Root, 1);
    let monitor = tree.create(ContainerKind::Monitor, 2);
    let workspace = tree.create(ContainerKind::Workspace, 3);
    let mut container = tree.create(ContainerKind::NonTilingWindow, 4);
    let floating = container.downgrade();
    tree.attach(&container, &workspace).unwrap();
    tree.attach(&workspace, &monitor).unwrap();
    tree.attach(&monitor, &root).unwrap();
    let mut state = WmState::new(root.id());
    let mut window = MinimizableWindow { state: WindowState::Minimized, is_minimized: true };
    for _ in 0..2 {
        if let Some(new_state) = handle_window_minimize_ended(&mut window, Some(false)) {
            window.state = new_state;
            container = rejoin_tiling(&mut tree, &mut state, container, &workspace);
        }
        assert_eq!(window.state, WindowState::Tiling);
        assert!(!window.is_minimized);
        assert_eq!(container.id(), 4);
        assert_eq!(container.kind(), ContainerKind::TilingWindow);
        assert_eq!(tree.tiling_children(&workspace), vec![4]);
        assert_eq!(tree.child_count(&workspace), 1);
        // The window is found from the root, and the container that it was is gone.
        let above: Vec<_> = tree.ancestors(&container).iter().map(|link| link.id()).collect();
        assert_eq!(above, vec![3, 2, 1]);
        assert!(floating.upgrade(&mut tree).is_none());
    }
    assert!(state.pending_sync.has_changes());
    assert_eq!(state.pending_sync.containers_to_redraw, vec![4]);
}

#[test]
fn a_window_that_is_still_minimized_stays_so() {
    let mut window = MinimizableWindow { state: WindowState::Minimized, is_minimized: false };
    assert_eq!(handle_window_minimize_ended(&mut window, Some(true)), None);
    assert!(window.is_minimized);
    window.is_minimized = false;
    assert_eq!(handle_window_minimize_ended(&mut window, None), None);
    assert!(!window.is_minimized);
    let floating =
        WindowState::Floating(FloatingStateConfig { centered: false, shown_on_top: false });
    let mut window = MinimizableWindow { state: floating, is_minimized: true };
    assert_eq!(handle_window_minimize_ended(&mut window, Some(false)), None);
    assert_eq!(window.state, floating);
}
