use glazewm::ipc_server::WmEvent;
use glazewm::startup::{
    after_action, continuous_bindings, login_shell, loop_action, mouse_events, must_kill_watcher,
    queried_path, shutdown_steps, wm_event_actions, LoopAction, LoopEvent, LoopNext,
    MouseEventKind, ShutdownStep, WatcherExit, WmEventAction,
};
use glazewm::sys_tray::{
    active_label, decode_icon, icon_input, invalid_event_message, load_icon, make_icon, IconImage,
    InvalidConfigPath, InvalidIcon, InvokeCommand, KeybindingConfig, MenuEntry, SystemTray,
    TrayAction, TrayMenuId,
};
use glazewm::text::{equals_ignoring_ascii_case, join, same_text};

const IDS: [TrayMenuId; 6] = [
    TrayMenuId::ToggleActive,
    TrayMenuId::ReloadConfig,
    TrayMenuId::ShowConfigFolder,
    TrayMenuId::ToggleWindowAnimations,
    TrayMenuId::RunOnStartup,
    TrayMenuId::Exit,
];

#[test]
fn menu_names_lead_back_to_their_entries() {
    let names = [
        "toggle_active",
        "reload_config",
        "show_config_folder",
        "toggle_window_animations",
        "run_on_startup",
        "exit",
    ];
    for (id, name) in IDS.into_iter().zip(names) {
        assert_eq!(id.as_str(), name);
        assert_eq!(TrayMenuId::from_name(name), Ok(id));
    }
    for event in ["Exit", " exit", ""] {
        let error = TrayMenuId::from_name(event).unwrap_err();
        assert_eq!(error.message, format!("Invalid tray menu event: {event}"));
    }
    assert_eq!(invalid_event_message("Exit"), "Invalid tray menu event: Exit");
}

#[test]
fn the_menu_shows_its_settings() {
    let entries = SystemTray::new(None, Some(true)).create_tray_menu();
    assert_eq!(entries.len(), 8);
    assert_eq!(entries[0], MenuEntry::Check { id: TrayMenuId::ToggleActive, checked: true });
    assert_eq!(entries[1], MenuEntry::Separator);
    assert_eq!(
        entries[4],
        MenuEntry::Check { id: TrayMenuId::ToggleWindowAnimations, checked: false }
    );
    assert_eq!(entries[5], MenuEntry::Check { id: TrayMenuId::RunOnStartup, checked: true });
    assert_eq!(entries[7], MenuEntry::Item(TrayMenuId::Exit));
    let labels: Vec<_> = IDS.iter().map(|id| id.label_text()).collect();
    assert_eq!(
        labels,
        vec![
            "Active",
            "Reload config",
            "Show config folder",
            "Window animations",
            "Run on system startup",
            "Exit",
        ]
    );
}

#[test]
fn menu_entries_do_what_they_say() {
    let mut state = SystemTray::new(Some(true), Some(false));
    let run = |id| state.handle_menu_event(id, true).unwrap();
    assert_eq!(run(TrayMenuId::ToggleActive), TrayAction::Run(InvokeCommand::WmTogglePause));
    assert_eq!(run(TrayMenuId::ReloadConfig), TrayAction::Run(InvokeCommand::WmReloadConfig));
    assert_eq!(run(TrayMenuId::ShowConfigFolder), TrayAction::OpenConfigFolder);
    assert_eq!(run(TrayMenuId::ToggleWindowAnimations), TrayAction::SetWindowAnimations(false));
    assert_eq!(run(TrayMenuId::RunOnStartup), TrayAction::SetRunOnStartup(true));
    assert_eq!(run(TrayMenuId::Exit), TrayAction::Exit);
    assert_eq!(
        state.handle_menu_event(TrayMenuId::ShowConfigFolder, false),
        Err(InvalidConfigPath)
    );
    state.carried_out(TrayAction::SetWindowAnimations(false), false);
    assert!(state.animations_enabled);
    state.carried_out(TrayAction::SetWindowAnimations(false), true);
    assert!(!state.animations_enabled);
    state.carried_out(TrayAction::SetRunOnStartup(true), true);
    assert!(state.run_on_startup_enabled);
    state.set_active(false);
    assert!(!state.active);
}

fn texts(list: &[&str]) -> Vec<String> {
    list.iter().map(|text| text.to_string()).collect()
}

#[test]
fn the_pause_shortcuts_are_shown_once_each() {
    let keybindings = vec![
        KeybindingConfig {
            commands: vec![InvokeCommand::Other],
            bindings: vec![texts(&["alt", "q"])],
        },
        KeybindingConfig {
            commands: vec![InvokeCommand::Other, InvokeCommand::WmTogglePause],
            bindings: vec![texts(&["alt", "shift", "p"]), texts(&["lwin", "ß"])],
        },
        KeybindingConfig {
            commands: vec![InvokeCommand::WmTogglePause],
            bindings: vec![texts(&["Alt", "Shift", "P"])],
        },
    ];
    let mut tray = SystemTray::new(None, None);
    assert_eq!(tray.active_label, "Active");
    tray.update_active_shortcuts(&keybindings);
    assert_eq!(tray.active_label, "Active\tALT+SHIFT+P, LWIN+SS");
    tray.update_active_shortcuts(&vec![]);
    assert_eq!(tray.active_label, "Active");
    assert_eq!(active_label(&texts(&["A", "B", "A"])), "Active\tA, B");
}

/// A picture of two pixels, a red and a half transparent green one.
const PICTURE: [u8; 77] = [
    137, 80, 78, 71, 13, 10, 26, 10, 0, 0, 0, 13, 73, 72, 68, 82, 0, 0, 0, 2, 0, 0, 0, 1, 8, 6,
    0, 0, 0, 244, 34, 127, 138, 0, 0, 0, 20, 73, 68, 65, 84, 120, 1, 1, 9, 0, 246, 255, 0, 255,
    0, 0, 255, 0, 255, 0, 128, 16, 121, 3, 126, 54, 160, 104, 96, 0, 0, 0, 0, 73, 69, 78, 68,
    174, 66, 96, 130,
];

#[test]
fn the_icon_is_decoded_to_pixels() {
    let image = decode_icon(&PICTURE).unwrap();
    assert_eq!((image.width, image.height), (2, 1));
    assert_eq!(image.rgba, vec![255, 0, 0, 255, 0, 255, 0, 128]);
    assert!(make_icon(image).is_ok());
    let icon: tray_icon::Icon = load_icon(&PICTURE).unwrap().into_icon();
    drop(icon);
}

#[test]
fn bytes_that_hold_no_picture_are_refused() {
    for bytes in [&[1, 2, 3][..], &[], &PICTURE[..40]] {
        assert_eq!(decode_icon(bytes).err(), Some(InvalidIcon::NotAnImage));
        assert_eq!(load_icon(bytes).err(), Some(InvalidIcon::NotAnImage));
    }
}

#[test]
fn icons_are_made_of_the_pixels_of_an_image() {
    let image = IconImage { rgba: vec![1, 2, 3, 4], width: 1, height: 1 };
    assert_eq!(icon_input(image), Ok((vec![1, 2, 3, 4], 1, 1)));
    let image = IconImage { rgba: vec![5], width: u32::MAX, height: 1 };
    assert_eq!(icon_input(image), Ok((vec![5], u32::MAX, 1)));
    let image = IconImage { rgba: vec![], width: 1 << 16, height: 1 << 16 };
    assert_eq!(icon_input(image), Err(InvalidIcon::BadIcon));
}

#[test]
fn only_pictures_of_the_expected_format_are_decoded() {
    // A bitmap of one pixel that is text.
    assert_eq!(decode_icon(b"P1 1 1 0").err(), Some(InvalidIcon::NotAnImage));
}

#[test]
fn pixels_that_do_not_match_the_size_make_no_icon() {
    for (count, width, height) in [(7, 2, 1), (8, 1, 1), (8, 3, 1), (0, 1 << 16, 1 << 16)] {
        let image = IconImage { rgba: vec![0; count], width, height };
        assert_eq!(make_icon(image).err(), Some(InvalidIcon::BadIcon));
    }
}

#[test]
fn events_lead_to_actions() {
    for event in [LoopEvent::Interrupt, LoopEvent::WmExit, LoopEvent::TrayExit] {
        assert_eq!(loop_action(event), LoopAction::Exit);
    }
    for event in
        [LoopEvent::Mouse, LoopEvent::Window, LoopEvent::DisplaySettings, LoopEvent::Keybinding]
    {
        assert_eq!(loop_action(event), LoopAction::ProcessPlatformEvent);
    }
    for (event, action) in [
        (LoopEvent::AnimationTick, LoopAction::UpdateAnimations),
        (LoopEvent::ResizeTick { binding_held: true }, LoopAction::ProcessHeldResize),
        (LoopEvent::ResizeTick { binding_held: false }, LoopAction::Nothing),
        (LoopEvent::SafeAreaTick, LoopAction::RefreshWorkingAreas),
        (LoopEvent::CleanupTick { is_paused: true }, LoopAction::Nothing),
        (LoopEvent::CleanupTick { is_paused: false }, LoopAction::CleanupInvalidWindows),
        (LoopEvent::IpcMessage, LoopAction::ProcessIpcMessage),
        (LoopEvent::WmEvent, LoopAction::ProcessWmEvent),
        (LoopEvent::TrayCommand, LoopAction::RunTrayCommand),
    ] {
        assert_eq!(loop_action(event), action);
    }
}

#[test]
fn failures_do_not_end_the_loop() {
    let failure = || Err("broken".to_string());
    for action in [
        LoopAction::UpdateAnimations,
        LoopAction::ProcessPlatformEvent,
        LoopAction::ProcessHeldResize,
        LoopAction::RefreshWorkingAreas,
        LoopAction::CleanupInvalidWindows,
        LoopAction::RunTrayCommand,
        LoopAction::Nothing,
    ] {
        assert!(matches!(after_action(action, Ok(())), LoopNext::Continue));
        let LoopNext::ShowError { title, message } = after_action(action, failure()) else {
            panic!("Missing error")
        };
        assert_eq!((title, message.as_str()), ("Non-fatal error", "broken"));
    }
    let next = after_action(LoopAction::ProcessIpcMessage, failure());
    assert!(matches!(next, LoopNext::Log(message) if message == "broken"));
    let next = after_action(LoopAction::ProcessWmEvent, failure());
    assert!(matches!(next, LoopNext::Fail(message) if message == "broken"));
    assert!(matches!(after_action(LoopAction::ProcessWmEvent, Ok(())), LoopNext::Continue));
    assert!(matches!(after_action(LoopAction::ProcessIpcMessage, Ok(())), LoopNext::Continue));
    assert!(matches!(after_action(LoopAction::Exit, Ok(())), LoopNext::Leave));
    assert!(matches!(after_action(LoopAction::Exit, failure()), LoopNext::Leave));
}

#[test]
fn pauses_and_config_changes_update_the_listeners() {
    let bindings = [
        WmEventAction::UpdateTrayShortcuts,
        WmEventAction::UpdateKeybindings,
        WmEventAction::UpdateContinuousBindings,
        WmEventAction::UpdateMouseEvents,
        WmEventAction::Broadcast,
    ];
    assert_eq!(wm_event_actions(WmEvent::UserConfigChanged), bindings.to_vec());
    assert_eq!(wm_event_actions(WmEvent::BindingModesChanged), bindings.to_vec());
    let paused = wm_event_actions(WmEvent::PauseChanged { is_paused: true });
    assert_eq!(paused[0], WmEventAction::EnableMouseListener(false));
    assert_eq!(paused[1], WmEventAction::SetTrayActive(false));
    assert_eq!(paused[2..], bindings);
    assert_eq!(wm_event_actions(WmEvent::FocusChanged), vec![WmEventAction::Broadcast]);
    assert_eq!(mouse_events(true), vec![MouseEventKind::Move, MouseEventKind::LeftButtonUp]);
    assert_eq!(mouse_events(false), vec![MouseEventKind::LeftButtonUp]);
}

#[test]
fn only_resize_bindings_are_continuous() {
    let keybindings = vec![
        KeybindingConfig { commands: vec![], bindings: vec![] },
        KeybindingConfig { commands: vec![InvokeCommand::Resize], bindings: vec![] },
        KeybindingConfig {
            commands: vec![InvokeCommand::Resize, InvokeCommand::Other],
            bindings: vec![],
        },
        KeybindingConfig {
            commands: vec![InvokeCommand::Resize, InvokeCommand::Resize],
            bindings: vec![],
        },
    ];
    let modes = texts(&["other", "resize"]);
    assert_eq!(continuous_bindings(false, &modes, &keybindings), vec![1, 3]);
    assert!(continuous_bindings(true, &modes, &keybindings).is_empty());
    assert!(continuous_bindings(false, &texts(&["Resize"]), &keybindings).is_empty());
}

#[test]
fn the_shutdown_waits_for_the_watcher_last() {
    let steps = shutdown_steps(true);
    assert_eq!(steps.len(), 9);
    assert_eq!(steps[0], ShutdownStep::CleanUpWm);
    assert_eq!(steps[6], ShutdownStep::DropTray);
    assert_eq!(steps[7], ShutdownStep::StopIpcServer);
    assert_eq!(steps[8], ShutdownStep::AwaitWatcher);
    assert_eq!(shutdown_steps(false), steps[..8].to_vec());
    assert!(!must_kill_watcher(WatcherExit::Exited));
    assert!(must_kill_watcher(WatcherExit::Failed));
    assert!(must_kill_watcher(WatcherExit::TimedOut));
}

#[test]
fn the_search_path_is_taken_only_if_the_shell_printed_one() {
    assert_eq!(login_shell(None), "/bin/zsh");
    assert_eq!(login_shell(Some("/bin/sh".to_string())), "/bin/sh");
    assert_eq!(queried_path(true, b"/bin".to_vec()), Some("/bin".to_string()));
    assert_eq!(queried_path(true, vec![]), None);
    assert_eq!(queried_path(true, vec![0x2f, 0xff]), None);
    assert_eq!(queried_path(false, b"/bin".to_vec()), None);
}

#[test]
fn texts_are_compared_and_joined() {
    assert!(equals_ignoring_ascii_case("Azß", "aZß"));
    assert!(!equals_ignoring_ascii_case("Ä", "ä"));
    assert!(!equals_ignoring_ascii_case("[", "{"));
    assert!(!equals_ignoring_ascii_case("ab", "abc"));
    assert!(same_text("ä", "ä"));
    assert!(!same_text("a", "A"));
    assert_eq!(join(&texts(&["a", "b", "c"]), ", "), "a, b, c");
    assert_eq!(join(&texts(&[]), ", "), "");
    assert_eq!(join(&texts(&["a"]), ", "), "a");
}
