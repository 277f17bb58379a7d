use glazewm::commands::toggle_desktop::{
    begin_hide, covering_windows, create_animation, desktop_shown, finish_restore, restore_desktop,
    show_preview_ready, tick_desktop_animation, toggle_desktop, DesktopMotion, DesktopTick,
    DesktopToggleOptions, DesktopWindow, HideNext, HideStart, Hiding, Preview, PreviewWindow,
    RestoreOutcome, RestoreResult, ToggleStart, FULLY_VISIBLE,
};
use glazewm::commands::toggle_pause::{toggle_pause, PauseAction, PauseWindow};
use glazewm::geometry::Rect;
use glazewm::model::{CornerStyle, FloatingStateConfig, SyncError, WindowState};
use glazewm::state::WmState;
use glazewm::sync::effects::{Color, WindowEffectConfig, WindowEffectsConfig};

const OPTIONS: DesktopToggleOptions =
    DesktopToggleOptions { enabled: true, show_duration_ms: 200, hide_duration_ms: 200 };

const MILLI: u64 = 1_000_000;

/// A linear easing.
fn eased(motion: &DesktopMotion, now: u64) -> u32 {
    let progress = motion.progress(now);
    (u128::from(FULLY_VISIBLE) * u128::from(progress.elapsed) / u128::from(progress.duration))
        as u32
}

fn sample(motion: &DesktopMotion, now: u64) -> u32 {
    motion.sample(now, eased(motion, now))
}

#[test]
fn reversing_mid_flight_preserves_current_visibility_and_finishes() {
    let now = 5_000 * MILLI;
    let mut motion = DesktopMotion::new(false, OPTIONS, now);
    let midway = now + 100 * MILLI;
    let before = sample(&motion, midway);
    assert!(before > 0 && before < FULLY_VISIBLE);
    motion.reverse(midway, eased(&motion, midway));
    assert_eq!(sample(&motion, midway), before);
    assert_eq!(sample(&motion, midway + 1_000 * MILLI), FULLY_VISIBLE);
    let later = midway + 30 * MILLI;
    motion.reverse(later, eased(&motion, later));
    assert_eq!(sample(&motion, midway + 1_000 * MILLI), 0);
}

#[test]
fn zero_duration_reaches_endpoint_without_nan() {
    let now = 7;
    let options = DesktopToggleOptions { hide_duration_ms: 0, show_duration_ms: 0, ..OPTIONS };
    assert_eq!(sample(&DesktopMotion::new(false, options, now), now), 0);
    assert_eq!(sample(&DesktopMotion::new(true, options, now), now), FULLY_VISIBLE);
}

#[test]
fn a_reversed_motion_takes_as_long_as_its_way_back() {
    let mut motion = DesktopMotion::new(false, OPTIONS, 0);
    motion.reverse(50 * MILLI, eased(&motion, 50 * MILLI));
    assert_eq!(motion.from, FULLY_VISIBLE / 4 * 3);
    assert_eq!(motion.to, FULLY_VISIBLE);
    assert_eq!(motion.duration, 50 * MILLI);
    assert_eq!(motion.sample(75 * MILLI, FULLY_VISIBLE / 2), FULLY_VISIBLE / 8 * 7);
    assert_eq!(motion.sample(75 * MILLI, u32::MAX), FULLY_VISIBLE);
}

fn window(handle: isize, state: WindowState, workspace_displayed: bool) -> DesktopWindow {
    DesktopWindow { handle, state, workspace_displayed }
}

fn floating() -> WindowState {
    WindowState::Floating(FloatingStateConfig { centered: true, shown_on_top: false })
}

#[test]
fn only_windows_on_screen_cover_the_desktop() {
    let windows = vec![
        window(1, WindowState::Tiling, true),
        window(2, WindowState::Minimized, true),
        window(3, WindowState::Tiling, false),
        window(4, floating(), true),
    ];
    assert_eq!(covering_windows(&windows), vec![1, 4]);
}

#[test]
fn previews_use_the_opacity_of_their_window() {
    let config = WindowEffectConfig {
        border_enabled: false,
        border_color: Color { r: 0, g: 0, b: 0, a: 0 },
        hide_title_bar_enabled: false,
        corner_style_enabled: false,
        corner_style: CornerStyle::Default,
        transparency_enabled: true,
        opacity: 200,
    };
    let effects = WindowEffectsConfig {
        focused_window: config,
        other_windows: WindowEffectConfig { transparency_enabled: false, ..config },
    };
    let monitor = Rect::from_xy(0, 0, 100, 100);
    let windows = vec![
        PreviewWindow {
            window: window(1, WindowState::Tiling, true),
            has_focus: true,
            monitor: Some(monitor),
        },
        PreviewWindow {
            window: window(2, WindowState::Tiling, true),
            has_focus: false,
            monitor: Some(monitor),
        },
        PreviewWindow {
            window: window(3, WindowState::Tiling, true),
            has_focus: false,
            monitor: None,
        },
    ];
    assert_eq!(
        create_animation(&windows, &effects, true),
        vec![
            Preview { handle: 1, viewport: monitor, opacity: 200, incoming: true },
            Preview { handle: 2, viewport: monitor, opacity: 255, incoming: true },
        ]
    );
}

#[test]
fn hiding_is_undone_when_a_window_refuses() {
    let (mut hiding, first) = Hiding::begin(vec![11, 12, 13]);
    assert_eq!(first, 11);
    assert!(matches!(hiding.cloaked(true), HideNext::Cloak(12)));
    assert!(matches!(hiding.cloaked(true), HideNext::Cloak(13)));
    match hiding.cloaked(false) {
        HideNext::RollBack(windows) => assert_eq!(windows, vec![11, 12]),
        _ => panic!("expected a rollback"),
    }
    let (mut hiding, _) = Hiding::begin(vec![11]);
    assert!(matches!(hiding.cloaked(true), HideNext::Hidden));
}

#[test]
fn toggling_hides_and_brings_back() {
    let mut state = WmState::new(1);
    let instant = DesktopToggleOptions { enabled: false, ..OPTIONS };
    assert_eq!(toggle_desktop(&mut state, instant, 0, 0), ToggleStart::Hide);
    assert_eq!(begin_hide(&vec![], instant), HideStart::Nothing);
    assert_eq!(begin_hide(&vec![5], instant), HideStart::Cloak);
    assert_eq!(begin_hide(&vec![5], OPTIONS), HideStart::CreateHidePreview);
    state.focus_outline = true;
    state.resize_cursor_clip = true;
    assert!(!desktop_shown(&mut state, vec![5, 6], instant, false, 0));
    assert_eq!(state.desktop_windows, Some(vec![5, 6]));
    assert!(!state.focus_outline && !state.resize_cursor_clip);
    assert_eq!(toggle_desktop(&mut state, instant, 0, 0), ToggleStart::Restore);

    // A window that cannot be brought back stays on record.
    assert_eq!(restore_desktop(&mut state), Some(vec![5, 6]));
    let outcomes = vec![
        RestoreOutcome { handle: 5, result: RestoreResult::Failed },
        RestoreOutcome { handle: 6, result: RestoreResult::Gone },
    ];
    assert_eq!(finish_restore(&mut state, &outcomes), Err(SyncError::Native));
    assert_eq!(state.desktop_windows, Some(vec![5]));
    assert!(!state.pending_sync.has_changes());

    assert_eq!(restore_desktop(&mut state), Some(vec![5]));
    let outcomes = vec![RestoreOutcome { handle: 5, result: RestoreResult::Uncloaked }];
    assert_eq!(finish_restore(&mut state, &outcomes), Ok(()));
    assert_eq!(state.desktop_windows, None);
    assert_eq!(state.pending_sync.containers_to_redraw, vec![1]);
    assert!(state.pending_sync.needs_focus_update);
    assert!(state.pending_sync.needs_all_effects_update);
    assert!(state.pending_sync.animations_suppressed);
}

#[test]
fn the_animation_ends_by_restoring_or_stays_hidden() {
    let mut state = WmState::new(1);
    assert_eq!(tick_desktop_animation(&mut state, 0), DesktopTick::Idle);
    assert!(desktop_shown(&mut state, vec![5], OPTIONS, true, 10 * MILLI));
    assert_eq!(tick_desktop_animation(&mut state, 209 * MILLI), DesktopTick::Running);
    assert_eq!(tick_desktop_animation(&mut state, 210 * MILLI), DesktopTick::Ended);
    assert!(state.desktop_animation.is_none());

    assert_eq!(toggle_desktop(&mut state, OPTIONS, 0, 0), ToggleStart::CreateShowPreview);
    assert!(!show_preview_ready(&mut state, OPTIONS, false, 0));
    assert!(state.desktop_animation.is_none());
    assert!(show_preview_ready(&mut state, OPTIONS, true, 300 * MILLI));
    assert_eq!(tick_desktop_animation(&mut state, 500 * MILLI), DesktopTick::Restore);

    // Toggling in mid-flight turns around.
    assert_eq!(
        toggle_desktop(&mut state, OPTIONS, 400 * MILLI, FULLY_VISIBLE / 2),
        ToggleStart::Reversed
    );
    let motion = state.desktop_animation.unwrap();
    assert_eq!((motion.from, motion.to), (FULLY_VISIBLE / 2, 0));
    assert_eq!(motion.duration, 100 * MILLI);
}

#[test]
fn shutdown_invalidates_delayed_border_updates() {
    let mut state = WmState::new(1);
    let before = state.border_effect_generation;
    state.invalidate_borders();
    assert_ne!(state.border_effect_generation, before);
}

#[test]
fn pause_invalidates_delayed_borders_and_resume_restores_effects() {
    let mut state = WmState::new(1);
    state.focus_outline = true;
    let previous_generation = state.border_effect_generation;
    toggle_pause(&mut state, &vec![]);
    assert!(state.is_paused);
    assert!(!state.focus_outline);
    assert_ne!(state.border_effect_generation, previous_generation);
    toggle_pause(&mut state, &vec![]);
    assert!(!state.is_paused);
    assert!(state.pending_sync.needs_all_effects_update);
    assert!(state.pending_sync.animations_suppressed);
}

#[test]
fn pausing_releases_every_window() {
    let mut state = WmState::new(1);
    state.pending_sync.needs_focus_update = true;
    state.window_target_positions.insert(7, Rect::from_xy(0, 0, 1, 1));
    let windows = vec![
        PauseWindow { id: 7, workspace_displayed: true },
        PauseWindow { id: 8, workspace_displayed: false },
    ];
    assert_eq!(
        toggle_pause(&mut state, &windows),
        vec![
            PauseAction::FinishAnimations,
            PauseAction::ClearDrag(7),
            PauseAction::Uncloak(7),
            PauseAction::ClearDrag(8),
            PauseAction::ClearBorder(7),
            PauseAction::ClearBorder(8),
            PauseAction::EmitPauseChanged(true),
        ]
    );
    assert!(!state.pending_sync.has_changes());
    assert!(state.window_target_positions.is_empty());
    assert_eq!(toggle_pause(&mut state, &windows), vec![PauseAction::EmitPauseChanged(false)]);
    assert_eq!(state.pending_sync.containers_to_redraw, vec![1]);
}
