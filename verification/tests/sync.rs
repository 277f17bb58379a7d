use glazewm::geometry::{Point, Rect};
use glazewm::model::{
    CornerStyle, DisplayState, FloatingStateConfig, FullscreenStateConfig, HideCorner, HideMethod,
    SyncError, WindowState, WindowZOrder,
};
use glazewm::platform::window_flags::{
    DRAG_FLAGS, PREPOSITION_FLAGS, REPOSITION_FLAGS, SWP_FRAMECHANGED, WS_MAXIMIZEBOX,
};
use glazewm::state::WmState;
use glazewm::sync::effects::{
    apply_window_effects, due_border_color, update_effects, Color, EffectAction, EffectStep,
    WindowEffectConfig, WindowEffectsConfig,
};
use glazewm::sync::focus::{
    jump_cursor, sync_focus, CursorJumpTrigger, FocusAction, FocusFacts, JumpFacts, JumpMonitor,
};
use glazewm::sync::iris::{
    after_iris_overlay, before_iris_overlay, begin_iris_switch, iris_max_radius, IrisAction,
    IrisSwitchRequest,
};
use glazewm::sync::live_resize::{
    is_keyboard_resize, DragBrief, LivePosition, LiveResize, LiveStep, LiveVisit, LiveWindow,
};
use glazewm::sync::order::{
    unique_ids, windows_to_bring_to_front, windows_to_update, WindowBrief, WorkspaceStack,
};
use glazewm::sync::platform_sync::{
    cycle_has_resize, needs_reconciling, platform_sync, FrameChange, SyncStep,
};
use glazewm::sync::redraw::{redraw_containers, RedrawItem, RedrawPhase};
use glazewm::sync::reposition::{
    reposition_window, MoveFacts, MoveNext, Reply, Reposition, Request,
};
use glazewm::sync::window::{
    Action, AnimationPositionResult, Answer, FocusedWindow, MonitorFacts, Next, Question,
    RedrawContext, SessionFlags, Slide, WindowFacts, WindowRedraw, WorkspaceFacts,
};
use glazewm::sync::workspace_switch::{
    decide_switch, finish_redraw, outgoing_frame, plan_switch, start_switch, switch_wanted,
    transit_windows, PassedWorkspace, SwitchAction, SwitchCleanup, SwitchDecision, SwitchEntry,
    SwitchRoute, SwitchStyle, SwitchWindow, Viewport,
};

const FLOATING: WindowState =
    WindowState::Floating(FloatingStateConfig { centered: true, shown_on_top: false });

const FULLSCREEN: WindowState =
    WindowState::Fullscreen(FullscreenStateConfig { maximized: false, shown_on_top: false });

const MAXIMIZED: WindowState =
    WindowState::Fullscreen(FullscreenStateConfig { maximized: true, shown_on_top: false });

fn rect(x: i32, y: i32, width: i32, height: i32) -> Rect {
    Rect::from_xy(x, y, width, height)
}

fn context() -> RedrawContext {
    RedrawContext {
        suppress_animations: false,
        cycle_has_resize: false,
        hide_method: HideMethod::Cloak,
        show_all_in_taskbar: false,
        resize_animation_enabled: true,
        move_animation_enabled: true,
        open_animation_enabled: true,
        switch_animation_enabled: true,
    }
}

fn facts() -> WindowFacts {
    WindowFacts {
        id: 1,
        state: WindowState::Tiling,
        display_state: DisplayState::Shown,
        raise: false,
        redraw: true,
        workspace: Some(WorkspaceFacts { displayed: true, focused_window: None }),
        monitor: Some(MonitorFacts {
            bounds: rect(0, 0, 1920, 1080),
            rect: Some(rect(0, 0, 1920, 1080)),
        }),
        hide_corner: Some(HideCorner::BottomLeft),
        target: Some(rect(0, 0, 100, 100)),
        previous_target: Some(rect(50, 0, 100, 100)),
        state_change: false,
        transfer: None,
        outgoing: false,
        dragged: false,
        live_resized: false,
        opacity: 200,
        corner_style: CornerStyle::Rounded,
    }
}

/// Runs a redraw with the given answers and returns all actions, the questions
/// that were asked, and how it ended.
fn run(
    context: RedrawContext,
    facts: WindowFacts,
    answers: &[Answer],
) -> (Vec<Action>, Vec<Question>, Next) {
    let (mut redraw, mut actions, mut next) = WindowRedraw::begin(context, facts);
    let mut questions = Vec::new();
    let mut answers = answers.iter();
    while let Next::Ask(question) = next {
        questions.push(question);
        let answer = match answers.next() {
            Some(answer) => *answer,
            None => break,
        };
        let (more, following) = redraw.resume(answer);
        actions.extend(more);
        next = following;
    }
    assert!(answers.next().is_none());
    (actions, questions, next)
}

const NO: Answer = Answer::Truth(false);

const YES: Answer = Answer::Truth(true);

#[test]
fn a_moved_window_is_animated_and_then_placed() {
    let target = rect(0, 0, 100, 100);
    let apply = Answer::Position {
        result: AnimationPositionResult::Apply(rect(25, 0, 100, 100)),
        has_opacity: true,
    };
    let (actions, questions, next) = run(
        context(),
        facts(),
        &[NO, NO, NO, NO, NO, apply, YES, Answer::Frame(None), Answer::Done],
    );
    assert_eq!(next, Next::Done);
    assert_eq!(
        questions,
        vec![
            Question::NativelyMinimized,
            Question::Maximized,
            Question::Minimized,
            Question::IncomingThumbnail,
            Question::SlideIn,
            Question::Animate {
                resize: false,
                cycle_has_resize: false,
                target,
                previous: Some(rect(50, 0, 100, 100)),
                transfer: None,
                opacity: 200,
                corner_style: CornerStyle::Rounded,
            },
            Question::PreCommitted(rect(25, 0, 100, 100)),
            Question::AppliedFrame,
            Question::Reposition(rect(25, 0, 100, 100)),
        ]
    );
    assert_eq!(
        actions,
        vec![
            Action::SetDisplayState(DisplayState::Shown),
            Action::RecordTarget(target),
            Action::SetCloaked(false),
            Action::HidePendingSurrogate,
            Action::ApplyAnimatedOpacity,
            Action::MarkFullscreen(false),
        ]
    );
}

#[test]
fn a_window_that_its_animation_left_in_place_is_not_moved_again() {
    let target = rect(0, 0, 100, 100);
    let apply = Answer::Position {
        result: AnimationPositionResult::Apply(target),
        has_opacity: false,
    };
    let (actions, questions, next) = run(
        context(),
        facts(),
        &[NO, NO, NO, NO, NO, apply, YES, Answer::Frame(Some(target))],
    );
    assert_eq!(next, Next::Done);
    assert!(!questions.iter().any(|question| matches!(question, Question::Reposition(_))));
    assert_eq!(
        actions[2..],
        [Action::SetCloaked(false), Action::HidePendingSurrogate, Action::MarkFullscreen(false)]
    );
}

#[test]
fn a_new_window_slides_in_behind_an_overlay() {
    let target = rect(0, 0, 100, 100);
    let frozen = Answer::Position {
        result: AnimationPositionResult::Frozen,
        has_opacity: false,
    };
    let window = WindowFacts { previous_target: None, ..facts() };
    let flags =
        Answer::Session(Some(SessionFlags { needs_preposition: true, move_only: false }));
    let (actions, _, next) =
        run(context(), window, &[NO, NO, NO, NO, YES, frozen, NO, NO, YES, flags]);
    assert_eq!(next, Next::Done);
    assert_eq!(
        actions,
        vec![
            Action::SetDisplayState(DisplayState::Shown),
            Action::RecordTarget(target),
            Action::StartOpenAnimation {
                target,
                monitor: rect(0, 0, 1920, 1080),
                opacity: 200,
                corner_style: CornerStyle::Rounded,
            },
            Action::SetCloaked(true),
            Action::SetWindowPos {
                z_order: WindowZOrder::Normal,
                rect: target,
                flags: PREPOSITION_FLAGS | SWP_FRAMECHANGED,
            },
            Action::MarkSessionCloaked,
            Action::MarkFullscreen(false),
        ]
    );
    // A pure move needs no repaint, and a session may leave the window alone.
    let flags = Answer::Session(Some(SessionFlags { needs_preposition: true, move_only: true }));
    let (actions, _, _) =
        run(context(), window, &[NO, NO, NO, NO, YES, frozen, NO, YES, YES, flags]);
    assert!(actions.contains(&Action::SetWindowPos {
        z_order: WindowZOrder::Normal,
        rect: target,
        flags: PREPOSITION_FLAGS,
    }));
    assert!(!actions.contains(&Action::SetCloaked(true)));
    let flags = Answer::Session(Some(SessionFlags { needs_preposition: false, move_only: true }));
    let (actions, _, _) =
        run(context(), window, &[NO, NO, NO, NO, YES, frozen, NO, YES, YES, flags]);
    assert!(!actions.iter().any(|action| matches!(action, Action::SetWindowPos { .. })));
    // Once the session knows, nothing is asked anymore.
    let (actions, _, next) = run(context(), window, &[NO, NO, NO, NO, YES, frozen, YES]);
    assert_eq!((actions.len(), next), (4, Next::Done));
}

#[test]
fn a_window_of_a_running_switch_stays_frozen() {
    let target = rect(0, 0, 100, 100);
    for state in [WindowState::Tiling, FULLSCREEN] {
        let window = WindowFacts { state, ..facts() };
        let answers = match state {
            WindowState::Tiling => vec![NO, NO, NO, YES, NO, NO, NO, NO, Answer::Frame(None)],
            _ => vec![NO, YES, NO, NO, NO, NO, Answer::Frame(None)],
        };
        let (actions, questions, next) = run(context(), window, &answers);
        assert_eq!(next, Next::Done);
        assert!(!questions.iter().any(|question| matches!(question, Question::Animate { .. })));
        assert!(actions.contains(&Action::SetCloaked(true)));
        assert!(actions.contains(&Action::SetWindowPos {
            z_order: WindowZOrder::Normal,
            rect: target,
            flags: PREPOSITION_FLAGS | SWP_FRAMECHANGED,
        }));
    }
    let answers = [NO, NO, NO, YES, NO, NO, YES, NO, Answer::Frame(Some(target))];
    let (actions, _, _) = run(context(), facts(), &answers);
    assert!(!actions.iter().any(|action| matches!(action, Action::SetWindowPos { .. })));
}

#[test]
fn a_fullscreen_window_is_placed_without_an_animation() {
    let window = WindowFacts {
        state: FULLSCREEN,
        previous_target: None,
        display_state: DisplayState::Hidden,
        ..facts()
    };
    let (actions, questions, next) =
        run(context(), window, &[NO, NO, NO, NO, Answer::Failed]);
    assert_eq!(next, Next::Done);
    assert_eq!(questions[4], Question::Reposition(rect(0, 0, 100, 100)));
    assert_eq!(
        actions,
        vec![
            Action::SetDisplayState(DisplayState::Showing),
            Action::RecordTarget(rect(0, 0, 100, 100)),
            Action::RemoveWindowAnimation,
            Action::RemoveWindowAnimation,
            Action::SetCloaked(false),
            Action::HidePendingSurrogate,
            Action::MarkFullscreen(true),
            Action::SetTaskbarVisibility(true),
        ]
    );
}

#[test]
fn an_outgoing_window_is_hidden_without_an_animation() {
    let window = WindowFacts {
        outgoing: true,
        workspace: Some(WorkspaceFacts { displayed: false, focused_window: None }),
        ..facts()
    };
    let (actions, questions, next) =
        run(context(), window, &[NO, NO, NO, NO, YES, Answer::Done]);
    assert_eq!(next, Next::Done);
    assert_eq!(questions[5], Question::Reposition(rect(0, 0, 100, 100)));
    assert_eq!(
        actions,
        vec![
            Action::SetDisplayState(DisplayState::Hiding),
            Action::RecordTarget(rect(0, 0, 100, 100)),
            Action::RemoveWindowAnimation,
            Action::MarkFullscreen(false),
            Action::SetTaskbarVisibility(false),
        ]
    );
}

#[test]
fn suppressed_animations_are_not_started() {
    let suppressed = RedrawContext { suppress_animations: true, ..context() };
    let window = WindowFacts { previous_target: None, ..facts() };
    let (actions, questions, _) =
        run(suppressed, window, &[NO, NO, NO, NO, YES, NO, Answer::Done]);
    assert!(!actions.iter().any(|action| matches!(action, Action::StartOpenAnimation { .. })));
    assert!(!questions.iter().any(|question| matches!(question, Question::Animate { .. })));
    assert!(actions.contains(&Action::RemoveWindowAnimation));
}

#[test]
fn a_floating_window_is_animated_only_when_it_changes_its_state_or_workspace() {
    let asked = |window: WindowFacts, answers: &[Answer]| {
        let (_, questions, _) = run(context(), window, answers);
        questions.iter().any(|question| matches!(question, Question::Animate { .. }))
    };
    let window = WindowFacts { state: FLOATING, ..facts() };
    assert!(!asked(window, &[NO, NO, NO, NO, NO]));
    assert!(asked(window, &[NO, NO, NO, NO, YES]));
    assert!(asked(WindowFacts { state_change: true, ..window }, &[NO, NO, NO, NO]));
    let carried = WindowFacts { transfer: Some(1), ..window };
    assert!(asked(carried, &[NO, Answer::Frame(None), NO, NO, NO]));
    let still = RedrawContext { move_animation_enabled: false, ..context() };
    let (_, questions, _) =
        run(still, WindowFacts { state_change: true, ..window }, &[NO, NO, NO, NO]);
    assert!(matches!(questions.last(), Some(Question::PreCommitted(_))));
}

#[test]
fn a_carried_window_slides_from_where_the_switch_shows_it() {
    let window = WindowFacts { transfer: Some(-1), ..facts() };
    let shown = rect(7, 7, 90, 100);
    let (_, questions, _) =
        run(context(), window, &[NO, Answer::Frame(Some(shown)), NO, NO, NO]);
    assert_eq!(
        questions[5],
        Question::Animate {
            resize: true,
            cycle_has_resize: false,
            target: rect(0, 0, 100, 100),
            previous: Some(shown),
            transfer: Some(Slide { bounds: rect(0, 0, 1920, 1080), direction: -1 }),
            opacity: 200,
            corner_style: CornerStyle::Rounded,
        }
    );
}

#[test]
fn a_maximized_window_is_restored_before_it_is_placed() {
    let (actions, questions, _) =
        run(context(), facts(), &[NO, YES, Answer::Done, NO, NO]);
    assert_eq!(questions[2], Question::Restore(rect(0, 0, 100, 100)));
    assert_eq!(actions[2..], [Action::RemoveWindowAnimation, Action::ClearMaximized]);
    let (_, _, next) = run(context(), facts(), &[NO, NO, YES, Answer::Failed]);
    assert_eq!(next, Next::Fail(SyncError::Native));
}

#[test]
fn redraws_that_end_early() {
    // Minimized natively in the meantime.
    let (actions, _, next) = run(context(), facts(), &[YES]);
    assert_eq!((actions, next), (vec![Action::RemoveAnimation], Next::Done));
    // Already placed in a live resize.
    let live = WindowFacts { live_resized: true, ..facts() };
    let (actions, _, next) = run(context(), live, &[NO]);
    assert_eq!((actions.len(), next), (2, Next::Done));
    // Dragged.
    let dragged = WindowFacts { dragged: true, ..facts() };
    let (actions, _, _) = run(context(), dragged, &[NO]);
    assert_eq!(actions[2], Action::RemoveAnimation);
    // Nothing to do.
    let idle = WindowFacts { redraw: false, ..facts() };
    assert_eq!(run(context(), idle, &[]), (vec![], vec![], Next::Done));
    for (broken, answers, error) in [
        (WindowFacts { workspace: None, ..facts() }, vec![], SyncError::WindowHasNoWorkspace),
        (WindowFacts { monitor: None, ..facts() }, vec![], SyncError::NoMonitor),
        (WindowFacts { hide_corner: None, ..facts() }, vec![], SyncError::NoHideCorner),
        (WindowFacts { target: None, ..facts() }, vec![NO], SyncError::NoPlacement),
        (facts(), vec![Answer::Failed], SyncError::Native),
        (facts(), vec![NO, Answer::Failed], SyncError::Native),
        (facts(), vec![NO, NO, Answer::Failed], SyncError::Native),
        (
            WindowFacts {
                previous_target: None,
                monitor: Some(MonitorFacts { bounds: rect(0, 0, 1, 1), rect: None }),
                ..facts()
            },
            vec![NO, NO, NO, NO],
            SyncError::NoPlacement,
        ),
    ] {
        assert_eq!(run(context(), broken, &answers).2, Next::Fail(error));
    }
}

#[test]
fn raised_windows_go_below_the_focused_one() {
    let focused = Some(FocusedWindow { id: 2, handle: 22 });
    let raised = WindowFacts {
        raise: true,
        redraw: false,
        workspace: Some(WorkspaceFacts { displayed: true, focused_window: focused }),
        ..facts()
    };
    let order = |window: WindowFacts| run(context(), window, &[]).0;
    assert_eq!(order(raised), vec![Action::SetZOrder(WindowZOrder::AfterWindow(22))]);
    let itself = WindowFacts { id: 2, ..raised };
    assert_eq!(order(itself), vec![Action::SetZOrder(WindowZOrder::Normal)]);
    let on_top = WindowFacts {
        state: WindowState::Floating(FloatingStateConfig { centered: true, shown_on_top: true }),
        ..raised
    };
    assert_eq!(order(on_top), vec![Action::SetZOrder(WindowZOrder::TopMost)]);
}

fn move_facts() -> MoveFacts {
    MoveFacts {
        state: WindowState::Tiling,
        dragged: false,
        visible: true,
        hide_method: HideMethod::Cloak,
        hide_corner: HideCorner::BottomLeft,
        working_area: Some(rect(0, 0, 1920, 1040)),
        frame: rect(10, 10, 300, 200),
        rect: rect(0, 0, 100, 100),
        z_order: WindowZOrder::Normal,
        pending_dpi_adjustment: false,
    }
}

fn calls(facts: MoveFacts, replies: &[Reply]) -> (Vec<Request>, MoveNext) {
    let (mut reposition, mut next): (Reposition, MoveNext) = reposition_window(facts);
    let mut requests = Vec::new();
    let mut replies = replies.iter();
    while let MoveNext::Call(request) = next {
        requests.push(request);
        let reply = match replies.next() {
            Some(reply) => *reply,
            None => break,
        };
        next = reposition.resume(reply);
    }
    assert!(replies.next().is_none());
    (requests, next)
}

#[test]
fn a_tiling_window_is_restored_moved_and_shown() {
    let (requests, next) = calls(
        MoveFacts { pending_dpi_adjustment: true, ..move_facts() },
        &[
            Reply::Truth(false),
            Reply::Truth(true),
            Reply::Done,
            Reply::Done,
            Reply::Done,
            Reply::Done,
        ],
    );
    assert_eq!(next, MoveNext::Done);
    assert_eq!(
        requests,
        vec![
            Request::IsMinimized,
            Request::IsMaximized,
            Request::Restore(rect(0, 0, 100, 100)),
            Request::SetWindowPos {
                z_order: WindowZOrder::Normal,
                rect: rect(0, 0, 100, 100),
                flags: REPOSITION_FLAGS,
            },
            Request::RetryPosition,
            Request::SetCloaked(false),
        ]
    );
}

#[test]
fn dpi_changes_are_adjusted_once() {
    let pending = MoveFacts { pending_dpi_adjustment: true, state: FULLSCREEN, ..move_facts() };
    let (mut reposition, _) = reposition_window(pending);
    reposition.resume(Reply::Truth(false));
    assert!(reposition.facts.pending_dpi_adjustment);
    assert_eq!(reposition.resume(Reply::Done), MoveNext::Call(Request::RetryPosition));
    assert!(!reposition.facts.pending_dpi_adjustment);
}

#[test]
fn overlays_match_the_effects_of_their_window() {
    let looks =
        WindowEffectsConfig { focused_window: effects(true, 1), other_windows: effects(false, 2) };
    let focused = facts().with_effects(&looks, 1);
    assert_eq!((focused.opacity, focused.corner_style), (100, CornerStyle::Square));
    let other = facts().with_effects(&looks, 2);
    assert_eq!((other.opacity, other.corner_style), (255, CornerStyle::Default));
}

#[test]
fn hidden_windows_are_parked_in_their_corner() {
    let parked = MoveFacts {
        visible: false,
        hide_method: HideMethod::PlaceInCorner,
        ..move_facts()
    };
    assert_eq!(
        calls(parked, &[Reply::Done]),
        (vec![Request::SetFrame(rect(-299, 1039, 300, 200))], MoveNext::Done)
    );
    let right = MoveFacts { hide_corner: HideCorner::BottomRight, ..parked };
    assert_eq!(calls(right, &[]).0, vec![Request::SetFrame(rect(1919, 1039, 300, 200))]);
    let nowhere = MoveFacts { working_area: None, ..parked };
    assert_eq!(calls(nowhere, &[]), (vec![], MoveNext::Fail(SyncError::NoMonitor)));
}

#[test]
fn dragged_windows_only_get_their_frame_back() {
    let dragged = MoveFacts { dragged: true, ..move_facts() };
    assert_eq!(
        calls(dragged, &[Reply::Failed]),
        (
            vec![Request::SetWindowPos {
                z_order: WindowZOrder::Normal,
                rect: rect(0, 0, 100, 100),
                flags: DRAG_FLAGS,
            }],
            MoveNext::Fail(SyncError::Native)
        )
    );
    let floating = MoveFacts { state: FLOATING, ..dragged };
    assert_eq!(
        calls(floating, &[Reply::Done]),
        (vec![Request::Resize { width: 100, height: 100 }], MoveNext::Done)
    );
}

#[test]
fn maximized_windows_are_brought_to_their_monitor_first() {
    let maximized =
        MoveFacts { state: MAXIMIZED, hide_method: HideMethod::Hide, ..move_facts() };
    let (requests, next) = calls(
        maximized,
        &[
            Reply::Truth(true),
            Reply::Frame(rect(5000, 0, 100, 100)),
            Reply::Done,
            Reply::Done,
            Reply::Truth(true),
            Reply::Done,
            Reply::Done,
        ],
    );
    assert_eq!(next, MoveNext::Done);
    assert_eq!(
        requests,
        vec![
            Request::HasMaximizeBox,
            Request::Frame,
            Request::Restore(rect(0, 0, 100, 100)),
            Request::Maximize,
            Request::IsMaximized,
            Request::SetZOrder(WindowZOrder::Normal),
            Request::Show,
        ]
    );
    let (requests, _) = calls(
        maximized,
        &[Reply::Truth(true), Reply::Frame(rect(0, 0, 100, 100)), Reply::Truth(false)],
    );
    assert_eq!(requests[2..], [Request::IsMaximized, Request::Maximize]);
    // Without a maximize button the window is moved like any other.
    let (requests, _) = calls(maximized, &[Reply::Truth(false)]);
    assert!(matches!(requests[1], Request::SetWindowPos { flags: REPOSITION_FLAGS, .. }));
    assert_eq!(WS_MAXIMIZEBOX, windows::Win32::UI::WindowsAndMessaging::WS_MAXIMIZEBOX.0);
}

#[test]
fn minimized_windows_are_minimized_once() {
    let minimized = MoveFacts {
        state: WindowState::Minimized,
        visible: false,
        hide_method: HideMethod::Hide,
        ..move_facts()
    };
    let (requests, _) = calls(minimized, &[Reply::Truth(false), Reply::Done, Reply::Done]);
    assert_eq!(requests, vec![Request::IsMinimized, Request::Minimize, Request::Hide]);
    let (requests, _) = calls(minimized, &[Reply::Truth(true), Reply::Done]);
    assert_eq!(requests, vec![Request::IsMinimized, Request::Hide]);
}

fn iris(origin_x: i32, origin_y: i32) -> IrisSwitchRequest {
    IrisSwitchRequest {
        monitor_x: 0,
        monitor_y: 0,
        monitor_width: 30,
        monitor_height: 40,
        monitor_handle: 5,
        origin_x,
        origin_y,
    }
}

#[test]
fn the_iris_grows_to_the_farthest_corner() {
    assert_eq!(iris_max_radius(&iris(0, 0)), 50);
    assert_eq!(iris_max_radius(&iris(15, 20)), 25);
    // The distance to the farthest corner is the root of 2441.
    assert_eq!(iris_max_radius(&iris(1, 0)), 50);
    assert_eq!(iris_max_radius(&iris(30, 40)), 50);
    let point = IrisSwitchRequest { monitor_width: 0, monitor_height: 0, ..iris(0, 0) };
    assert_eq!(iris_max_radius(&point), 0);
    let screen = IrisSwitchRequest { monitor_width: 1920, monitor_height: 1080, ..iris(0, 0) };
    assert_eq!(iris_max_radius(&screen), (1920.0f64).hypot(1080.0).ceil() as i32);
}

#[test]
fn a_queued_wipe_is_taken_once() {
    let mut pending = Some(iris(0, 0));
    assert_eq!(begin_iris_switch(&mut pending, false, false), None);
    assert_eq!(begin_iris_switch(&mut pending, true, true), None);
    assert!(pending.is_some());
    let switch = begin_iris_switch(&mut pending, true, false).unwrap();
    assert_eq!(switch.monitor, rect(0, 0, 30, 40));
    assert_eq!(switch.origin, Point { x: 0, y: 0 });
    assert_eq!((switch.max_radius, switch.monitor_handle), (50, 5));
    assert_eq!(begin_iris_switch(&mut pending, true, false), None);
    assert_eq!(after_iris_overlay(switch, true), vec![IrisAction::Start(switch), IrisAction::Flush]);
    assert_eq!(after_iris_overlay(switch, false), vec![]);
    assert_eq!(
        before_iris_overlay(switch),
        vec![IrisAction::ClearRunning, IrisAction::CreateOverlay(switch.monitor)]
    );
}

#[test]
fn a_live_resize_moves_only_what_is_elsewhere() {
    assert!(is_keyboard_resize(true, &vec!["other".to_string(), "resize".to_string()]));
    assert!(!is_keyboard_resize(false, &vec!["resize".to_string()]));
    assert!(!is_keyboard_resize(true, &vec!["other".to_string()]));
    let dragged = DragBrief { state: WindowState::Tiling, drag_resizes: true };
    assert!(LiveResize::begin(&vec![dragged], false).is_some());
    assert!(LiveResize::begin(&vec![DragBrief { state: FLOATING, ..dragged }], false).is_none());
    assert!(LiveResize::begin(&vec![DragBrief { drag_resizes: false, ..dragged }], false).is_none());
    let mut resize = LiveResize::begin(&vec![], true).unwrap();
    let target = rect(0, 0, 10, 10);
    let window = LiveWindow {
        id: 1,
        state: WindowState::Tiling,
        display_state: DisplayState::Shown,
        workspace_displayed: true,
        animated: true,
        target: Some(target),
    };
    for skipped in [
        LiveWindow { state: WindowState::Minimized, ..window },
        LiveWindow { display_state: DisplayState::Showing, ..window },
        LiveWindow { workspace_displayed: false, ..window },
    ] {
        assert_eq!(resize.visit(skipped), LiveVisit::Skip);
    }
    assert_eq!(resize.visit(window), LiveVisit::Measure { remove_animation: true, target });
    resize.measured(1, target, Some(rect(1, 0, 10, 10)));
    let floating = LiveWindow { id: 2, state: FLOATING, animated: false, ..window };
    assert_eq!(resize.visit(floating), LiveVisit::Measure { remove_animation: false, target });
    resize.measured(2, target, Some(target));
    resize.measured(3, target, None);
    assert_eq!(
        resize.visit(LiveWindow { id: 4, target: None, animated: false, ..window }),
        LiveVisit::Fail { remove_animation: false, error: SyncError::NoPlacement }
    );
    assert_eq!(resize.positions, vec![LivePosition { id: 1, target }]);
    assert_eq!(resize.updated, vec![1, 2]);
    assert_eq!(resize.uncloaked, vec![1]);
    assert_eq!(
        resize.finish(),
        vec![LiveStep::Apply(LivePosition { id: 1, target }), LiveStep::Uncloak(1)]
    );
    let mut drag = LiveResize::begin(&vec![dragged], false).unwrap();
    assert_eq!(drag.visit(floating), LiveVisit::Skip);
}

const SLIDE: SwitchStyle = SwitchStyle { slide: true, no_slide: false };

const FADE: SwitchStyle = SwitchStyle { slide: false, no_slide: true };

#[test]
fn slides_pass_the_workspaces_on_the_way() {
    let workspace = |index, monitor, id| PassedWorkspace {
        config_index: index,
        monitor: Some(monitor),
        windows: vec![
            WindowBrief { id, state: WindowState::Tiling },
            WindowBrief { id: id + 1, state: WindowState::Minimized },
        ],
    };
    let workspaces = vec![
        workspace(Some(1), 9, 10),
        workspace(Some(2), 9, 20),
        workspace(Some(3), 8, 30),
        workspace(None, 9, 40),
        workspace(Some(4), 9, 50),
    ];
    let route = SwitchRoute {
        from_index: Some(4),
        to_index: Some(1),
        destination_exists: true,
        destination_monitor: Some(9),
    };
    assert_eq!(transit_windows(SLIDE, Some(route), &workspaces), vec![20]);
    let back = SwitchRoute { from_index: Some(0), to_index: Some(4), ..route };
    assert_eq!(transit_windows(SLIDE, Some(back), &workspaces), vec![10, 20]);
    assert!(transit_windows(FADE, Some(route), &workspaces).is_empty());
    assert!(transit_windows(SLIDE, None, &workspaces).is_empty());
    let unknown = SwitchRoute { destination_exists: false, ..route };
    assert!(transit_windows(SLIDE, Some(unknown), &workspaces).is_empty());
}

fn switch_window(id: u128) -> SwitchWindow {
    SwitchWindow {
        id,
        transfer: false,
        incoming: false,
        outgoing: false,
        transit: false,
        in_running_switch: false,
        monitor: Some(Viewport { x: 1, y: 2, width: 3, height: 4, handle: 5 }),
        has_workspace: true,
    }
}

#[test]
fn switches_give_every_participant_a_surrogate() {
    let viewport = Viewport { x: 1, y: 2, width: 3, height: 4, handle: 5 };
    let windows = vec![
        switch_window(1),
        SwitchWindow { incoming: true, transfer: true, ..switch_window(2) },
        SwitchWindow { outgoing: true, monitor: None, ..switch_window(3) },
        SwitchWindow { incoming: true, ..switch_window(4) },
        SwitchWindow { transit: true, in_running_switch: true, ..switch_window(5) },
    ];
    assert!(switch_wanted(&windows, false));
    assert!(!switch_wanted(&vec![switch_window(1)], false));
    assert!(switch_wanted(&vec![], true));
    let none = Viewport { x: 0, y: 0, width: 0, height: 0, handle: 0 };
    let outgoing = SwitchEntry {
        id: 3,
        incoming: false,
        transit: false,
        at_target: false,
        viewport: none,
        opacity: 255,
    };
    let incoming =
        SwitchEntry { id: 4, incoming: true, at_target: true, viewport, opacity: 100, ..outgoing };
    let passed =
        SwitchEntry { id: 5, incoming: false, transit: true, opacity: 255, ..incoming };
    let looks =
        WindowEffectsConfig { focused_window: effects(true, 1), other_windows: effects(false, 2) };
    let plan = plan_switch(&windows, false, 4, &looks).unwrap();
    assert_eq!(plan.entries, vec![outgoing, incoming, passed]);
    assert_eq!(plan.viewport, viewport);
    assert_eq!(plan_switch(&windows, true, 4, &looks).unwrap().entries.len(), 2);
    let lost = vec![SwitchWindow { incoming: true, has_workspace: false, ..switch_window(1) }];
    assert_eq!(
        plan_switch(&lost, false, 4, &looks).err(),
        Some(SyncError::NoTransitionWorkspace)
    );
    assert_eq!(
        start_switch(&plan.entries, SLIDE),
        vec![SwitchAction::ShowInitial(3), SwitchAction::Flush, SwitchAction::Start]
    );
    assert_eq!(
        start_switch(&plan.entries, FADE),
        vec![
            SwitchAction::ShowInitial(3),
            SwitchAction::ShowIncoming(4),
            SwitchAction::Flush,
            SwitchAction::Start,
        ]
    );
}

#[test]
fn switches_are_started_retargeted_or_skipped() {
    assert_eq!(decide_switch(true, true, 0, 0, SLIDE), SwitchDecision::Retarget);
    assert_eq!(decide_switch(true, false, 1, 1, SLIDE), SwitchDecision::Skip);
    assert_eq!(decide_switch(false, true, 1, 1, SLIDE), SwitchDecision::Start);
    assert_eq!(decide_switch(false, true, 1, 0, SLIDE), SwitchDecision::Skip);
    assert_eq!(decide_switch(false, true, 1, 0, FADE), SwitchDecision::Start);
    assert_eq!(decide_switch(false, true, 0, 1, FADE), SwitchDecision::Skip);
    assert_eq!(outgoing_frame(Some(rect(1, 1, 1, 1)), None), rect(1, 1, 1, 1));
    assert_eq!(outgoing_frame(None, Some(rect(2, 2, 2, 2))), rect(2, 2, 2, 2));
    assert_eq!(outgoing_frame(None, None), rect(0, 0, 0, 0));
    assert_eq!(
        finish_redraw(&vec![1, 2], true, true, false),
        vec![
            SwitchCleanup::FlushSurrogateUpdates,
            SwitchCleanup::Flush,
            SwitchCleanup::RemoveWorkspaceWindow(1),
            SwitchCleanup::RemoveWorkspaceWindow(2),
            SwitchCleanup::ApplyOutgoingOpacities,
        ]
    );
    assert_eq!(
        finish_redraw(&vec![1], false, true, true),
        vec![SwitchCleanup::FlushSurrogateUpdates]
    );
}

fn stack(id: u128, focused: Option<WindowState>) -> WorkspaceStack {
    WorkspaceStack {
        id,
        focused_state: focused,
        windows: vec![
            WindowBrief { id: id + 1, state: WindowState::Tiling },
            WindowBrief { id: id + 2, state: FLOATING },
            WindowBrief { id: id + 3, state: FULLSCREEN },
        ],
    }
}

#[test]
fn windows_of_the_focused_kind_are_raised() {
    let queued = vec![stack(10, Some(WindowState::Tiling)), stack(10, Some(WindowState::Tiling))];
    let focused = stack(20, Some(FLOATING));
    assert_eq!(windows_to_bring_to_front(&queued, Some(&focused), true), Ok(vec![11, 22]));
    assert_eq!(windows_to_bring_to_front(&queued, Some(&focused), false), Ok(vec![11]));
    assert_eq!(windows_to_bring_to_front(&queued, None, true), Err(SyncError::NoWorkspace));
    let fullscreen = vec![stack(30, Some(FULLSCREEN)), stack(40, None)];
    assert_eq!(windows_to_bring_to_front(&fullscreen, Some(&focused), false), Ok(vec![]));
}

#[test]
fn windows_are_updated_in_the_order_of_their_focus() {
    assert_eq!(unique_ids(&vec![1, 2, 1], &vec![3, 2]), vec![1, 2, 3]);
    assert_eq!(windows_to_update(&vec![1, 2, 9], &vec![3, 8], &vec![3, 7, 2, 1]), vec![9, 8, 3, 2, 1]);
}

#[test]
fn a_redraw_ends_with_the_focused_window() {
    let focused = stack(10, Some(WindowState::Tiling));
    let plan = redraw_containers(
        &vec![12, 50],
        &vec![],
        Some(&focused),
        true,
        &vec![11, 12],
        true,
        false,
    )
    .unwrap();
    assert_eq!(plan.windows, vec![50, 11, 12]);
    assert_eq!(
        plan.items,
        vec![
            RedrawItem { id: 12, raise: false, redraw: true },
            RedrawItem { id: 11, raise: true, redraw: false },
            RedrawItem { id: 50, raise: false, redraw: true },
        ]
    );
    assert_eq!(
        plan.phases,
        vec![
            RedrawPhase::LiveResize,
            RedrawPhase::IrisSwitch,
            RedrawPhase::WorkspaceSwitch,
            RedrawPhase::Windows,
            RedrawPhase::Finish,
        ]
    );
    let plan =
        redraw_containers(&vec![], &vec![], Some(&focused), false, &vec![], true, true).unwrap();
    assert!(plan.items.is_empty());
    assert_eq!(
        plan.phases,
        vec![RedrawPhase::LiveResize, RedrawPhase::Windows, RedrawPhase::Finish]
    );
    let lost = redraw_containers(&vec![1], &vec![], None, false, &vec![], true, false);
    assert_eq!(lost.err(), Some(SyncError::NoWorkspace));
}

#[test]
fn covered_windows_take_focus_later() {
    let facts = FocusFacts {
        window: Some(1),
        switch_active: false,
        incoming_thumbnail: true,
        resize_session: false,
    };
    let focus = vec![FocusAction::FocusWindow(1), FocusAction::EmitFocusChanged];
    assert_eq!(sync_focus(facts), focus);
    assert!(sync_focus(FocusFacts { switch_active: true, ..facts }).is_empty());
    assert!(sync_focus(FocusFacts { resize_session: true, ..facts }).is_empty());
    let desktop = FocusFacts { window: None, resize_session: true, ..facts };
    assert_eq!(sync_focus(desktop), vec![FocusAction::ResetFocus, FocusAction::EmitFocusChanged]);
}

#[test]
fn the_cursor_jumps_to_where_focus_is() {
    let monitor = Some(JumpMonitor { id: 1, rect: Some(rect(0, 0, 100, 50)) });
    let facts = JumpFacts {
        trigger: CursorJumpTrigger::MonitorFocus,
        focused_rect: Some(rect(10, 10, 20, 20)),
        monitor,
        cursor_monitor: Some(2),
    };
    assert_eq!(jump_cursor(facts), Ok(Some(Point { x: 50, y: 25 })));
    assert_eq!(jump_cursor(JumpFacts { cursor_monitor: Some(1), ..facts }), Ok(None));
    assert_eq!(jump_cursor(JumpFacts { cursor_monitor: None, ..facts }), Ok(None));
    assert_eq!(jump_cursor(JumpFacts { monitor: None, ..facts }), Err(SyncError::NoMonitor));
    let unplaced = Some(JumpMonitor { id: 1, rect: None });
    assert_eq!(jump_cursor(JumpFacts { monitor: unplaced, ..facts }), Err(SyncError::NoPlacement));
    let window = JumpFacts { trigger: CursorJumpTrigger::WindowFocus, ..facts };
    assert_eq!(jump_cursor(window), Ok(Some(Point { x: 20, y: 20 })));
    assert_eq!(
        jump_cursor(JumpFacts { focused_rect: None, ..window }),
        Err(SyncError::NoPlacement)
    );
}

fn effects(enabled: bool, shade: u8) -> WindowEffectConfig {
    WindowEffectConfig {
        border_enabled: enabled,
        border_color: Color { r: shade, g: 0, b: 0, a: 255 },
        hide_title_bar_enabled: enabled,
        corner_style_enabled: enabled,
        corner_style: CornerStyle::Square,
        transparency_enabled: enabled,
        opacity: 100,
    }
}

#[test]
fn effects_are_set_or_reset_but_never_touched_when_disabled() {
    let config =
        WindowEffectsConfig { focused_window: effects(true, 1), other_windows: effects(false, 2) };
    let mode = Color { r: 9, g: 9, b: 9, a: 9 };
    assert_eq!(
        apply_window_effects(WindowState::Tiling, true, &config, mode),
        vec![
            EffectAction::SetBorderColor(Some(mode)),
            EffectAction::ScheduleBorderColor(Some(mode)),
            EffectAction::SetTitleBarVisibility(false),
            EffectAction::SetCornerStyle(CornerStyle::Square),
            EffectAction::SetTransparency(100),
        ]
    );
    assert_eq!(
        apply_window_effects(WindowState::Tiling, false, &config, mode),
        vec![
            EffectAction::SetBorderColor(None),
            EffectAction::ScheduleBorderColor(None),
            EffectAction::SetTitleBarVisibility(true),
            EffectAction::SetCornerStyle(CornerStyle::Default),
            EffectAction::SetTransparency(255),
        ]
    );
    assert_eq!(
        apply_window_effects(FULLSCREEN, true, &config, mode)[0],
        EffectAction::SetBorderColor(None)
    );
    let off =
        WindowEffectsConfig { focused_window: effects(false, 1), other_windows: effects(false, 2) };
    assert!(apply_window_effects(WindowState::Tiling, true, &off, mode).is_empty());
    assert_eq!(config.for_window(true).alpha(), 100);
    assert_eq!(config.for_window(false).alpha(), 255);
    assert_eq!(config.for_window(true).corners(), CornerStyle::Square);
    assert_eq!(config.for_window(false).corners(), CornerStyle::Default);
}

#[test]
fn scheduled_borders_come_to_nothing_after_an_update() {
    let color = Some(Color { r: 1, g: 2, b: 3, a: 4 });
    assert_eq!(due_border_color(7, 7, Some(false), color), Some(color));
    assert_eq!(due_border_color(7, 7, None, color), Some(color));
    assert_eq!(due_border_color(7, 7, Some(true), color), Some(None));
    assert_eq!(due_border_color(7, 8, Some(false), color), None);
    let mut state = WmState::new(1);
    state.border_effect_generation = u64::MAX;
    state.prev_effects_window = Some(3);
    let steps = update_effects(&mut state, 2, true, &vec![1, 2, 3], false);
    assert_eq!(state.border_effect_generation, 0);
    assert_eq!(state.prev_effects_window, Some(2));
    assert_eq!(
        steps,
        vec![
            EffectStep::SyncFocusOutline,
            EffectStep::Apply { id: 2, is_focused: true },
            EffectStep::Apply { id: 3, is_focused: false },
            EffectStep::ReapplyAnimatedOpacity(2),
        ]
    );
    let steps = update_effects(&mut state, 9, false, &vec![1, 2, 3], true);
    assert_eq!(steps.len(), 4);
    assert_eq!(state.prev_effects_window, None);
    let steps = update_effects(&mut state, 9, false, &vec![1, 2, 3], false);
    assert_eq!(steps, vec![EffectStep::SyncFocusOutline]);
}

#[test]
fn a_sync_does_what_was_queued_and_clears_the_queue() {
    let mut state = WmState::new(1);
    assert_eq!(platform_sync(&state, true, true), Ok(vec![SyncStep::ClearPending]));
    assert_eq!(platform_sync(&state, false, true), Err(SyncError::NoFocusedContainer));
    state.pending_sync.queue_container_to_redraw(1);
    state.pending_sync.needs_focus_update = true;
    state.pending_sync.needs_cursor_jump = true;
    state.pending_sync.needs_all_effects_update = true;
    assert_eq!(
        platform_sync(&state, true, true),
        Ok(vec![
            SyncStep::RedrawContainers,
            SyncStep::SyncFocus,
            SyncStep::JumpCursor,
            SyncStep::UpdateEffects,
            SyncStep::ClearPending,
        ])
    );
    state.is_paused = true;
    assert_eq!(
        platform_sync(&state, true, false),
        Ok(vec![SyncStep::RedrawContainers, SyncStep::SyncFocus, SyncStep::ClearPending])
    );
    state.desktop_windows = Some(vec![]);
    assert_eq!(platform_sync(&state, false, true), Ok(vec![]));
    assert!(needs_reconciling(WindowState::Tiling, false, Some(true)));
    assert!(!needs_reconciling(WindowState::Tiling, true, Some(true)));
    assert!(!needs_reconciling(WindowState::Minimized, false, Some(true)));
    assert!(!needs_reconciling(WindowState::Tiling, false, None));
}

#[test]
fn a_cycle_with_a_resize_is_recognised() {
    let still = FrameChange {
        target: Some(rect(0, 0, 10, 10)),
        previous: Some(rect(5, 5, 10, 10)),
    };
    let unknown = FrameChange { previous: None, ..still };
    assert!(!cycle_has_resize(&vec![still, unknown]));
    let wider = FrameChange { target: Some(rect(5, 5, 11, 10)), ..still };
    assert!(cycle_has_resize(&vec![still, wider]));
}
