//! Running the window manager: its event loop and its shutdown.
use vstd::prelude::*;

use crate::ipc_server::WmEvent;
use crate::sys_tray::{InvokeCommand, KeybindingConfig};
use crate::text::{holds_text, utf8_text};

verus! {

/// What the event loop waits for.
#[derive(Clone, Copy, Debug, PartialEq, Eq, Structural)]
pub enum LoopEvent {
    /// The process was interrupted.
    Interrupt,
    /// A command asked for the exit.
    WmExit,
    /// The tray menu asked for the exit.
    TrayExit,
    AnimationTick,
    Mouse,
    Window,
    DisplaySettings,
    Keybinding,
    /// The timer of continuous resizing; a continuous binding may be held.
    ResizeTick { binding_held: bool },
    SafeAreaTick,
    CleanupTick { is_paused: bool },
    IpcMessage,
    WmEvent,
    TrayCommand,
}

/// What the event loop does.
#[derive(Clone, Copy, Debug, PartialEq, Eq, Structural)]
pub enum LoopAction {
    /// Leave the loop and shut down.
    Exit,
    /// Drop the ticks that piled up and draw the next frame.
    UpdateAnimations,
    ProcessPlatformEvent,
    ProcessHeldResize,
    RefreshWorkingAreas,
    CleanupInvalidWindows,
    ProcessIpcMessage,
    ProcessWmEvent,
    RunTrayCommand,
    Nothing,
}

/// Decides what the event loop does.
pub fn loop_action(event: LoopEvent) -> (action: LoopAction)
    ensures
        action == match event {
            LoopEvent::Interrupt | LoopEvent::WmExit | LoopEvent::TrayExit => LoopAction::Exit,
            LoopEvent::AnimationTick => LoopAction::UpdateAnimations,
            LoopEvent::Mouse
            | LoopEvent::Window
            | LoopEvent::DisplaySettings
            | LoopEvent::Keybinding => LoopAction::ProcessPlatformEvent,
            LoopEvent::ResizeTick { binding_held } => if binding_held {
                LoopAction::ProcessHeldResize
            } else {
                LoopAction::Nothing
            },
            LoopEvent::SafeAreaTick => LoopAction::RefreshWorkingAreas,
            LoopEvent::CleanupTick { is_paused } => if is_paused {
                LoopAction::Nothing
            } else {
                LoopAction::CleanupInvalidWindows
            },
            LoopEvent::IpcMessage => LoopAction::ProcessIpcMessage,
            LoopEvent::WmEvent => LoopAction::ProcessWmEvent,
            LoopEvent::TrayCommand => LoopAction::RunTrayCommand,
        },
        action is Exit <==> event is Interrupt || event is WmExit || event is TrayExit,
        action is UpdateAnimations <==> event is AnimationTick,
        action is ProcessPlatformEvent <==> event is Mouse || event is Window || event
            is DisplaySettings || event is Keybinding,
        action is ProcessHeldResize <==> event == (LoopEvent::ResizeTick { binding_held: true }),
        action is RefreshWorkingAreas <==> event is SafeAreaTick,
        action is CleanupInvalidWindows <==> event == (LoopEvent::CleanupTick {
            is_paused: false,
        }),
        action is ProcessIpcMessage <==> event is IpcMessage,
        action is ProcessWmEvent <==> event is WmEvent,
        action is RunTrayCommand <==> event is TrayCommand,
{
    match event {
        LoopEvent::Interrupt | LoopEvent::WmExit | LoopEvent::TrayExit => LoopAction::Exit,
        LoopEvent::AnimationTick => LoopAction::UpdateAnimations,
        LoopEvent::Mouse
        | LoopEvent::Window
        | LoopEvent::DisplaySettings
        | LoopEvent::Keybinding => LoopAction::ProcessPlatformEvent,
        LoopEvent::ResizeTick { binding_held } => if binding_held {
            LoopAction::ProcessHeldResize
        } else {
            LoopAction::Nothing
        },
        LoopEvent::SafeAreaTick => LoopAction::RefreshWorkingAreas,
        LoopEvent::CleanupTick { is_paused } => if is_paused {
            LoopAction::Nothing
        } else {
            LoopAction::CleanupInvalidWindows
        },
        LoopEvent::IpcMessage => LoopAction::ProcessIpcMessage,
        LoopEvent::WmEvent => LoopAction::ProcessWmEvent,
        LoopEvent::TrayCommand => LoopAction::RunTrayCommand,
    }
}

/// How the event loop goes on.
pub enum LoopNext {
    Continue,
    /// Write the error to the log and wait for the next event.
    Log(String),
    /// Show the error to the user and wait for the next event.
    ShowError { title: &'static str, message: String },
    /// Leave the loop and shut down.
    Leave,
    /// Give up, with the error.
    Fail(String),
}

/// Decides how the event loop goes on, given what came of an action. A failure
/// is shown to the user and does not end the loop. That of a client's message
/// is only logged. An event of the window manager counts as failed only if the
/// mouse events could not be updated, and that is fatal.
pub fn after_action(action: LoopAction, result: Result<(), String>) -> (next: LoopNext)
    ensures
        match (action, result) {
            (LoopAction::Exit, _) => next == LoopNext::Leave,
            (_, Ok(())) => next == LoopNext::Continue,
            (LoopAction::ProcessIpcMessage, Err(error)) => next == LoopNext::Log(error),
            (LoopAction::ProcessWmEvent, Err(error)) => next == LoopNext::Fail(error),
            (_, Err(error)) => next matches LoopNext::ShowError { title, message } && title@
                == "Non-fatal error"@ && message == error,
        },
        next is Leave <==> action is Exit,
        next is Continue <==> !(action is Exit) && result is Ok,
        next is Log <==> action is ProcessIpcMessage && result is Err,
        next is Fail <==> action is ProcessWmEvent && result is Err,
{
    match (action, result) {
        (LoopAction::Exit, _) => LoopNext::Leave,
        (_, Ok(())) => LoopNext::Continue,
        (LoopAction::ProcessIpcMessage, Err(error)) => LoopNext::Log(error),
        (LoopAction::ProcessWmEvent, Err(error)) => LoopNext::Fail(error),
        (_, Err(error)) => LoopNext::ShowError { title: "Non-fatal error", message: error },
    }
}

/// A mouse event that may be listened to.
#[derive(Clone, Copy, Debug, PartialEq, Eq, Structural)]
pub enum MouseEventKind {
    Move,
    LeftButtonUp,
}

/// The mouse events to listen to. Moves matter only if focus follows the cursor.
pub fn mouse_events(focus_follows_cursor: bool) -> (events: Vec<MouseEventKind>)
    ensures
        events@ == if focus_follows_cursor {
            seq![MouseEventKind::Move, MouseEventKind::LeftButtonUp]
        } else {
            seq![MouseEventKind::LeftButtonUp]
        },
        events@.last() is LeftButtonUp,
        events@[0] is Move <==> focus_follows_cursor,
{
    let mut events: Vec<MouseEventKind> = Vec::new();
    if focus_follows_cursor {
        events.push(MouseEventKind::Move);
    }
    events.push(MouseEventKind::LeftButtonUp);
    events
}

/// What follows an event of the window manager.
#[derive(Clone, Copy, Debug, PartialEq, Eq, Structural)]
pub enum WmEventAction {
    EnableMouseListener(bool),
    SetTrayActive(bool),
    UpdateTrayShortcuts,
    UpdateKeybindings,
    UpdateContinuousBindings,
    /// The only action whose failure ends the window manager.
    UpdateMouseEvents,
    /// Tells the subscribers.
    Broadcast,
}

/// The event may change which keybindings are active.
pub open spec fn changes_bindings(event: WmEvent) -> bool {
    event is UserConfigChanged || event is BindingModesChanged || event is PauseChanged
}

/// What follows an event of the window manager: a pause is shown in the tray and
/// turns the mouse listener off, changed bindings are registered, and every
/// event is broadcast.
pub open spec fn actions_after(event: WmEvent) -> Seq<WmEventAction> {
    let pause = match event {
        WmEvent::PauseChanged { is_paused } => seq![
            WmEventAction::EnableMouseListener(!is_paused),
            WmEventAction::SetTrayActive(!is_paused),
        ],
        _ => seq![],
    };
    let bindings = if changes_bindings(event) {
        seq![
            WmEventAction::UpdateTrayShortcuts,
            WmEventAction::UpdateKeybindings,
            WmEventAction::UpdateContinuousBindings,
            WmEventAction::UpdateMouseEvents,
        ]
    } else {
        seq![]
    };
    pause + bindings + seq![WmEventAction::Broadcast]
}

/// Works out what follows an event of the window manager.
pub fn wm_event_actions(event: WmEvent) -> (actions: Vec<WmEventAction>)
    ensures
        actions@ == actions_after(event),
{
    let mut actions: Vec<WmEventAction> = Vec::new();
    if let WmEvent::PauseChanged { is_paused } = event {
        actions.push(WmEventAction::EnableMouseListener(!is_paused));
        actions.push(WmEventAction::SetTrayActive(!is_paused));
    }
    let changes = match event {
        WmEvent::UserConfigChanged
        | WmEvent::BindingModesChanged
        | WmEvent::PauseChanged { .. } => true,
        _ => false,
    };
    if changes {
        actions.push(WmEventAction::UpdateTrayShortcuts);
        actions.push(WmEventAction::UpdateKeybindings);
        actions.push(WmEventAction::UpdateContinuousBindings);
        actions.push(WmEventAction::UpdateMouseEvents);
    }
    actions.push(WmEventAction::Broadcast);
    assert(actions@ =~= actions_after(event));
    actions
}

/// The keybinding only resizes.
pub open spec fn only_resizes(commands: Seq<InvokeCommand>) -> bool {
    commands.len() > 0 && forall|i: int|
        0 <= i < commands.len() ==> #[trigger] commands[i] == InvokeCommand::Resize
}

fn is_resize_only(commands: &Vec<InvokeCommand>) -> (only: bool)
    ensures
        only == only_resizes(commands@),
{
    let mut i: usize = 0;
    while i < commands.len()
        invariant
            i <= commands.len(),
            forall|k: int| 0 <= k < i ==> #[trigger] commands@[k] == InvokeCommand::Resize,
        decreases commands.len() - i,
    {
        if commands[i] != InvokeCommand::Resize {
            return false;
        }
        i += 1;
    }
    commands.len() > 0
}

/// The indexes, below `n`, of the keybindings that only resize.
pub open spec fn resize_bindings(keybindings: Seq<KeybindingConfig>, n: nat) -> Seq<usize>
    recommends
        n <= keybindings.len(),
    decreases n,
{
    if n == 0 {
        seq![]
    } else {
        let front = resize_bindings(keybindings, (n - 1) as nat);
        if only_resizes(keybindings[n - 1].commands@) {
            front.push((n - 1) as usize)
        } else {
            front
        }
    }
}

/// Which keybindings act as long as their keys are held: while the `resize`
/// binding mode is active and the manager is not paused, those that only
/// resize. They are given by their indexes.
pub fn continuous_bindings(
    is_paused: bool,
    binding_modes: &Vec<String>,
    keybindings: &Vec<KeybindingConfig>,
) -> (indexes: Vec<usize>)
    ensures
        indexes@ == if !is_paused && crate::text::texts(binding_modes@).contains("resize"@) {
            resize_bindings(keybindings@, keybindings@.len())
        } else {
            seq![]
        },
{
    let mut indexes: Vec<usize> = Vec::new();
    if is_paused || !holds_text(binding_modes, "resize") {
        return indexes;
    }
    let mut i: usize = 0;
    while i < keybindings.len()
        invariant
            i <= keybindings.len(),
            indexes@ == resize_bindings(keybindings@, i as nat),
        decreases keybindings.len() - i,
    {
        if is_resize_only(&keybindings[i].commands) {
            indexes.push(i);
        }
        i += 1;
    }
    indexes
}

/// A part of the shutdown.
#[derive(Clone, Copy, Debug, PartialEq, Eq, Structural)]
pub enum ShutdownStep {
    /// Restores the windows and tells the subscribers.
    CleanUpWm,
    DropKeybindingListener,
    DropMouseListener,
    DropDisplayListener,
    DropWindowListener,
    DropWm,
    DropTray,
    /// Closing all sockets also releases a watcher that missed the exit event.
    StopIpcServer,
    AwaitWatcher,
}

/// Lays out the shutdown: resources that are bound to the platform's thread go
/// while its loop still runs, and the watcher is waited for last.
pub fn shutdown_steps(has_watcher: bool) -> (steps: Vec<ShutdownStep>)
    ensures
        steps@ == seq![
            ShutdownStep::CleanUpWm,
            ShutdownStep::DropKeybindingListener,
            ShutdownStep::DropMouseListener,
            ShutdownStep::DropDisplayListener,
            ShutdownStep::DropWindowListener,
            ShutdownStep::DropWm,
            ShutdownStep::DropTray,
            ShutdownStep::StopIpcServer,
        ] + (if has_watcher {
            seq![ShutdownStep::AwaitWatcher]
        } else {
            seq![]
        }),
{
    let mut steps: Vec<ShutdownStep> = Vec::new();
    steps.push(ShutdownStep::CleanUpWm);
    steps.push(ShutdownStep::DropKeybindingListener);
    steps.push(ShutdownStep::DropMouseListener);
    steps.push(ShutdownStep::DropDisplayListener);
    steps.push(ShutdownStep::DropWindowListener);
    steps.push(ShutdownStep::DropWm);
    steps.push(ShutdownStep::DropTray);
    steps.push(ShutdownStep::StopIpcServer);
    if has_watcher {
        steps.push(ShutdownStep::AwaitWatcher);
    }
    steps
}

/// What became of the watcher while it was waited for.
#[derive(Clone, Copy, Debug, PartialEq, Eq, Structural)]
pub enum WatcherExit {
    Exited,
    /// Its state could not be read.
    Failed,
    /// It did not exit in time.
    TimedOut,
}

/// Whether the watcher has to be killed.
pub fn must_kill_watcher(exit: WatcherExit) -> (kill: bool)
    ensures
        kill == !(exit is Exited),
{
    !matches!(exit, WatcherExit::Exited)
}

/// The shell that is asked for the search path.
pub fn login_shell(configured: Option<String>) -> (shell: String)
    ensures
        shell@ == match configured {
            Some(shell) => shell@,
            None => "/bin/zsh"@,
        },
{
    match configured {
        Some(shell) => shell,
        None => String::from_str("/bin/zsh"),
    }
}

/// The search path that the login shell printed, if it ran, succeeded and
/// printed any text. Otherwise the search path stays as it is.
pub fn queried_path(succeeded: bool, stdout: Vec<u8>) -> (path: Option<String>)
    ensures
        path is Some <==> succeeded && vstd::utf8::valid_utf8(stdout@) && stdout@.len() > 0,
        path matches Some(path) ==> vstd::utf8::encode_utf8(path@) == stdout@,
{
    if !succeeded || stdout.len() == 0 {
        return None;
    }
    utf8_text(stdout)
}

/// Every event of the window manager reaches the subscribers, and last of all.
pub proof fn law_every_event_is_broadcast(event: WmEvent)
    ensures
        actions_after(event).last() is Broadcast,
{
}

/// A keybinding that does anything but resize is never a continuous one.
pub proof fn law_continuous_bindings_only_resize(
    keybindings: Seq<KeybindingConfig>,
    n: nat,
    i: int,
)
    requires
        n <= keybindings.len(),
        n <= usize::MAX,
        0 <= i < resize_bindings(keybindings, n).len(),
    ensures
        resize_bindings(keybindings, n)[i] < n,
        only_resizes(keybindings[resize_bindings(keybindings, n)[i] as int].commands@),
    decreases n,
{
    let m = (n - 1) as nat;
    if i < resize_bindings(keybindings, m).len() {
        law_continuous_bindings_only_resize(keybindings, m, i);
    }
}

/// The mouse listener and the tray are active exactly while the manager is not
/// paused, and they change only with the pause. Bindings are registered anew
/// exactly when the configuration, the binding modes or the pause have changed.
pub proof fn law_events_have_their_consequences(event: WmEvent, active: bool)
    ensures
        ({
            let actions = actions_after(event);
            let paused = event == (WmEvent::PauseChanged { is_paused: !active });
            let rebinds = event is UserConfigChanged || event is BindingModesChanged || event
                is PauseChanged;
            &&& actions.contains(WmEventAction::EnableMouseListener(active)) <==> paused
            &&& actions.contains(WmEventAction::SetTrayActive(active)) <==> paused
            &&& actions.contains(WmEventAction::UpdateTrayShortcuts) <==> rebinds
            &&& actions.contains(WmEventAction::UpdateKeybindings) <==> rebinds
            &&& actions.contains(WmEventAction::UpdateContinuousBindings) <==> rebinds
            &&& actions.contains(WmEventAction::UpdateMouseEvents) <==> rebinds
            &&& actions.no_duplicates()
        }),
{
    let actions = actions_after(event);
    if event is PauseChanged {
        assert(actions.len() == 7);
        assert(actions[0] == WmEventAction::EnableMouseListener(!event->is_paused));
        assert(actions[1] == WmEventAction::SetTrayActive(!event->is_paused));
        assert(actions[2] is UpdateTrayShortcuts);
        assert(actions[3] is UpdateKeybindings);
        assert(actions[4] is UpdateContinuousBindings);
        assert(actions[5] is UpdateMouseEvents);
        assert(actions[6] is Broadcast);
    } else if event is UserConfigChanged || event is BindingModesChanged {
        assert(actions.len() == 5);
        assert(actions[0] is UpdateTrayShortcuts);
        assert(actions[1] is UpdateKeybindings);
        assert(actions[2] is UpdateContinuousBindings);
        assert(actions[3] is UpdateMouseEvents);
        assert(actions[4] is Broadcast);
    } else {
        assert(actions.len() == 1);
        assert(actions[0] is Broadcast);
    }
}

/// The continuous bindings are exactly those that have commands and only
/// resize, in order.
pub proof fn law_resize_bindings_are_continuous(
    keybindings: Seq<KeybindingConfig>,
    n: nat,
) -> (places: Seq<int>)
    requires
        n <= keybindings.len(),
        n <= usize::MAX,
    ensures
        crate::selection::selects(
            places,
            n as int,
            |i: int|
                keybindings[i].commands@.len() > 0 && forall|k: int|
                    0 <= k < keybindings[i].commands@.len() ==> (
                    #[trigger] keybindings[i].commands@[k]) is Resize,
        ),
        resize_bindings(keybindings, n).len() == places.len(),
        forall|k: int|
            0 <= k < places.len() ==> #[trigger] resize_bindings(keybindings, n)[k] == places[k],
    decreases n,
{
    if n == 0 {
        Seq::empty()
    } else {
        let m = (n - 1) as nat;
        let before = law_resize_bindings_are_continuous(keybindings, m);
        let wanted = |i: int|
            keybindings[i].commands@.len() > 0 && forall|k: int|
                0 <= k < keybindings[i].commands@.len() ==> (
                #[trigger] keybindings[i].commands@[k]) is Resize;
        let places = crate::selection::lemma_select_next(before, m as int, wanted, wanted);
        assert(wanted(m as int) == only_resizes(keybindings[m as int].commands@));
        let all = resize_bindings(keybindings, n);
        assert forall|k: int| 0 <= k < before.len() implies #[trigger] all[k] == places[k] by {
            assert(resize_bindings(keybindings, m)[k] == before[k]);
        }
        places
    }
}

} // verus!
