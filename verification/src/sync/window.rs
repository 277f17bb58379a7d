//! Redrawing one window.
//!
//! A redraw alternates between deciding and asking: it hands out the actions to
//! perform so far and then either ends or asks one question of the native
//! window or of the animations. What the next actions are depends on the
//! answer.
use vstd::prelude::*;

use crate::geometry::Rect;
use crate::model::{
    ContainerId, CornerStyle, DisplayState, HideCorner, HideMethod, NativeHandle, SyncError,
    WindowState, WindowZOrder,
};
use crate::platform::window_flags::{PREPOSITION_FLAGS, SWP_FRAMECHANGED};
use crate::sync::effects::WindowEffectsConfig;

verus! {

/// Settings that hold for all windows of a redraw.
#[derive(Clone, Copy, Debug, PartialEq, Eq, Structural)]
pub struct RedrawContext {
    /// Animations are skipped, for instance after a change of display settings.
    pub suppress_animations: bool,
    /// Some window of this redraw changes its size.
    pub cycle_has_resize: bool,
    pub hide_method: HideMethod,
    pub show_all_in_taskbar: bool,
    pub resize_animation_enabled: bool,
    pub move_animation_enabled: bool,
    pub open_animation_enabled: bool,
    pub switch_animation_enabled: bool,
}

/// A window's workspace as far as its redraw is concerned.
#[derive(Clone, Copy, Debug, PartialEq, Eq, Structural)]
pub struct WorkspaceFacts {
    pub displayed: bool,
    /// The most recently focused descendant, if that is a window.
    pub focused_window: Option<FocusedWindow>,
}

/// A window that has focus.
#[derive(Clone, Copy, Debug, PartialEq, Eq, Structural)]
pub struct FocusedWindow {
    pub id: ContainerId,
    pub handle: NativeHandle,
}

/// A slide across a monitor.
#[derive(Clone, Copy, Debug, PartialEq, Eq, Structural)]
pub struct Slide {
    pub bounds: Rect,
    pub direction: i32,
}

/// A window's monitor as far as its redraw is concerned.
#[derive(Clone, Copy, Debug, PartialEq, Eq, Structural)]
pub struct MonitorFacts {
    /// The monitor's native bounds.
    pub bounds: Rect,
    /// The monitor's place in the layout, if it is known.
    pub rect: Option<Rect>,
}

/// What is known of a window before its redraw.
#[derive(Clone, Copy, Debug, PartialEq, Eq, Structural)]
pub struct WindowFacts {
    pub id: ContainerId,
    pub state: WindowState,
    pub display_state: DisplayState,
    /// The window is to be brought to the front.
    pub raise: bool,
    /// The window is to be redrawn, and not only brought to the front.
    pub redraw: bool,
    pub workspace: Option<WorkspaceFacts>,
    pub monitor: Option<MonitorFacts>,
    pub hide_corner: Option<HideCorner>,
    /// The window's frame in the layout, if it is known.
    pub target: Option<Rect>,
    /// The frame that the window was last sent to.
    pub previous_target: Option<Rect>,
    /// The window's state was changed by a command.
    pub state_change: bool,
    /// The window is carried to another workspace, in this direction.
    pub transfer: Option<i32>,
    /// The window leaves the screen in a workspace switch.
    pub outgoing: bool,
    /// The window is being dragged.
    pub dragged: bool,
    /// The window's geometry was already applied in a live resize.
    pub live_resized: bool,
    /// The opacity that the window's effects ask for.
    pub opacity: u8,
    pub corner_style: CornerStyle,
}

/// What is to be done, in the order in which it is handed out. Failures are
/// reported and do not end the redraw.
#[derive(Clone, Copy, Debug, PartialEq, Eq, Structural)]
pub enum Action {
    SetZOrder(WindowZOrder),
    /// Ends the window's animation, whichever it is.
    RemoveAnimation,
    /// Ends the window's own animation, and leaves a workspace switch alone.
    RemoveWindowAnimation,
    SetDisplayState(DisplayState),
    /// Remembers the frame that the window is sent to.
    RecordTarget(Rect),
    /// Notes that the window is no longer natively maximized.
    ClearMaximized,
    StartOpenAnimation { target: Rect, monitor: Rect, opacity: u8, corner_style: CornerStyle },
    SetCloaked(bool),
    SetWindowPos { z_order: WindowZOrder, rect: Rect, flags: u32 },
    /// Notes in the window's resize session that the window is cloaked.
    MarkSessionCloaked,
    /// Hides the thumbnail that a finished workspace switch left for the window.
    HidePendingSurrogate,
    /// Applies the opacity that the animation gave for this frame.
    ApplyAnimatedOpacity,
    /// Tells the taskbar whether the window is fullscreen.
    MarkFullscreen(bool),
    SetTaskbarVisibility(bool),
}

/// What a redraw needs to know, or needs to succeed, before it goes on.
#[derive(Clone, Copy, Debug, PartialEq, Eq, Structural)]
pub enum Question {
    /// Whether the window was natively minimized in the meantime.
    NativelyMinimized,
    /// The window's frame in the running workspace switch.
    SwitchRect,
    /// Whether the window is natively maximized.
    Maximized,
    /// Whether the window is natively minimized.
    Minimized,
    /// Restores the window to the frame.
    Restore(Rect),
    /// Whether the window is an incoming one of the running workspace switch.
    IncomingThumbnail,
    /// Whether the window has a resize session and an unfinished animation.
    SlideIn,
    /// Hands the window to its animation.
    Animate {
        resize: bool,
        cycle_has_resize: bool,
        target: Rect,
        previous: Option<Rect>,
        transfer: Option<Slide>,
        opacity: u8,
        corner_style: CornerStyle,
    },
    /// Whether the window's resize session knows that the window is cloaked.
    SessionCloaked,
    /// Whether the window is natively cloaked.
    Cloaked,
    /// Whether the window has a resize session.
    ResizeSession,
    /// The native frame of a window that an animation covers.
    FrozenFrame,
    /// What the resize session asks of the covered window.
    SessionFlags,
    /// Whether the window's animation already left it at the frame.
    PreCommitted(Rect),
    /// The native frame of a window that is about to be placed.
    AppliedFrame,
    /// Moves the window to the frame.
    Reposition(Rect),
}

/// What a resize session asks of the window that it covers.
#[derive(Clone, Copy, Debug, PartialEq, Eq, Structural)]
pub struct SessionFlags {
    pub needs_preposition: bool,
    pub move_only: bool,
}

/// What an animation wants of its window in this frame.
#[derive(Clone, Copy, Debug, PartialEq, Eq, Structural)]
pub enum AnimationPositionResult {
    /// An overlay covers the window; it stays where it is.
    Frozen,
    /// The window goes to the frame.
    Apply(Rect),
}

/// The reply to a question.
#[derive(Clone, Copy, Debug, PartialEq, Eq, Structural)]
pub enum Answer {
    /// The call succeeded.
    Done,
    /// The call failed.
    Failed,
    Truth(bool),
    Frame(Option<Rect>),
    Session(Option<SessionFlags>),
    Position { result: AnimationPositionResult, has_opacity: bool },
}

impl Answer {
    /// The answer is of the kind that the question calls for.
    pub open spec fn fits(self, question: Question) -> bool {
        match question {
            Question::NativelyMinimized
            | Question::Maximized
            | Question::Minimized
            | Question::Cloaked => self is Truth || self is Failed,
            Question::Restore(_) | Question::Reposition(_) => self is Done || self is Failed,
            Question::SwitchRect | Question::FrozenFrame | Question::AppliedFrame => self is Frame,
            Question::IncomingThumbnail
            | Question::SlideIn
            | Question::SessionCloaked
            | Question::ResizeSession
            | Question::PreCommitted(_) => self is Truth,
            Question::Animate { .. } => self is Position,
            Question::SessionFlags => self is Session,
        }
    }
}

/// How a redraw goes on.
#[derive(Clone, Copy, Debug, PartialEq, Eq, Structural)]
pub enum Next {
    Ask(Question),
    Done,
    Fail(SyncError),
}

/// A redraw in progress.
#[derive(Clone, Copy, Debug, PartialEq, Eq, Structural)]
pub struct WindowRedraw {
    pub context: RedrawContext,
    pub facts: WindowFacts,
    pub question: Question,
    pub z_order: WindowZOrder,
    pub display_state: DisplayState,
    pub target: Rect,
    pub previous: Option<Rect>,
    /// The window is an incoming one of the running workspace switch.
    pub frozen: bool,
    pub applied: Rect,
    pub has_opacity: bool,
}

/// A redraw after a decision: where it stands, what it hands out, and how it
/// goes on.
#[verifier::ext_equal]
pub struct Outcome {
    pub redraw: WindowRedraw,
    pub actions: Seq<Action>,
    pub next: Next,
}

impl WindowFacts {
    /// Where the window belongs in the stacking order. Windows that are shown
    /// on top stay there; a raised window goes below the window that its
    /// workspace has focused, unless it is that window.
    pub open spec fn z_order(self) -> WindowZOrder {
        let on_top = match self.state {
            WindowState::Floating(config) => config.shown_on_top,
            WindowState::Fullscreen(config) => config.shown_on_top,
            _ => false,
        };
        if on_top {
            WindowZOrder::TopMost
        } else {
            match self.workspace {
                Some(WorkspaceFacts { focused_window: Some(focused), .. })
                    if self.raise && focused.id != self.id => WindowZOrder::AfterWindow(focused.handle),
                _ => WindowZOrder::Normal,
            }
        }
    }

    /// The window's workspace is on screen.
    pub open spec fn displayed(self) -> bool {
        self.workspace matches Some(workspace) && workspace.displayed
    }

    /// The window has a workspace, a monitor and a hide corner.
    pub open spec fn located(self) -> bool {
        self.workspace is Some && self.monitor is Some && self.hide_corner is Some
    }

    /// Takes the opacity and the corners from the window's effects, which an
    /// overlay of the window has to match.
    pub fn with_effects(self, effects: &WindowEffectsConfig, focused: ContainerId) -> (facts:
        WindowFacts)
        ensures
            facts == (WindowFacts {
                opacity: effects.of_window(self.id == focused).effective_opacity(),
                corner_style: effects.of_window(self.id == focused).effective_corner_style(),
                ..self
            }),
    {
        let own = effects.for_window(self.id == focused);
        WindowFacts { opacity: own.alpha(), corner_style: own.corners(), ..self }
    }

    fn target_z_order(&self) -> (z_order: WindowZOrder)
        ensures
            z_order == self.z_order(),
    {
        match self.state {
            WindowState::Floating(config) if config.shown_on_top => WindowZOrder::TopMost,
            WindowState::Fullscreen(config) if config.shown_on_top => WindowZOrder::TopMost,
            _ => {
                if !self.raise {
                    return WindowZOrder::Normal;
                }
                match self.workspace {
                    Some(WorkspaceFacts { focused_window: Some(focused), .. }) => if focused.id == self.id {
                        WindowZOrder::Normal
                    } else {
                        WindowZOrder::AfterWindow(focused.handle)
                    },
                    _ => WindowZOrder::Normal,
                }
            },
        }
    }
}

impl WindowRedraw {
    /// The redraw of a window about which nothing has been asked yet.
    pub open spec fn fresh(context: RedrawContext, facts: WindowFacts) -> WindowRedraw {
        let nowhere = Rect { left: 0, top: 0, right: 0, bottom: 0 };
        WindowRedraw {
            context,
            facts,
            question: Question::NativelyMinimized,
            z_order: facts.z_order(),
            display_state: facts.display_state,
            target: nowhere,
            previous: None,
            frozen: false,
            applied: nowhere,
            has_opacity: false,
        }
    }

    pub open spec fn asking(self, actions: Seq<Action>, question: Question) -> Outcome {
        Outcome { redraw: WindowRedraw { question, ..self }, actions, next: Next::Ask(question) }
    }

    pub open spec fn ending(self, actions: Seq<Action>, next: Next) -> Outcome {
        Outcome { redraw: self, actions, next }
    }

    /// The window's size changes with this redraw.
    pub open spec fn resized(self) -> bool {
        self.previous matches Some(previous) && (previous.spec_width() != self.target.spec_width()
            || previous.spec_height() != self.target.spec_height())
    }

    /// Animations of this kind of change are enabled.
    pub open spec fn animation_enabled(self) -> bool {
        if self.resized() {
            self.context.resize_animation_enabled
        } else {
            self.context.move_animation_enabled
        }
    }

    /// A window that appears for the first time slides in, unless it is
    /// floating or fullscreen or animations are off.
    pub open spec fn opens(self) -> bool {
        &&& self.previous is None
        &&& self.display_state.visible()
        &&& self.facts.state !is Floating
        &&& self.facts.state !is Fullscreen
        &&& !self.facts.outgoing
        &&& !self.frozen
        &&& !self.context.suppress_animations
        &&& self.context.open_animation_enabled
    }

    /// The window may be animated on its own account: it is on screen, neither
    /// fullscreen nor minimized, and animations are not suppressed.
    pub open spec fn animatable(self) -> bool {
        &&& self.facts.state !is Fullscreen
        &&& self.facts.state !is Minimized
        &&& self.display_state.visible()
        &&& !self.context.suppress_animations
    }

    /// The window is animated in this redraw. One that a workspace switch has
    /// frozen stays on the animation path whatever its state; a floating window
    /// is animated only when it changes its state or its workspace.
    pub open spec fn animated(self, slide_in: bool) -> bool {
        &&& !self.facts.dragged
        &&& !self.facts.outgoing
        &&& self.frozen || self.animatable() && (slide_in || self.animation_enabled() && (
        self.facts.state !is Floating || self.facts.state_change || self.facts.transfer is Some))
    }

    /// The slide that carries the window to its new workspace.
    pub open spec fn transfer(self) -> Option<Slide> {
        match (self.facts.transfer, self.facts.monitor) {
            (Some(direction), Some(monitor)) if direction != 0
                && self.context.switch_animation_enabled => Some(
                Slide { bounds: monitor.bounds, direction },
            ),
            _ => None,
        }
    }

    pub open spec fn began(context: RedrawContext, facts: WindowFacts) -> Outcome {
        let redraw = Self::fresh(context, facts);
        if facts.workspace is None {
            redraw.ending(seq![], Next::Fail(SyncError::WindowHasNoWorkspace))
        } else if facts.monitor is None {
            redraw.ending(seq![], Next::Fail(SyncError::NoMonitor))
        } else if facts.hide_corner is None {
            redraw.ending(seq![], Next::Fail(SyncError::NoHideCorner))
        } else if !facts.redraw {
            if facts.raise {
                redraw.ending(seq![Action::SetZOrder(facts.z_order())], Next::Done)
            } else {
                redraw.ending(seq![], Next::Done)
            }
        } else if facts.state !is Minimized && !facts.state_change {
            redraw.asking(seq![], Question::NativelyMinimized)
        } else {
            redraw.transitioned(seq![])
        }
    }

    pub open spec fn transitioned(self, actions: Seq<Action>) -> Outcome {
        let display_state = self.facts.display_state.after(self.facts.displayed());
        let redraw = WindowRedraw { display_state, ..self };
        let actions = actions.push(Action::SetDisplayState(display_state));
        match self.facts.target {
            None => redraw.ending(actions, Next::Fail(SyncError::NoPlacement)),
            Some(target) => {
                let redraw = WindowRedraw { target, ..redraw };
                if self.facts.transfer is Some {
                    redraw.asking(actions, Question::SwitchRect)
                } else {
                    redraw.recorded(actions, self.facts.previous_target)
                }
            },
        }
    }

    pub open spec fn recorded(self, actions: Seq<Action>, previous: Option<Rect>) -> Outcome {
        let redraw = WindowRedraw { previous, ..self };
        let actions = actions.push(Action::RecordTarget(self.target));
        if self.facts.live_resized {
            redraw.ending(actions, Next::Done)
        } else {
            let actions = if self.facts.dragged {
                actions.push(Action::RemoveAnimation)
            } else if self.facts.state is Fullscreen {
                actions.push(Action::RemoveWindowAnimation)
            } else {
                actions
            };
            if self.facts.state is Tiling || self.facts.state is Floating {
                redraw.asking(actions, Question::Maximized)
            } else {
                redraw.settled(actions)
            }
        }
    }

    pub open spec fn settled(self, actions: Seq<Action>) -> Outcome {
        if self.facts.transfer is None {
            self.asking(actions, Question::IncomingThumbnail)
        } else {
            self.opened(actions, false)
        }
    }

    pub open spec fn opened(self, actions: Seq<Action>, frozen: bool) -> Outcome {
        let redraw = WindowRedraw { frozen, ..self };
        if redraw.opens() {
            match self.facts.monitor {
                Some(MonitorFacts { rect: Some(monitor), .. }) => redraw.asking(
                    actions.push(
                        Action::StartOpenAnimation {
                            target: self.target,
                            monitor,
                            opacity: self.facts.opacity,
                            corner_style: self.facts.corner_style,
                        },
                    ),
                    Question::SlideIn,
                ),
                _ => redraw.ending(actions, Next::Fail(SyncError::NoPlacement)),
            }
        } else {
            redraw.asking(actions, Question::SlideIn)
        }
    }

    pub open spec fn positioned(self, actions: Seq<Action>, slide_in: bool) -> Outcome {
        if !self.animated(slide_in) {
            self.placed(actions.push(Action::RemoveWindowAnimation), self.target, false)
        } else if self.frozen {
            self.asking(actions, Question::SessionCloaked)
        } else {
            self.asking(
                actions,
                Question::Animate {
                    resize: self.resized(),
                    cycle_has_resize: self.context.cycle_has_resize,
                    target: self.target,
                    previous: self.previous,
                    transfer: self.transfer(),
                    opacity: self.facts.opacity,
                    corner_style: self.facts.corner_style,
                },
            )
        }
    }

    pub open spec fn placed(
        self,
        actions: Seq<Action>,
        applied: Rect,
        has_opacity: bool,
    ) -> Outcome {
        let redraw = WindowRedraw { applied, has_opacity, ..self };
        if self.display_state.visible() {
            redraw.asking(actions, Question::PreCommitted(applied))
        } else {
            redraw.asking(actions, Question::Reposition(applied))
        }
    }

    pub open spec fn revealed(self, actions: Seq<Action>) -> Outcome {
        let actions = if self.display_state.visible() {
            actions.push(Action::SetCloaked(false)).push(Action::HidePendingSurrogate)
        } else {
            actions
        };
        let actions = if self.has_opacity {
            actions.push(Action::ApplyAnimatedOpacity)
        } else {
            actions
        };
        self.finished(actions)
    }

    pub open spec fn finished(self, actions: Seq<Action>) -> Outcome {
        let borderless = self.facts.state matches WindowState::Fullscreen(config)
            && !config.maximized;
        let actions = actions.push(Action::MarkFullscreen(borderless));
        let actions = if self.context.hide_method is Cloak && !self.context.show_all_in_taskbar && (
        self.display_state is Showing || self.display_state is Hiding) {
            actions.push(Action::SetTaskbarVisibility(self.display_state.visible()))
        } else {
            actions
        };
        self.ending(actions, Next::Done)
    }

    /// What follows from the answer to the question that is open.
    pub open spec fn resumed(self, answer: Answer) -> Outcome {
        let none = Seq::<Action>::empty();
        match self.question {
            Question::NativelyMinimized => match answer {
                Answer::Truth(true) => self.ending(seq![Action::RemoveAnimation], Next::Done),
                Answer::Truth(false) => self.transitioned(none),
                _ => self.ending(none, Next::Fail(SyncError::Native)),
            },
            Question::SwitchRect => match answer {
                Answer::Frame(Some(rect)) => self.recorded(none, Some(rect)),
                _ => self.recorded(none, self.facts.previous_target),
            },
            Question::Maximized => match answer {
                Answer::Truth(true) => self.asking(
                    seq![Action::RemoveWindowAnimation],
                    Question::Restore(self.target),
                ),
                Answer::Truth(false) => self.asking(none, Question::Minimized),
                _ => self.ending(none, Next::Fail(SyncError::Native)),
            },
            Question::Minimized => match answer {
                Answer::Truth(true) => self.asking(
                    seq![Action::RemoveWindowAnimation],
                    Question::Restore(self.target),
                ),
                Answer::Truth(false) => self.settled(none),
                _ => self.ending(none, Next::Fail(SyncError::Native)),
            },
            Question::Restore(_) => match answer {
                Answer::Done => self.settled(seq![Action::ClearMaximized]),
                _ => self.ending(none, Next::Fail(SyncError::Native)),
            },
            Question::IncomingThumbnail => self.opened(none, answer == Answer::Truth(true)),
            Question::SlideIn => self.positioned(none, answer == Answer::Truth(true)),
            Question::Animate { .. } => match answer {
                Answer::Position {
                    result: AnimationPositionResult::Apply(rect),
                    has_opacity,
                } => self.placed(none, rect, has_opacity),
                _ => self.asking(none, Question::SessionCloaked),
            },
            Question::SessionCloaked => if answer == Answer::Truth(true) {
                self.finished(none)
            } else {
                self.asking(none, Question::Cloaked)
            },
            Question::Cloaked => if answer == Answer::Truth(true) {
                self.asking(none, Question::ResizeSession)
            } else {
                self.asking(seq![Action::SetCloaked(true)], Question::ResizeSession)
            },
            Question::ResizeSession => if answer == Answer::Truth(true) {
                self.asking(none, Question::SessionFlags)
            } else {
                self.asking(none, Question::FrozenFrame)
            },
            Question::FrozenFrame => if answer == Answer::Frame(Some(self.target)) {
                self.finished(none)
            } else {
                self.finished(
                    seq![
                        Action::SetWindowPos {
                            z_order: self.z_order,
                            rect: self.target,
                            flags: PREPOSITION_FLAGS | SWP_FRAMECHANGED,
                        },
                    ],
                )
            },
            Question::SessionFlags => match answer {
                Answer::Session(Some(SessionFlags { needs_preposition: true, move_only })) => {
                    self.finished(
                        seq![
                            Action::SetWindowPos {
                                z_order: self.z_order,
                                rect: self.target,
                                flags: if move_only {
                                    PREPOSITION_FLAGS
                                } else {
                                    PREPOSITION_FLAGS | SWP_FRAMECHANGED
                                },
                            },
                            Action::MarkSessionCloaked,
                        ],
                    )
                },
                _ => self.finished(seq![Action::MarkSessionCloaked]),
            },
            Question::PreCommitted(_) => if answer == Answer::Truth(true) {
                self.asking(none, Question::AppliedFrame)
            } else {
                self.asking(none, Question::Reposition(self.applied))
            },
            Question::AppliedFrame => if answer == Answer::Frame(Some(self.applied)) {
                self.revealed(none)
            } else {
                self.asking(none, Question::Reposition(self.applied))
            },
            Question::Reposition(_) => self.revealed(none),
        }
    }

    /// The question belongs to the covering of the window by an animation.
    pub open spec fn covering(self) -> bool {
        ||| self.question is SessionCloaked
        ||| self.question is Cloaked
        ||| self.question is ResizeSession
        ||| self.question is FrozenFrame
        ||| self.question is SessionFlags
    }

    /// What holds of every redraw that waits for an answer.
    pub open spec fn well_formed(self) -> bool {
        &&& self.facts.located()
        &&& self.facts.redraw
        &&& self.z_order == self.facts.z_order()
        &&& self.frozen ==> self.facts.transfer is None
        &&& if self.question is NativelyMinimized {
            &&& self.facts.state !is Minimized
            &&& !self.facts.state_change
        } else {
            &&& self.facts.target == Some(self.target)
            &&& self.display_state == self.facts.display_state.after(self.facts.displayed())
        }
        &&& self.question is SwitchRect ==> self.facts.transfer is Some
        &&& self.question is IncomingThumbnail ==> self.facts.transfer is None
        &&& !(self.question is NativelyMinimized || self.question is SwitchRect)
            ==> !self.facts.live_resized
        &&& self.question is Maximized || self.question is Minimized || self.question is Restore
            ==> self.facts.state is Tiling || self.facts.state is Floating
        &&& self.covering() || self.question is Animate ==> {
            &&& !self.facts.dragged
            &&& !self.facts.outgoing
            &&& self.frozen || self.animatable()
        }
        &&& self.question is Animate ==> !self.frozen
        &&& self.question is PreCommitted || self.question is AppliedFrame
            ==> self.display_state.visible()
        &&& self.question matches Question::Restore(rect) ==> rect == self.target
        &&& self.question matches Question::PreCommitted(rect) ==> rect == self.applied
        &&& self.question matches Question::Reposition(rect) ==> rect == self.applied
    }

    /// How far the redraw has come. It never goes back.
    pub open spec fn rank(self) -> nat {
        match self.question {
            Question::NativelyMinimized => 0,
            Question::SwitchRect => 1,
            Question::Maximized => 2,
            Question::Minimized => 3,
            Question::Restore(_) => 4,
            Question::IncomingThumbnail => 5,
            Question::SlideIn => 6,
            Question::Animate { .. } => 7,
            Question::SessionCloaked => 8,
            Question::Cloaked => 9,
            Question::ResizeSession => 10,
            Question::FrozenFrame => 11,
            Question::SessionFlags => 12,
            Question::PreCommitted(_) => 13,
            Question::AppliedFrame => 14,
            Question::Reposition(_) => 15,
        }
    }
}

impl WindowRedraw {
    /// The window's place and its target are known.
    spec fn underway(self) -> bool {
        &&& self.facts.located()
        &&& self.facts.redraw
        &&& self.z_order == self.facts.z_order()
        &&& self.facts.target == Some(self.target)
        &&& self.display_state == self.facts.display_state.after(self.facts.displayed())
        &&& self.frozen ==> self.facts.transfer is None
    }

    /// The outcome, if it asks, is a well-formed redraw of at least this rank.
    spec fn comes_to(outcome: Outcome, rank: nat) -> bool {
        outcome.next matches Next::Ask(question) ==> {
            &&& outcome.redraw.question == question
            &&& outcome.redraw.well_formed()
            &&& outcome.redraw.rank() >= rank
        }
    }

    proof fn lemma_positioned(self, actions: Seq<Action>, slide_in: bool)
        requires
            self.underway(),
            !self.facts.live_resized,
        ensures
            Self::comes_to(self.positioned(actions, slide_in), 7),
    {
    }

    proof fn lemma_settled(self, actions: Seq<Action>)
        requires
            self.underway(),
            !self.facts.live_resized,
        ensures
            Self::comes_to(self.settled(actions), 5),
    {
    }

    proof fn lemma_recorded(self, actions: Seq<Action>, previous: Option<Rect>)
        requires
            self.underway(),
        ensures
            Self::comes_to(self.recorded(actions, previous), 2),
    {
        let redraw = WindowRedraw { previous, ..self };
        if !self.facts.live_resized {
            assert forall|actions: Seq<Action>| Self::comes_to(
                #[trigger] redraw.settled(actions),
                5,
            ) by {
                redraw.lemma_settled(actions);
            }
        }
    }

    proof fn lemma_transitioned(self, actions: Seq<Action>)
        requires
            self.facts.located(),
            self.facts.redraw,
            self.z_order == self.facts.z_order(),
            self.frozen ==> self.facts.transfer is None,
        ensures
            Self::comes_to(self.transitioned(actions), 1),
    {
        let display_state = self.facts.display_state.after(self.facts.displayed());
        if let Some(target) = self.facts.target {
            let redraw = WindowRedraw { display_state, target, ..self };
            redraw.lemma_recorded(
                actions.push(Action::SetDisplayState(display_state)),
                self.facts.previous_target,
            );
        }
    }

    proof fn lemma_opened(self, actions: Seq<Action>, frozen: bool)
        requires
            self.underway(),
            !self.facts.live_resized,
            frozen ==> self.facts.transfer is None,
        ensures
            Self::comes_to(self.opened(actions, frozen), 6),
    {
    }

    proof fn lemma_resumed_early(self, answer: Answer)
        requires
            self.well_formed(),
            answer.fits(self.question),
            self.rank() <= 4,
        ensures
            Self::comes_to(self.resumed(answer), self.rank() + 1),
    {
        let none = Seq::<Action>::empty();
        match self.question {
            Question::NativelyMinimized => self.lemma_transitioned(none),
            Question::SwitchRect => {
                self.lemma_recorded(none, self.facts.previous_target);
                if let Answer::Frame(Some(rect)) = answer {
                    self.lemma_recorded(none, Some(rect));
                }
            },
            Question::Minimized => self.lemma_settled(none),
            Question::Restore(_) => self.lemma_settled(seq![Action::ClearMaximized]),
            _ => {},
        }
    }

    proof fn lemma_resumed_animating(self, answer: Answer)
        requires
            self.well_formed(),
            answer.fits(self.question),
            5 <= self.rank() <= 7,
        ensures
            Self::comes_to(self.resumed(answer), self.rank() + 1),
    {
        let none = Seq::<Action>::empty();
        match self.question {
            Question::IncomingThumbnail => self.lemma_opened(none, answer == Answer::Truth(true)),
            Question::SlideIn => self.lemma_positioned(none, answer == Answer::Truth(true)),
            _ => {},
        }
    }

    #[verifier::rlimit(30)]
    proof fn lemma_resumed_late(self, answer: Answer)
        requires
            self.well_formed(),
            answer.fits(self.question),
            8 <= self.rank(),
        ensures
            Self::comes_to(self.resumed(answer), self.rank() + 1),
    {
    }

    /// A decision keeps the redraw well-formed and brings it forward.
    proof fn lemma_resumed(self, answer: Answer)
        requires
            self.well_formed(),
            answer.fits(self.question),
        ensures
            Self::comes_to(self.resumed(answer), self.rank() + 1),
    {
        if self.rank() <= 4 {
            self.lemma_resumed_early(answer);
        } else if self.rank() <= 7 {
            self.lemma_resumed_animating(answer);
        } else {
            self.lemma_resumed_late(answer);
        }
    }

    fn ask(&mut self, question: Question) -> (next: Next)
        ensures
            *final(self) == (WindowRedraw { question, ..*old(self) }),
            next == Next::Ask(question),
    {
        self.question = question;
        Next::Ask(question)
    }

    /// Starts the redraw of a window.
    ///
    /// A window that is only to be brought to the front has its z-order set and
    /// is done. One that was natively minimized in the meantime is left to its
    /// own event.
    pub fn begin(context: RedrawContext, facts: WindowFacts) -> (result: (
        WindowRedraw,
        Vec<Action>,
        Next,
    ))
        ensures
            (Outcome { redraw: result.0, actions: result.1@, next: result.2 }) == Self::began(
                context,
                facts,
            ),
            result.2 matches Next::Ask(question) ==> result.0.question == question
                && result.0.well_formed(),
    {
        let nowhere = Rect { left: 0, top: 0, right: 0, bottom: 0 };
        let mut actions: Vec<Action> = Vec::new();
        let mut redraw = WindowRedraw {
            context,
            facts,
            question: Question::NativelyMinimized,
            z_order: WindowZOrder::Normal,
            display_state: facts.display_state,
            target: nowhere,
            previous: None,
            frozen: false,
            applied: nowhere,
            has_opacity: false,
        };
        redraw.z_order = facts.target_z_order();
        let workspace = match facts.workspace {
            Some(workspace) => workspace,
            None => return (redraw, actions, Next::Fail(SyncError::WindowHasNoWorkspace)),
        };
        if facts.monitor.is_none() {
            return (redraw, actions, Next::Fail(SyncError::NoMonitor));
        }
        if facts.hide_corner.is_none() {
            return (redraw, actions, Next::Fail(SyncError::NoHideCorner));
        }
        if !facts.redraw {
            if facts.raise {
                actions.push(Action::SetZOrder(redraw.z_order));
            }
            return (redraw, actions, Next::Done);
        }
        let next = if !facts.state.is_minimized() && !facts.state_change {
            redraw.ask(Question::NativelyMinimized)
        } else {
            redraw.transition(&mut actions, workspace)
        };
        (redraw, actions, next)
    }

    /// Moves the display state along with the workspace.
    fn transition(&mut self, actions: &mut Vec<Action>, workspace: WorkspaceFacts) -> (next: Next)
        requires
            old(self).facts.workspace == Some(workspace),
        ensures
            (Outcome { redraw: *final(self), actions: final(actions)@, next }) == old(
                self,
            ).transitioned(old(actions)@),
    {
        self.display_state = self.facts.display_state.transition(workspace.displayed);
        actions.push(Action::SetDisplayState(self.display_state));
        match self.facts.target {
            None => Next::Fail(SyncError::NoPlacement),
            Some(target) => {
                self.target = target;
                if self.facts.transfer.is_some() {
                    self.ask(Question::SwitchRect)
                } else {
                    self.record(actions, self.facts.previous_target)
                }
            },
        }
    }

    /// Remembers the target and ends animations that must not go on.
    fn record(&mut self, actions: &mut Vec<Action>, previous: Option<Rect>) -> (next: Next)
        ensures
            (Outcome { redraw: *final(self), actions: final(actions)@, next }) == old(
                self,
            ).recorded(old(actions)@, previous),
    {
        self.previous = previous;
        actions.push(Action::RecordTarget(self.target));
        if self.facts.live_resized {
            return Next::Done;
        }
        if self.facts.dragged {
            actions.push(Action::RemoveAnimation);
        } else if self.facts.state.is_fullscreen() {
            actions.push(Action::RemoveWindowAnimation);
        }
        if !self.facts.state.is_fullscreen() && !self.facts.state.is_minimized() {
            self.ask(Question::Maximized)
        } else {
            self.settle(actions)
        }
    }

    fn settle(&mut self, actions: &mut Vec<Action>) -> (next: Next)
        ensures
            (Outcome { redraw: *final(self), actions: final(actions)@, next }) == old(
                self,
            ).settled(old(actions)@),
    {
        if self.facts.transfer.is_none() {
            self.ask(Question::IncomingThumbnail)
        } else {
            self.open(actions, false)
        }
    }

    /// Lets a window that appears for the first time slide in.
    fn open(&mut self, actions: &mut Vec<Action>, frozen: bool) -> (next: Next)
        ensures
            (Outcome { redraw: *final(self), actions: final(actions)@, next }) == old(
                self,
            ).opened(old(actions)@, frozen),
    {
        self.frozen = frozen;
        if self.previous.is_none() && self.display_state.is_visible()
            && !self.facts.state.is_floating() && !self.facts.state.is_fullscreen()
            && !self.facts.outgoing && !self.frozen && !self.context.suppress_animations
            && self.context.open_animation_enabled {
            match self.facts.monitor {
                Some(MonitorFacts { rect: Some(monitor), .. }) => {
                    actions.push(
                        Action::StartOpenAnimation {
                            target: self.target,
                            monitor,
                            opacity: self.facts.opacity,
                            corner_style: self.facts.corner_style,
                        },
                    );
                },
                _ => return Next::Fail(SyncError::NoPlacement),
            }
        }
        self.ask(Question::SlideIn)
    }

    fn is_resize(&self) -> (resize: bool)
        ensures
            resize == self.resized(),
    {
        match self.previous {
            Some(previous) => !previous.same_size(&self.target),
            None => false,
        }
    }

    fn slide(&self) -> (slide: Option<Slide>)
        ensures
            slide == self.transfer(),
    {
        match (self.facts.transfer, self.facts.monitor) {
            (Some(direction), Some(monitor)) => if direction != 0
                && self.context.switch_animation_enabled {
                Some(Slide { bounds: monitor.bounds, direction })
            } else {
                None
            },
            _ => None,
        }
    }

    /// Decides whether the window is animated, and hands it to its animation.
    fn position(&mut self, actions: &mut Vec<Action>, slide_in: bool) -> (next: Next)
        ensures
            (Outcome { redraw: *final(self), actions: final(actions)@, next }) == old(
                self,
            ).positioned(old(actions)@, slide_in),
    {
        let resize = self.is_resize();
        let enabled = if resize {
            self.context.resize_animation_enabled
        } else {
            self.context.move_animation_enabled
        };
        let animate = !self.facts.dragged && !self.facts.outgoing && (self.frozen || (
        !self.facts.state.is_fullscreen() && self.display_state.is_visible()
            && !self.facts.state.is_minimized() && !self.context.suppress_animations && ((
        !self.facts.state.is_floating() && enabled) || ((self.facts.state_change
            || self.facts.transfer.is_some()) && enabled) || slide_in)));
        if !animate {
            actions.push(Action::RemoveWindowAnimation);
            return self.place(self.target, false);
        }
        if self.frozen {
            return self.ask(Question::SessionCloaked);
        }
        let transfer = self.slide();
        self.ask(
            Question::Animate {
                resize,
                cycle_has_resize: self.context.cycle_has_resize,
                target: self.target,
                previous: self.previous,
                transfer,
                opacity: self.facts.opacity,
                corner_style: self.facts.corner_style,
            },
        )
    }

    /// Sends the real window to the frame, unless its animation left it there.
    fn place(&mut self, applied: Rect, has_opacity: bool) -> (next: Next)
        ensures
            forall|actions: Seq<Action>|
                (Outcome { redraw: *final(self), actions, next }) == #[trigger] old(self).placed(
                    actions,
                    applied,
                    has_opacity,
                ),
    {
        self.applied = applied;
        self.has_opacity = has_opacity;
        if self.display_state.is_visible() {
            self.ask(Question::PreCommitted(applied))
        } else {
            self.ask(Question::Reposition(applied))
        }
    }

    /// Uncloaks a visible window once it is in place.
    fn uncover(&self, actions: &mut Vec<Action>) -> (next: Next)
        ensures
            (Outcome { redraw: *self, actions: final(actions)@, next }) == self.revealed(
                old(actions)@,
            ),
    {
        if self.display_state.is_visible() {
            actions.push(Action::SetCloaked(false));
            actions.push(Action::HidePendingSurrogate);
        }
        if self.has_opacity {
            actions.push(Action::ApplyAnimatedOpacity);
        }
        self.finish(actions)
    }

    /// Brings the taskbar in line.
    fn finish(&self, actions: &mut Vec<Action>) -> (next: Next)
        ensures
            (Outcome { redraw: *self, actions: final(actions)@, next }) == self.finished(
                old(actions)@,
            ),
    {
        let borderless = match self.facts.state {
            WindowState::Fullscreen(config) => !config.maximized,
            _ => false,
        };
        actions.push(Action::MarkFullscreen(borderless));
        let cloaking = matches!(self.context.hide_method, HideMethod::Cloak);
        let in_transition = matches!(
            self.display_state,
            DisplayState::Showing | DisplayState::Hiding
        );
        if cloaking && !self.context.show_all_in_taskbar && in_transition {
            actions.push(Action::SetTaskbarVisibility(self.display_state.is_visible()));
        }
        Next::Done
    }

    /// Goes on with the answer to the open question.
    #[verifier::rlimit(30)]
    pub fn resume(&mut self, answer: Answer) -> (result: (Vec<Action>, Next))
        requires
            old(self).well_formed(),
            answer.fits(old(self).question),
        ensures
            (Outcome { redraw: *final(self), actions: result.0@, next: result.1 }) == old(
                self,
            ).resumed(answer),
            result.1 matches Next::Ask(question) ==> final(self).question == question
                && final(self).well_formed() && final(self).rank() > old(self).rank(),
    {
        proof {
            self.lemma_resumed(answer);
        }
        let mut actions: Vec<Action> = Vec::new();
        let yes = matches!(answer, Answer::Truth(true));
        let failed = matches!(answer, Answer::Failed);
        let next = match self.question {
            Question::NativelyMinimized => if failed {
                Next::Fail(SyncError::Native)
            } else if yes {
                actions.push(Action::RemoveAnimation);
                Next::Done
            } else {
                match self.facts.workspace {
                    Some(workspace) => self.transition(&mut actions, workspace),
                    None => Next::Fail(SyncError::WindowHasNoWorkspace),
                }
            },
            Question::SwitchRect => {
                let previous = match answer {
                    Answer::Frame(Some(rect)) => Some(rect),
                    _ => self.facts.previous_target,
                };
                self.record(&mut actions, previous)
            },
            Question::Maximized | Question::Minimized => if failed {
                Next::Fail(SyncError::Native)
            } else if yes {
                actions.push(Action::RemoveWindowAnimation);
                self.ask(Question::Restore(self.target))
            } else if matches!(self.question, Question::Maximized) {
                self.ask(Question::Minimized)
            } else {
                self.settle(&mut actions)
            },
            Question::Restore(_) => if failed {
                Next::Fail(SyncError::Native)
            } else {
                actions.push(Action::ClearMaximized);
                self.settle(&mut actions)
            },
            Question::IncomingThumbnail => self.open(&mut actions, yes),
            Question::SlideIn => self.position(&mut actions, yes),
            Question::Animate { .. } => match answer {
                Answer::Position {
                    result: AnimationPositionResult::Apply(rect),
                    has_opacity,
                } => self.place(rect, has_opacity),
                _ => self.ask(Question::SessionCloaked),
            },
            Question::SessionCloaked => if yes {
                self.finish(&mut actions)
            } else {
                self.ask(Question::Cloaked)
            },
            Question::Cloaked => {
                if !yes {
                    actions.push(Action::SetCloaked(true));
                }
                self.ask(Question::ResizeSession)
            },
            Question::ResizeSession => if yes {
                self.ask(Question::SessionFlags)
            } else {
                self.ask(Question::FrozenFrame)
            },
            Question::FrozenFrame => {
                let there = match answer {
                    Answer::Frame(Some(rect)) => rect == self.target,
                    _ => false,
                };
                if !there {
                    actions.push(
                        Action::SetWindowPos {
                            z_order: self.z_order,
                            rect: self.target,
                            flags: PREPOSITION_FLAGS | SWP_FRAMECHANGED,
                        },
                    );
                }
                self.finish(&mut actions)
            },
            Question::SessionFlags => {
                if let Answer::Session(Some(flags)) = answer {
                    if flags.needs_preposition {
                        // A pure move needs no repaint of the application's frame.
                        let flags: u32 = if flags.move_only {
                            PREPOSITION_FLAGS
                        } else {
                            PREPOSITION_FLAGS | SWP_FRAMECHANGED
                        };
                        actions.push(
                            Action::SetWindowPos {
                                z_order: self.z_order,
                                rect: self.target,
                                flags,
                            },
                        );
                    }
                }
                actions.push(Action::MarkSessionCloaked);
                self.finish(&mut actions)
            },
            Question::PreCommitted(_) => if yes {
                self.ask(Question::AppliedFrame)
            } else {
                self.ask(Question::Reposition(self.applied))
            },
            Question::AppliedFrame => {
                let there = match answer {
                    Answer::Frame(Some(rect)) => rect == self.applied,
                    _ => false,
                };
                if there {
                    self.uncover(&mut actions)
                } else {
                    self.ask(Question::Reposition(self.applied))
                }
            },
            Question::Reposition(_) => self.uncover(&mut actions),
        };
        (actions, next)
    }
}

} // verus!
