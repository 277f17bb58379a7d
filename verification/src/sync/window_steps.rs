//! What each decision of a redraw amounts to, in terms of the window and of
//! the answers.
use vstd::prelude::*;

use crate::geometry::Rect;
use crate::model::{DisplayState, SyncError, WindowState, WindowZOrder};
use crate::platform::window_flags::{
    SWP_ASYNCWINDOWPOS, SWP_FRAMECHANGED, SWP_NOACTIVATE, SWP_NOMOVE, SWP_NOSIZE, SWP_NOZORDER,
};
use crate::sync::window::{
    Action, AnimationPositionResult, Answer, Next, Outcome, Question, RedrawContext, WindowFacts,
    WindowRedraw,
};

verus! {

/// The window is on screen, or on its way there.
pub open spec fn on_screen(state: DisplayState) -> bool {
    state is Shown || state is Showing
}

/// Both rectangles have the same extents.
pub open spec fn same_extents(a: Rect, b: Rect) -> bool {
    a.right - a.left == b.right - b.left && a.bottom - a.top == b.bottom - b.top
}

/// A window that is nowhere cannot be redrawn, and the first thing that is
/// missing is reported. A window that only is to be raised is raised, and one
/// that is not even that is left alone. Otherwise a window that the manager
/// holds for shown is looked at first, unless a command has just changed it.
pub proof fn law_redraws_start_with_the_window_in_place(context: RedrawContext, facts: WindowFacts)
    ensures
        ({
            let outcome = WindowRedraw::began(context, facts);
            let located = facts.workspace is Some && facts.monitor is Some && facts.hide_corner
                is Some;
            &&& outcome.next == Next::Fail(SyncError::WindowHasNoWorkspace) <==> facts.workspace
                is None
            &&& outcome.next == Next::Fail(SyncError::NoMonitor) <==> facts.workspace is Some
                && facts.monitor is None
            &&& outcome.next == Next::Fail(SyncError::NoHideCorner) <==> facts.workspace is Some
                && facts.monitor is Some && facts.hide_corner is None
            &&& !located ==> outcome.actions.len() == 0
            &&& located && !facts.redraw ==> outcome.next is Done && outcome.actions.len() == (
            if facts.raise {
                1int
            } else {
                0
            })
            &&& located && !facts.redraw && facts.raise ==> outcome.actions[0] is SetZOrder
            &&& outcome.next == Next::Ask(Question::NativelyMinimized) <==> located && facts.redraw
                && !facts.state_change && !(facts.state is Minimized)
            &&& outcome.next == Next::Ask(Question::NativelyMinimized) ==> outcome.actions.len()
                == 0
        }),
{
}

/// Windows that are shown on top go there, and no other. Of the others, a
/// raised window goes right behind the window that its workspace has focused,
/// and everything else is stacked normally.
pub proof fn law_windows_are_stacked_by_focus(context: RedrawContext, facts: WindowFacts)
    requires
        facts.located(),
    ensures
        ({
            let z_order = WindowRedraw::began(context, facts).redraw.z_order;
            let on_top = (facts.state matches WindowState::Floating(config) && config.shown_on_top)
                || (facts.state matches WindowState::Fullscreen(config) && config.shown_on_top);
            &&& z_order is TopMost <==> on_top
            &&& z_order matches WindowZOrder::AfterWindow(handle) ==> {
                &&& facts.raise
                &&& facts.workspace->0.focused_window matches Some(focused) && focused.handle
                    == handle && focused.id != facts.id
            }
            &&& !on_top && facts.raise && (facts.workspace->0.focused_window matches Some(focused)
                && focused.id != facts.id) ==> z_order == WindowZOrder::AfterWindow(
                facts.workspace->0.focused_window->0.handle,
            )
            &&& facts.raise && !facts.redraw ==> WindowRedraw::began(context, facts).actions[0]
                == Action::SetZOrder(z_order)
        }),
{
}

/// The display state says what the workspace does: the window is on screen
/// exactly if its workspace is, a state that already says so is kept, and any
/// other is on its way.
pub open spec fn follows_workspace(facts: WindowFacts, state: DisplayState) -> bool {
    let displayed = facts.workspace matches Some(workspace) && workspace.displayed;
    &&& on_screen(state) == displayed
    &&& on_screen(facts.display_state) == displayed ==> state == facts.display_state
    &&& on_screen(facts.display_state) != displayed ==> state is Showing || state is Hiding
}

/// The redraw has begun in earnest: the display state follows the workspace,
/// and the frame in the layout is remembered unless it first has to be asked
/// where the window comes from. Without a frame in the layout there is nothing
/// to redraw to.
pub open spec fn underway(outcome: Outcome, facts: WindowFacts) -> bool {
    &&& outcome.actions.len() > 0
    &&& outcome.actions[0] == Action::SetDisplayState(outcome.redraw.display_state)
    &&& follows_workspace(facts, outcome.redraw.display_state)
    &&& facts.target is None ==> outcome.next == Next::Fail(SyncError::NoPlacement)
        && outcome.actions.len() == 1
    &&& facts.target is Some && facts.transfer is Some ==> outcome.next == Next::Ask(
        Question::SwitchRect,
    ) && outcome.actions.len() == 1
    &&& facts.target is Some && facts.transfer is None ==> {
        &&& outcome.actions.len() > 1
        &&& outcome.actions[1] == Action::RecordTarget(facts.target->0)
        &&& outcome.redraw.previous == facts.previous_target
    }
}

/// A redraw begins by bringing the display state in line with the workspace
/// and by remembering the frame in the layout.
pub proof fn law_display_states_follow_the_workspace(
    context: RedrawContext,
    facts: WindowFacts,
    redraw: WindowRedraw,
)
    ensures
        facts.located() && facts.redraw && (facts.state is Minimized || facts.state_change)
            ==> underway(WindowRedraw::began(context, facts), facts),
        redraw.well_formed() && redraw.question is NativelyMinimized ==> underway(
            redraw.resumed(Answer::Truth(false)),
            redraw.facts,
        ),
{
    lemma_transitioned(WindowRedraw::fresh(context, facts));
    lemma_transitioned(redraw);
}

proof fn lemma_transitioned(redraw: WindowRedraw)
    ensures
        redraw.facts.workspace is Some ==> underway(redraw.transitioned(seq![]), redraw.facts),
{
    if let Some(target) = redraw.facts.target {
        let display_state = redraw.facts.display_state.after(redraw.facts.displayed());
        lemma_recorded(
            WindowRedraw { display_state, target, ..redraw },
            seq![Action::SetDisplayState(display_state)],
            redraw.facts.previous_target,
        );
    }
}

/// What was handed out comes first, then the frame that is remembered.
proof fn lemma_recorded(redraw: WindowRedraw, actions: Seq<Action>, previous: Option<Rect>)
    ensures
        ({
            let outcome = redraw.recorded(actions, previous);
            &&& outcome.actions.len() > actions.len()
            &&& outcome.actions.take(actions.len() as int) == actions
            &&& outcome.actions[actions.len() as int] == Action::RecordTarget(redraw.target)
            &&& outcome.redraw.previous == previous
            &&& outcome.redraw.display_state == redraw.display_state
            &&& outcome.redraw.target == redraw.target
        }),
{
    let outcome = redraw.recorded(actions, previous);
    assert(outcome.actions.take(actions.len() as int) =~= actions);
}

/// A carried window comes from where the workspace switch shows it or, failing
/// that, from the frame that it was last sent to.
pub proof fn law_carried_windows_come_from_the_switch(redraw: WindowRedraw, answer: Answer)
    requires
        redraw.well_formed(),
        answer.fits(redraw.question),
        redraw.question is SwitchRect,
    ensures
        ({
            let outcome = redraw.resumed(answer);
            &&& outcome.actions.len() > 0
            &&& Some(outcome.actions[0]) == match redraw.facts.target {
                Some(target) => Some(Action::RecordTarget(target)),
                None => None,
            }
            &&& answer matches Answer::Frame(Some(rect)) ==> outcome.redraw.previous == Some(rect)
            &&& answer == Answer::Frame(None) ==> outcome.redraw.previous
                == redraw.facts.previous_target
        }),
{
    lemma_recorded(redraw, seq![], redraw.facts.previous_target);
    if let Answer::Frame(Some(rect)) = answer {
        lemma_recorded(redraw, seq![], Some(rect));
    }
}

/// Once its frame is remembered, a window of a live resize is done with. An
/// animation of a dragged or fullscreen window is ended. A window that is to be
/// neither fullscreen nor minimized must not natively be maximized.
pub proof fn law_remembered_frames_are_followed_up(redraw: WindowRedraw, previous: Option<Rect>)
    ensures
        ({
            let outcome = redraw.recorded(seq![], previous);
            let facts = redraw.facts;
            let more = facts.dragged || facts.state is Fullscreen;
            &&& outcome.next is Done <==> facts.live_resized
            &&& facts.live_resized ==> outcome.actions.len() == 1
            &&& !facts.live_resized && facts.dragged ==> outcome.actions.len() > 1
                && outcome.actions[1] is RemoveAnimation
            &&& !facts.live_resized && !facts.dragged && facts.state is Fullscreen
                ==> outcome.actions.len() > 1 && outcome.actions[1] is RemoveWindowAnimation
            &&& !facts.live_resized && (facts.state is Tiling || facts.state is Floating) ==> {
                &&& outcome.next == Next::Ask(Question::Maximized)
                &&& outcome.actions.len() == if more {
                    2int
                } else {
                    1
                }
            }
            &&& !facts.live_resized && !(facts.state is Tiling || facts.state is Floating)
                && facts.transfer is None ==> outcome.next == Next::Ask(Question::IncomingThumbnail)
        }),
{
}

/// A window that turns out to be natively maximized or minimized is restored to
/// its frame in the layout, its own animation being over; one that is neither
/// is not touched. Whether it is restored or not, the redraw goes on with it.
pub proof fn law_only_windows_out_of_state_are_restored(redraw: WindowRedraw, answer: Answer)
    requires
        redraw.well_formed(),
        answer.fits(redraw.question),
        redraw.question is Maximized || redraw.question is Minimized || redraw.question is Restore,
    ensures
        ({
            let outcome = redraw.resumed(answer);
            let asked = redraw.question is Maximized || redraw.question is Minimized;
            &&& outcome.next == Next::Fail(SyncError::Native) <==> answer is Failed
            &&& answer is Failed ==> outcome.actions.len() == 0
            &&& (outcome.next matches Next::Ask(Question::Restore(_))) <==> asked && answer
                == Answer::Truth(true)
            &&& outcome.next matches Next::Ask(Question::Restore(rect)) ==> redraw.facts.target
                == Some(rect) && outcome.actions.len() == 1 && outcome.actions[0]
                is RemoveWindowAnimation
            &&& redraw.question is Maximized && answer == Answer::Truth(false) ==> outcome.next
                == Next::Ask(Question::Minimized) && outcome.actions.len() == 0
            &&& redraw.question is Restore && answer is Done ==> outcome.actions.len() > 0
                && outcome.actions[0] is ClearMaximized
            &&& redraw.facts.transfer is None && (redraw.question is Restore && answer is Done
                || redraw.question is Minimized && answer == Answer::Truth(false)) ==> outcome.next
                == Next::Ask(Question::IncomingThumbnail)
        }),
{
}

/// A window natively minimized in the meantime ends the redraw, and a window
/// that cannot be asked fails it.
pub proof fn law_minimized_windows_end_the_redraw(redraw: WindowRedraw, answer: Answer)
    requires
        redraw.well_formed(),
        answer.fits(redraw.question),
        redraw.question is NativelyMinimized,
    ensures
        answer == Answer::Truth(true) ==> redraw.resumed(answer).next is Done && redraw.resumed(
            answer,
        ).actions.len() == 1 && redraw.resumed(answer).actions[0] is RemoveAnimation,
        answer is Failed ==> redraw.resumed(answer).next == Next::Fail(SyncError::Native)
            && redraw.resumed(answer).actions.len() == 0,
{
}

/// A window that has never been sent anywhere, and is on screen, slides in when
/// that is enabled and animations are not suppressed: from its monitor to its
/// frame in the layout, looking as its effects ask for. A floating, fullscreen,
/// outgoing or frozen window does not.
pub proof fn law_new_windows_slide_in(redraw: WindowRedraw, frozen: bool)
    requires
        redraw.facts.target == Some(redraw.target),
    ensures
        ({
            let outcome = redraw.opened(seq![], frozen);
            let facts = redraw.facts;
            let opens = redraw.previous is None && on_screen(redraw.display_state) && (facts.state
                is Tiling || facts.state is Minimized) && !facts.outgoing && !frozen
                && !redraw.context.suppress_animations && redraw.context.open_animation_enabled;
            let placed = facts.monitor matches Some(monitor) && monitor.rect is Some;
            &&& outcome.redraw.frozen == frozen
            &&& outcome.next == Next::Fail(SyncError::NoPlacement) <==> opens && !placed
            &&& outcome.next == Next::Ask(Question::SlideIn) <==> !opens || placed
            &&& opens && placed ==> outcome.actions == seq![
                Action::StartOpenAnimation {
                    target: facts.target->0,
                    monitor: facts.monitor->0.rect->0,
                    opacity: facts.opacity,
                    corner_style: facts.corner_style,
                },
            ]
            &&& !(opens && placed) ==> outcome.actions.len() == 0
        }),
{
}

/// The answer to whether the window is an incoming one of a workspace switch is
/// what freezes it, and nothing else does.
pub proof fn law_incoming_windows_are_frozen(redraw: WindowRedraw, answer: Answer)
    requires
        redraw.well_formed(),
        answer.fits(redraw.question),
        redraw.question is IncomingThumbnail,
    ensures
        redraw.resumed(answer).redraw.frozen <==> answer == Answer::Truth(true),
        redraw.resumed(answer) == redraw.opened(seq![], answer == Answer::Truth(true)),
{
}

/// When a window is animated: never while it is dragged or leaves the screen.
/// A frozen one always is. Any other has to be on screen, neither fullscreen
/// nor minimized, with animations not suppressed; then it is animated if it
/// slides in, or if its kind of change is enabled and it is tiling, changes its
/// state or is carried. A window that is not animated goes straight to its
/// frame in the layout, without any opacity of an animation.
pub proof fn law_windows_are_animated_when_enabled(redraw: WindowRedraw, answer: Answer)
    requires
        redraw.well_formed(),
        answer.fits(redraw.question),
        redraw.question is SlideIn,
    ensures
        ({
            let outcome = redraw.resumed(answer);
            let facts = redraw.facts;
            let context = redraw.context;
            let asks_animation = outcome.next matches Next::Ask(Question::Animate { .. });
            let resizes = redraw.previous is Some && !same_extents(
                redraw.previous->0,
                facts.target->0,
            );
            let eligible = !(facts.state is Fullscreen) && !(facts.state is Minimized)
                && on_screen(redraw.display_state) && !context.suppress_animations;
            &&& facts.dragged || facts.outgoing ==> !asks_animation && outcome.next != Next::Ask(
                Question::SessionCloaked,
            )
            &&& outcome.next == Next::Ask(Question::SessionCloaked) <==> redraw.frozen
                && !facts.dragged && !facts.outgoing
            &&& asks_animation ==> eligible && !redraw.frozen
            &&& asks_animation && answer == Answer::Truth(false) ==> {
                &&& facts.state is Tiling || facts.state_change || facts.transfer is Some
                &&& resizes ==> context.resize_animation_enabled
                &&& !resizes ==> context.move_animation_enabled
            }
            &&& eligible && !redraw.frozen && !facts.dragged && !facts.outgoing && (answer
                == Answer::Truth(true) || (facts.state is Tiling || facts.state_change
                || facts.transfer is Some) && (resizes && context.resize_animation_enabled
                || !resizes && context.move_animation_enabled)) ==> asks_animation
            &&& asks_animation || outcome.next == Next::Ask(Question::SessionCloaked)
                ==> outcome.actions.len() == 0
            &&& !asks_animation && outcome.next != Next::Ask(Question::SessionCloaked) ==> {
                &&& outcome.actions == seq![Action::RemoveWindowAnimation]
                &&& !outcome.redraw.has_opacity
                &&& outcome.next == Next::Ask(
                    if on_screen(redraw.display_state) {
                        Question::PreCommitted(facts.target->0)
                    } else {
                        Question::Reposition(facts.target->0)
                    },
                )
            }
        }),
{
}

/// What an animation is told: where the window goes and where it comes from,
/// whether its size changes, what it looks like, and the slide across its
/// monitor if it is carried to another workspace and switches are animated.
pub proof fn law_animations_are_told_the_window(redraw: WindowRedraw, answer: Answer)
    requires
        redraw.well_formed(),
        answer.fits(redraw.question),
        redraw.question is SlideIn,
    ensures
        redraw.resumed(answer).next matches Next::Ask(
            Question::Animate {
                resize,
                cycle_has_resize,
                target,
                previous,
                transfer,
                opacity,
                corner_style,
            },
        ) ==> {
            &&& redraw.facts.target == Some(target)
            &&& previous == redraw.previous
            &&& previous is None ==> !resize
            &&& previous matches Some(before) ==> resize == !same_extents(before, target)
            &&& cycle_has_resize == redraw.context.cycle_has_resize
            &&& opacity == redraw.facts.opacity
            &&& corner_style == redraw.facts.corner_style
            &&& transfer is Some <==> redraw.context.switch_animation_enabled
                && redraw.facts.transfer is Some && redraw.facts.transfer != Some(0i32)
            &&& transfer matches Some(slide) ==> Some(slide.direction) == redraw.facts.transfer
                && slide.bounds == redraw.facts.monitor->0.bounds
        },
{
}

/// An animation that gives a frame has the window placed there, with the
/// opacity that it gave; one that gives none keeps the window covered.
pub proof fn law_animations_decide_over_the_window(redraw: WindowRedraw, answer: Answer)
    requires
        redraw.well_formed(),
        answer.fits(redraw.question),
        redraw.question is Animate,
    ensures
        redraw.resumed(answer).actions.len() == 0,
        answer matches Answer::Position { result, has_opacity } ==> match result {
            AnimationPositionResult::Frozen => redraw.resumed(answer).next == Next::Ask(
                Question::SessionCloaked,
            ),
            AnimationPositionResult::Apply(rect) => {
                &&& redraw.resumed(answer).redraw.has_opacity == has_opacity
                &&& redraw.resumed(answer).next == Next::Ask(Question::PreCommitted(rect))
            },
        },
{
}

/// A covered window is cloaked exactly if it was not known to be, and is brought
/// to its frame in the layout behind its cover, unless it is there already or
/// its resize session does not want it moved. A move without a change of size
/// needs no repaint. The session then knows that the window is cloaked.
pub proof fn law_covered_windows_are_cloaked_and_prepared(redraw: WindowRedraw, answer: Answer)
    requires
        redraw.well_formed(),
        answer.fits(redraw.question),
        redraw.covering(),
    ensures
        ({
            let outcome = redraw.resumed(answer);
            let yes = answer == Answer::Truth(true);
            &&& redraw.question is SessionCloaked ==> (outcome.next is Done <==> yes) && (!yes
                ==> outcome.next == Next::Ask(Question::Cloaked) && outcome.actions.len() == 0)
            &&& redraw.question is Cloaked ==> outcome.next == Next::Ask(Question::ResizeSession)
                && outcome.actions == (if yes {
                seq![]
            } else {
                seq![Action::SetCloaked(true)]
            })
            &&& redraw.question is ResizeSession ==> outcome.actions.len() == 0 && outcome.next
                == Next::Ask(
                if yes {
                    Question::SessionFlags
                } else {
                    Question::FrozenFrame
                },
            )
            &&& redraw.question is FrozenFrame || redraw.question is SessionFlags ==> outcome.next
                is Done
            &&& redraw.question is FrozenFrame ==> ((outcome.actions[0] is SetWindowPos) <==> (
            answer != Answer::Frame(redraw.facts.target)))
            &&& redraw.question is SessionFlags ==> ((outcome.actions[0] is SetWindowPos) <==> (
            answer matches Answer::Session(Some(flags)) && flags.needs_preposition))
            &&& redraw.question is SessionFlags ==> outcome.actions.contains(
                Action::MarkSessionCloaked,
            )
            &&& outcome.actions.len() > 0 ==> (outcome.actions[0] matches Action::SetWindowPos {
                z_order,
                rect,
                flags,
            } ==> {
                &&& Some(rect) == redraw.facts.target
                &&& z_order == redraw.z_order
                &&& flags & SWP_NOMOVE == 0
                &&& flags & SWP_NOSIZE == 0
                &&& flags & SWP_NOZORDER != 0
                &&& flags & SWP_NOACTIVATE != 0
                &&& flags & SWP_ASYNCWINDOWPOS != 0
                &&& (flags & SWP_FRAMECHANGED != 0) == !(answer matches Answer::Session(
                    Some(session),
                ) && session.move_only)
            })
        }),
{
    let plain = crate::platform::window_flags::PREPOSITION_FLAGS;
    let repaint = crate::platform::window_flags::PREPOSITION_FLAGS | SWP_FRAMECHANGED;
    assert(plain & SWP_NOMOVE == 0 && plain & SWP_NOSIZE == 0 && plain & SWP_NOZORDER != 0 && plain
        & SWP_NOACTIVATE != 0 && plain & SWP_ASYNCWINDOWPOS != 0 && plain & SWP_FRAMECHANGED == 0)
        by (bit_vector)
        requires
            plain == crate::platform::window_flags::PREPOSITION_FLAGS,
    ;
    assert(repaint & SWP_NOMOVE == 0 && repaint & SWP_NOSIZE == 0 && repaint & SWP_NOZORDER != 0
        && repaint & SWP_NOACTIVATE != 0 && repaint & SWP_ASYNCWINDOWPOS != 0 && repaint
        & SWP_FRAMECHANGED != 0) by (bit_vector)
        requires
            repaint == crate::platform::window_flags::PREPOSITION_FLAGS | SWP_FRAMECHANGED,
    ;
    let outcome = redraw.resumed(answer);
    if redraw.question is SessionFlags {
        if answer matches Answer::Session(Some(flags)) && flags.needs_preposition {
            assert(outcome.actions[1] is MarkSessionCloaked);
        } else {
            assert(outcome.actions[0] is MarkSessionCloaked);
        }
    }
}

/// A window that is placed is moved, unless its animation left it at its frame
/// and it is found there. Once it is in place, a visible window is uncloaked
/// and its stand-in hidden, and then an animated opacity is applied.
pub proof fn law_windows_are_revealed_in_place(redraw: WindowRedraw, answer: Answer)
    requires
        redraw.well_formed(),
        answer.fits(redraw.question),
        redraw.question is PreCommitted || redraw.question is AppliedFrame || redraw.question
            is Reposition,
    ensures
        ({
            let outcome = redraw.resumed(answer);
            let there = redraw.question is Reposition || redraw.question is AppliedFrame && answer
                == Answer::Frame(Some(redraw.applied));
            let seen = on_screen(redraw.display_state);
            &&& outcome.next is Done <==> there
            &&& outcome.next == Next::Ask(Question::AppliedFrame) <==> redraw.question
                is PreCommitted && answer == Answer::Truth(true)
            &&& !there ==> outcome.actions.len() == 0
            &&& there && seen ==> outcome.actions.len() > 2 && outcome.actions[0]
                == Action::SetCloaked(false) && outcome.actions[1] is HidePendingSurrogate
            &&& there ==> (outcome.actions[if seen {
                2int
            } else {
                0
            }] is ApplyAnimatedOpacity <==> redraw.has_opacity)
        }),
{
}

/// A redraw that comes to its end brings the taskbar in line: the window is
/// marked as fullscreen exactly if it is so without being maximized, and where
/// windows are hidden by cloaking and hidden ones are not to be listed, a window
/// that comes or goes is listed or not.
pub proof fn law_redraws_end_with_the_taskbar(redraw: WindowRedraw, answer: Answer)
    requires
        redraw.well_formed(),
        answer.fits(redraw.question),
        redraw.covering() || redraw.question is AppliedFrame || redraw.question is Reposition,
        redraw.resumed(answer).next is Done,
    ensures
        ({
            let actions = redraw.resumed(answer).actions;
            let borderless = redraw.facts.state matches WindowState::Fullscreen(config)
                && !config.maximized;
            let listed = redraw.context.hide_method is Cloak && !redraw.context.show_all_in_taskbar
                && (redraw.display_state is Showing || redraw.display_state is Hiding);
            let n = actions.len() as int;
            &&& n > 0
            &&& listed ==> n > 1 && actions[n - 1] == Action::SetTaskbarVisibility(
                redraw.display_state is Showing,
            ) && actions[n - 2] == Action::MarkFullscreen(borderless)
            &&& !listed ==> actions[n - 1] == Action::MarkFullscreen(borderless)
            &&& forall|i: int|
                0 <= i < n ==> (#[trigger] actions[i] is MarkFullscreen <==> i == n - (if listed {
                    2int
                } else {
                    1
                }))
        }),
{
}

/// Once the redraw knows where the window comes from, that stays as it is; so
/// does whether the window is frozen, once that was asked, and what an animation
/// gave for it.
pub proof fn law_what_is_known_stays_known(redraw: WindowRedraw, answer: Answer)
    requires
        redraw.well_formed(),
        answer.fits(redraw.question),
    ensures
        ({
            let after = redraw.resumed(answer).redraw;
            &&& redraw.question is Maximized || redraw.question is IncomingThumbnail
                || redraw.question is SlideIn || redraw.question is Animate || redraw.covering()
                ==> after.previous == redraw.previous
            &&& redraw.question is SlideIn || redraw.question is Animate || redraw.covering()
                ==> after.frozen == redraw.frozen
            &&& redraw.question is PreCommitted || redraw.question is AppliedFrame ==> after.applied
                == redraw.applied && after.has_opacity == redraw.has_opacity
            &&& redraw.question is SlideIn || redraw.question is Animate || redraw.covering()
                || redraw.question is PreCommitted || redraw.question is AppliedFrame
                ==> after.display_state == redraw.display_state && after.z_order == redraw.z_order
                && after.target == redraw.target
        }),
{
}

/// A window that need not be restored, or has been, goes on from where it came
/// from. One that is carried is not asked about a workspace switch, and is not
/// frozen.
pub proof fn law_carried_windows_are_not_frozen(redraw: WindowRedraw, actions: Seq<Action>)
    requires
        redraw.facts.transfer is Some,
    ensures
        ({
            let outcome = redraw.settled(actions);
            &&& !outcome.redraw.frozen
            &&& outcome.redraw.previous == redraw.previous
            &&& outcome.next == Next::Ask(Question::SlideIn) || outcome.next == Next::Fail(
                SyncError::NoPlacement,
            )
        }),
{
}

/// A window that is neither natively maximized nor minimized anymore is the one
/// that was asked about.
pub proof fn law_restored_windows_come_from_where_they_were(redraw: WindowRedraw, answer: Answer)
    requires
        redraw.well_formed(),
        answer.fits(redraw.question),
        redraw.question is Minimized || redraw.question is Restore,
    ensures
        redraw.resumed(answer).redraw.previous == redraw.previous,
        redraw.resumed(answer).redraw.facts == redraw.facts,
        redraw.facts.transfer is Some && !(answer is Failed) && answer != Answer::Truth(true)
            ==> !redraw.resumed(answer).redraw.frozen,
{
}

/// The end of a redraw hands out nothing but what was said: the moves of a
/// covered window and the note of its session, the uncloaking and the opacity of
/// a window in place, and the taskbar.
pub proof fn law_redraws_do_nothing_else(redraw: WindowRedraw, answer: Answer)
    requires
        redraw.well_formed(),
        answer.fits(redraw.question),
        redraw.covering() || redraw.question is AppliedFrame || redraw.question is Reposition,
        redraw.resumed(answer).next is Done,
    ensures
        ({
            let n = redraw.resumed(answer).actions.len() as int;
            let listed: int = if redraw.context.hide_method is Cloak
                && !redraw.context.show_all_in_taskbar && (redraw.display_state is Showing
                || redraw.display_state is Hiding) {
                1
            } else {
                0
            };
            &&& redraw.question is SessionCloaked ==> n == 1 + listed
            &&& redraw.question is FrozenFrame && answer == Answer::Frame(redraw.facts.target)
                ==> n == 1 + listed
            &&& redraw.question is FrozenFrame && answer != Answer::Frame(redraw.facts.target)
                ==> n == 2 + listed
            &&& redraw.question is SessionFlags && (answer matches Answer::Session(Some(flags))
                && flags.needs_preposition) ==> n == 3 + listed
            &&& redraw.question is SessionFlags && !(answer matches Answer::Session(Some(flags))
                && flags.needs_preposition) ==> n == 2 + listed
            &&& redraw.question is AppliedFrame || redraw.question is Reposition ==> n == 1
                + listed + (if on_screen(redraw.display_state) {
                2int
            } else {
                0
            }) + (if redraw.has_opacity {
                1int
            } else {
                0
            })
        }),
{
}

} // verus!
