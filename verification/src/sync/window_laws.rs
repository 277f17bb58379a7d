//! What holds of every redraw of a window, whatever is answered.
use vstd::prelude::*;

use crate::geometry::Rect;
use crate::platform::window_flags;
use crate::platform::window_flags::{PREPOSITION_FLAGS, SWP_FRAMECHANGED};
use crate::sync::window::{
    Action, Answer, Next, Outcome, Question, RedrawContext, WindowFacts, WindowRedraw,
};

verus! {

/// Every action of the outcome satisfies the predicate.
pub open spec fn all_actions(outcome: Outcome, pred: spec_fn(Action) -> bool) -> bool {
    forall|i: int| 0 <= i < outcome.actions.len() ==> pred(#[trigger] outcome.actions[i])
}

/// The action puts an animation in front of the window.
pub open spec fn covers_window(action: Action) -> bool {
    action is StartOpenAnimation || action == Action::SetCloaked(true)
}

/// Neither starts an animation nor hides the window behind one.
pub open spec fn leaves_window_uncovered(outcome: Outcome) -> bool {
    &&& all_actions(outcome, |action: Action| !covers_window(action))
    &&& !(outcome.next matches Next::Ask(Question::Animate { .. }))
}

/// A window that is only to be brought to the front gets a new place in the
/// stacking order and nothing else.
pub proof fn law_raised_windows_are_not_moved(context: RedrawContext, facts: WindowFacts)
    requires
        facts.located(),
        facts.raise,
        !facts.redraw,
    ensures
        WindowRedraw::began(context, facts).actions == seq![Action::SetZOrder(facts.z_order())],
        WindowRedraw::began(context, facts).next is Done,
{
}

/// A window that was natively minimized behind the manager's back is left to
/// its own event: only its animation is ended.
pub proof fn law_natively_minimized_windows_are_left_alone(redraw: WindowRedraw)
    requires
        redraw.well_formed(),
        redraw.question is NativelyMinimized,
    ensures
        redraw.resumed(Answer::Truth(true)).actions == seq![Action::RemoveAnimation],
        redraw.resumed(Answer::Truth(true)).next is Done,
{
}

/// A window whose geometry a live resize already applied is neither moved,
/// cloaked nor animated again.
pub proof fn law_live_resized_windows_are_not_moved_again(redraw: WindowRedraw, answer: Answer)
    requires
        redraw.well_formed(),
        redraw.facts.live_resized,
        answer.fits(redraw.question),
    ensures
        all_actions(
            redraw.resumed(answer),
            |action: Action|
                action is SetDisplayState || action is RecordTarget || action is RemoveAnimation,
        ),
        redraw.resumed(answer).next matches Next::Ask(question) ==> question is SwitchRect,
{
}

proof fn lemma_settled_uncovered(redraw: WindowRedraw, actions: Seq<Action>)
    requires
        redraw.facts.state is Fullscreen || redraw.facts.outgoing,
        forall|i: int| 0 <= i < actions.len() ==> !covers_window(#[trigger] actions[i]),
    ensures
        leaves_window_uncovered(redraw.settled(actions)),
        forall|frozen: bool| leaves_window_uncovered(#[trigger] redraw.opened(actions, frozen)),
{
}

proof fn lemma_recorded_uncovered(
    redraw: WindowRedraw,
    actions: Seq<Action>,
    previous: Option<Rect>,
)
    requires
        redraw.facts.state is Fullscreen || redraw.facts.outgoing,
        forall|i: int| 0 <= i < actions.len() ==> !covers_window(#[trigger] actions[i]),
    ensures
        leaves_window_uncovered(redraw.recorded(actions, previous)),
{
    let next = WindowRedraw { previous, ..redraw };
    let recorded = actions.push(Action::RecordTarget(redraw.target));
    lemma_settled_uncovered(next, recorded);
    lemma_settled_uncovered(next, recorded.push(Action::RemoveAnimation));
    lemma_settled_uncovered(next, recorded.push(Action::RemoveWindowAnimation));
}

proof fn lemma_transitioned_uncovered(redraw: WindowRedraw, actions: Seq<Action>)
    requires
        redraw.facts.state is Fullscreen || redraw.facts.outgoing,
        forall|i: int| 0 <= i < actions.len() ==> !covers_window(#[trigger] actions[i]),
    ensures
        leaves_window_uncovered(redraw.transitioned(actions)),
{
    let display_state = redraw.facts.display_state.after(redraw.facts.displayed());
    if let Some(target) = redraw.facts.target {
        lemma_recorded_uncovered(
            WindowRedraw { display_state, target, ..redraw },
            actions.push(Action::SetDisplayState(display_state)),
            redraw.facts.previous_target,
        );
    }
}

proof fn lemma_resumed_uncovered(redraw: WindowRedraw, answer: Answer)
    requires
        redraw.well_formed(),
        answer.fits(redraw.question),
        redraw.facts.outgoing || redraw.facts.state is Fullscreen && !redraw.frozen,
    ensures
        leaves_window_uncovered(redraw.resumed(answer)),
{
    let none = Seq::<Action>::empty();
    match redraw.question {
        Question::NativelyMinimized => lemma_transitioned_uncovered(redraw, none),
        Question::SwitchRect => {
            lemma_recorded_uncovered(redraw, none, redraw.facts.previous_target);
            if let Answer::Frame(Some(rect)) = answer {
                lemma_recorded_uncovered(redraw, none, Some(rect));
            }
        },
        Question::Minimized => lemma_settled_uncovered(redraw, none),
        Question::Restore(_) => lemma_settled_uncovered(redraw, seq![Action::ClearMaximized]),
        Question::IncomingThumbnail => lemma_settled_uncovered(redraw, none),
        _ => {},
    }
}

/// A fullscreen window is never animated and never cloaked behind an
/// animation, unless a workspace switch has frozen it: covering an exclusive
/// fullscreen application would throw it out of fullscreen.
pub proof fn law_fullscreen_windows_are_never_animated(redraw: WindowRedraw, answer: Answer)
    requires
        redraw.well_formed(),
        answer.fits(redraw.question),
        redraw.facts.state is Fullscreen,
        !redraw.frozen,
    ensures
        leaves_window_uncovered(redraw.resumed(answer)),
{
    lemma_resumed_uncovered(redraw, answer);
}

/// A window that leaves the screen in a workspace switch is never handed to an
/// animation of its own.
pub proof fn law_outgoing_windows_are_never_animated(redraw: WindowRedraw, answer: Answer)
    requires
        redraw.well_formed(),
        answer.fits(redraw.question),
        redraw.facts.outgoing,
    ensures
        leaves_window_uncovered(redraw.resumed(answer)),
{
    lemma_resumed_uncovered(redraw, answer);
}

/// No animation begins before the window has been looked at: the start of a
/// redraw leaves fullscreen and outgoing windows uncovered too.
pub proof fn law_redraws_begin_uncovered(context: RedrawContext, facts: WindowFacts)
    requires
        facts.state is Fullscreen || facts.outgoing,
    ensures
        leaves_window_uncovered(WindowRedraw::began(context, facts)),
{
    lemma_transitioned_uncovered(WindowRedraw::fresh(context, facts), seq![]);
}

/// The redraw only prepares: nothing is cloaked, uncloaked or moved, and no
/// animation starts while animations are suppressed.
spec fn preparatory(action: Action, suppressed: bool) -> bool {
    &&& action !is SetCloaked
    &&& action !is SetWindowPos
    &&& action is StartOpenAnimation ==> !suppressed
}

spec fn prepares(outcome: Outcome, suppressed: bool) -> bool {
    &&& forall|i: int|
        0 <= i < outcome.actions.len() ==> preparatory(#[trigger] outcome.actions[i], suppressed)
    &&& !(outcome.next matches Next::Ask(Question::Animate { .. }))
}

proof fn lemma_settled_prepares(redraw: WindowRedraw, actions: Seq<Action>)
    requires
        forall|i: int|
            0 <= i < actions.len() ==> preparatory(
                #[trigger] actions[i],
                redraw.context.suppress_animations,
            ),
    ensures
        prepares(redraw.settled(actions), redraw.context.suppress_animations),
        forall|frozen: bool|
            prepares(
                #[trigger] redraw.opened(actions, frozen),
                redraw.context.suppress_animations,
            ),
{
}

proof fn lemma_recorded_prepares(
    redraw: WindowRedraw,
    actions: Seq<Action>,
    previous: Option<Rect>,
)
    requires
        forall|i: int|
            0 <= i < actions.len() ==> preparatory(
                #[trigger] actions[i],
                redraw.context.suppress_animations,
            ),
    ensures
        prepares(redraw.recorded(actions, previous), redraw.context.suppress_animations),
{
    let next = WindowRedraw { previous, ..redraw };
    let recorded = actions.push(Action::RecordTarget(redraw.target));
    lemma_settled_prepares(next, recorded);
    lemma_settled_prepares(next, recorded.push(Action::RemoveAnimation));
    lemma_settled_prepares(next, recorded.push(Action::RemoveWindowAnimation));
}

proof fn lemma_transitioned_prepares(redraw: WindowRedraw, actions: Seq<Action>)
    requires
        forall|i: int|
            0 <= i < actions.len() ==> preparatory(
                #[trigger] actions[i],
                redraw.context.suppress_animations,
            ),
    ensures
        prepares(redraw.transitioned(actions), redraw.context.suppress_animations),
{
    let display_state = redraw.facts.display_state.after(redraw.facts.displayed());
    if let Some(target) = redraw.facts.target {
        lemma_recorded_prepares(
            WindowRedraw { display_state, target, ..redraw },
            actions.push(Action::SetDisplayState(display_state)),
            redraw.facts.previous_target,
        );
    }
}

/// Before the animations are asked, a redraw only prepares.
proof fn lemma_resumed_prepares(redraw: WindowRedraw, answer: Answer)
    requires
        redraw.well_formed(),
        answer.fits(redraw.question),
        redraw.rank() < 6,
    ensures
        prepares(redraw.resumed(answer), redraw.context.suppress_animations),
{
    let none = Seq::<Action>::empty();
    match redraw.question {
        Question::NativelyMinimized => lemma_transitioned_prepares(redraw, none),
        Question::SwitchRect => {
            lemma_recorded_prepares(redraw, none, redraw.facts.previous_target);
            if let Answer::Frame(Some(rect)) = answer {
                lemma_recorded_prepares(redraw, none, Some(rect));
            }
        },
        Question::Minimized => lemma_settled_prepares(redraw, none),
        Question::Restore(_) => lemma_settled_prepares(redraw, seq![Action::ClearMaximized]),
        Question::IncomingThumbnail => lemma_settled_prepares(redraw, none),
        _ => {},
    }
}

/// With animations suppressed no window is handed to an animation, neither at
/// the start of a redraw nor later.
#[verifier::rlimit(30)]
pub proof fn law_suppressed_animations_do_not_start(
    context: RedrawContext,
    facts: WindowFacts,
    redraw: WindowRedraw,
    answer: Answer,
)
    requires
        context.suppress_animations,
        redraw.well_formed(),
        answer.fits(redraw.question),
        redraw.context == context,
    ensures
        all_actions(
            WindowRedraw::began(context, facts),
            |action: Action| action !is StartOpenAnimation,
        ),
        !(WindowRedraw::began(context, facts).next matches Next::Ask(Question::Animate { .. })),
        all_actions(redraw.resumed(answer), |action: Action| action !is StartOpenAnimation),
        !(redraw.resumed(answer).next matches Next::Ask(Question::Animate { .. })),
{
    lemma_transitioned_prepares(WindowRedraw::fresh(context, facts), seq![]);
    if redraw.rank() < 6 {
        lemma_resumed_prepares(redraw, answer);
    }
}

/// A window is uncloaked only when it is on screen, and only once it is in
/// place: right after it was moved, or when it was found where it belongs.
pub proof fn law_windows_are_uncloaked_in_place(redraw: WindowRedraw, answer: Answer)
    requires
        redraw.well_formed(),
        answer.fits(redraw.question),
        !all_actions(redraw.resumed(answer), |action: Action| action != Action::SetCloaked(false)),
    ensures
        redraw.display_state.visible(),
        redraw.question is Reposition || redraw.question is AppliedFrame && answer
            == Answer::Frame(Some(redraw.applied)),
{
    if redraw.rank() < 6 {
        lemma_resumed_prepares(redraw, answer);
    }
}

/// A visible window that is placed is always uncloaked: nothing that an
/// animation had covered stays hidden.
pub proof fn law_placed_windows_are_uncloaked(redraw: WindowRedraw, answer: Answer)
    requires
        redraw.well_formed(),
        answer.fits(redraw.question),
        redraw.question is Reposition,
    ensures
        redraw.resumed(answer).next is Done,
        redraw.display_state.visible() ==> redraw.resumed(answer).actions[0] == Action::SetCloaked(
            false,
        ),
        !redraw.display_state.visible() ==> all_actions(
            redraw.resumed(answer),
            |action: Action| action !is SetCloaked,
        ),
{
}

/// A redraw itself only ever moves a window with a request that does not wait
/// for its application.
pub proof fn law_covered_windows_are_moved_asynchronously(redraw: WindowRedraw, answer: Answer)
    requires
        redraw.well_formed(),
        answer.fits(redraw.question),
    ensures
        all_actions(
            redraw.resumed(answer),
            |action: Action|
                action matches Action::SetWindowPos { rect, flags, .. } ==> window_flags::asynchronous(flags)
                    && rect == redraw.target,
        ),
{
    assert(window_flags::asynchronous(PREPOSITION_FLAGS)) by (bit_vector);
    assert(window_flags::asynchronous(PREPOSITION_FLAGS | SWP_FRAMECHANGED)) by (bit_vector);
    if redraw.rank() < 6 {
        lemma_resumed_prepares(redraw, answer);
    }
}

} // verus!
