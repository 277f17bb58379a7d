//! What a redraw does to a window, from its start to its end.
use vstd::prelude::*;

use crate::geometry::Rect;
use crate::sync::window::{
    Action, AnimationPositionResult, Answer, Next, Outcome, Question, RedrawContext, WindowFacts,
    WindowRedraw,
};

verus! {

/// The window is asked to go to the frame, or is looked at to see whether it
/// already is there.
pub open spec fn sends_to(outcome: Outcome, rect: Rect) -> bool {
    outcome.next == Next::Ask(Question::PreCommitted(rect)) || outcome.next == Next::Ask(
        Question::Reposition(rect),
    )
}

/// A window is sent to its frame in the layout, or to the frame that its
/// animation gave for it, and nowhere else. A frame that was decided on is kept
/// until the window is there.
pub proof fn law_windows_are_sent_to_their_frames(redraw: WindowRedraw, answer: Answer, rect: Rect)
    requires
        redraw.well_formed(),
        answer.fits(redraw.question),
        sends_to(redraw.resumed(answer), rect),
    ensures
        redraw.resumed(answer).redraw.applied == rect,
        match redraw.question {
            Question::SlideIn => redraw.facts.target == Some(rect),
            Question::Animate { .. } => answer matches Answer::Position {
                result: AnimationPositionResult::Apply(frame),
                ..
            } && frame == rect,
            Question::PreCommitted(frame) => frame == rect,
            Question::AppliedFrame => redraw.applied == rect,
            _ => false,
        },
{
    if redraw.rank() < 6 {
        lemma_early(redraw, answer);
    }
}

/// What an answer leads to.
#[verifier::opaque]
pub open spec fn step(redraw: WindowRedraw, answer: Answer) -> Outcome {
    redraw.resumed(answer)
}

/// The redraw waits for the answer.
#[verifier::opaque]
pub open spec fn awaits(redraw: WindowRedraw, answer: Answer) -> bool {
    redraw.well_formed() && answer.fits(redraw.question)
}

/// How a redraw starts.
#[verifier::opaque]
pub open spec fn start(context: RedrawContext, facts: WindowFacts) -> Outcome {
    WindowRedraw::began(context, facts)
}

/// One redraw follows from the other by the answer.
pub open spec fn follows(next: WindowRedraw, redraw: WindowRedraw, answer: Answer) -> bool {
    &&& awaits(redraw, answer)
    &&& step(redraw, answer).redraw == next
    &&& step(redraw, answer).next == Next::Ask(next.question)
}

/// The redraws that follow each other, given the answers to their questions.
pub open spec fn is_run(
    context: RedrawContext,
    facts: WindowFacts,
    run: Seq<WindowRedraw>,
    answers: Seq<Answer>,
) -> bool {
    &&& run.len() == answers.len() + 1
    &&& start(context, facts).redraw == run[0]
    &&& start(context, facts).next == Next::Ask(run[0].question)
    &&& forall|i: int|
        0 <= i < answers.len() ==> follows(run[i + 1], #[trigger] run[i], answers[i])
}

/// The animation answered that the window belongs at the frame.
pub open spec fn animation_gave(
    run: Seq<WindowRedraw>,
    answers: Seq<Answer>,
    rect: Rect,
) -> bool {
    exists|i: int|
        0 <= i < answers.len() && (#[trigger] run[i]).question is Animate && (answers[i]
            matches Answer::Position { result: AnimationPositionResult::Apply(frame), .. } && frame
            == rect)
}

/// Throughout a whole redraw, every frame that the window is moved to is its
/// frame in the layout or one that its animation gave. A window that is not
/// animated is moved to its frame in the layout.
pub proof fn law_redraws_lead_to_the_layout(
    context: RedrawContext,
    facts: WindowFacts,
    run: Seq<WindowRedraw>,
    answers: Seq<Answer>,
)
    requires
        is_run(context, facts, run, answers),
    ensures
        run.last().facts == facts,
        run.last().context == context,
        run.last().question matches Question::Reposition(rect) ==> facts.target == Some(rect)
            || animation_gave(run, answers, rect),
        run.last().question is PreCommitted || run.last().question is AppliedFrame ==> facts.target
            == Some(run.last().applied) || animation_gave(run, answers, run.last().applied),
        run.last().question matches Question::Restore(rect) ==> facts.target == Some(rect),
    decreases answers.len(),
{
    if answers.len() == 0 {
        lemma_start(context, facts);
    } else {
        let n = answers.len() - 1;
        let shorter = run.drop_last();
        let before = answers.drop_last();
        assert forall|i: int| 0 <= i < before.len() implies follows(
            shorter[i + 1],
            #[trigger] shorter[i],
            before[i],
        ) by {
            assert(follows(run[i + 1], run[i], answers[i]));
        }
        law_redraws_lead_to_the_layout(context, facts, shorter, before);
        let last = run[n];
        assert(last == shorter.last());
        assert(follows(run[n + 1], run[n], answers[n]));
        lemma_step(last, answers[n]);
        let rect = run.last().applied;
        if animation_gave(shorter, before, rect) {
            let i = choose|i: int|
                0 <= i < before.len() && (#[trigger] shorter[i]).question is Animate && (before[i]
                    matches Answer::Position { result: AnimationPositionResult::Apply(frame), .. }
                    && frame == rect);
            assert(run[i] == shorter[i]);
            assert(answers[i] == before[i]);
            assert(animation_gave(run, answers, rect));
        }
        if last.question is Animate {
            assert(run[n].question is Animate);
        }
    }
}

/// The start of a redraw knows the window, and asks about its state first.
proof fn lemma_start(context: RedrawContext, facts: WindowFacts)
    ensures
        start(context, facts).redraw.facts == facts,
        start(context, facts).redraw.context == context,
        start(context, facts).next matches Next::Ask(question) ==> question is NativelyMinimized
            || question is SwitchRect || question is Maximized || question is IncomingThumbnail
            || question is SlideIn,
{
    reveal(start);
}

/// What an answer leads to: the window stays known, and the frame that it is
/// sent to is the one of the layout, the one of the animation, or the one that
/// was already decided on.
#[verifier::rlimit(50)]
proof fn lemma_step(redraw: WindowRedraw, answer: Answer)
    requires
        awaits(redraw, answer),
    ensures
        step(redraw, answer).redraw.facts == redraw.facts,
        step(redraw, answer).redraw.context == redraw.context,
        step(redraw, answer).next matches Next::Ask(question) ==> {
            let applied = step(redraw, answer).redraw.applied;
            &&& question matches Question::Reposition(rect) ==> rect == applied
            &&& question matches Question::Restore(rect) ==> redraw.facts.target == Some(rect)
            &&& question is PreCommitted || question is AppliedFrame || question is Reposition ==> {
                ||| redraw.question is SlideIn && redraw.facts.target == Some(applied)
                ||| redraw.question is Animate && (answer matches Answer::Position {
                    result: AnimationPositionResult::Apply(frame),
                    ..
                } && frame == applied)
                ||| (redraw.question is PreCommitted || redraw.question is AppliedFrame)
                    && applied == redraw.applied
            }
        },
{
    reveal(step);
    reveal(awaits);
    if redraw.rank() < 6 {
        lemma_early(redraw, answer);
    }
}

/// Before the animations are asked, the window is not sent anywhere.
spec fn undecided(outcome: Outcome, redraw: WindowRedraw) -> bool {
    &&& outcome.redraw.facts == redraw.facts
    &&& outcome.redraw.context == redraw.context
    &&& outcome.next matches Next::Ask(question) ==> question is SwitchRect || question is Maximized
        || question is IncomingThumbnail || question is SlideIn
}

proof fn lemma_settled(redraw: WindowRedraw, actions: Seq<Action>)
    ensures
        undecided(redraw.settled(actions), redraw),
        forall|frozen: bool| undecided(#[trigger] redraw.opened(actions, frozen), redraw),
{
}

proof fn lemma_recorded(redraw: WindowRedraw, actions: Seq<Action>, previous: Option<Rect>)
    ensures
        undecided(redraw.recorded(actions, previous), redraw),
{
    let next = WindowRedraw { previous, ..redraw };
    let recorded = actions.push(Action::RecordTarget(redraw.target));
    lemma_settled(next, recorded);
    lemma_settled(next, recorded.push(Action::RemoveAnimation));
    lemma_settled(next, recorded.push(Action::RemoveWindowAnimation));
}

proof fn lemma_transitioned(redraw: WindowRedraw, actions: Seq<Action>)
    ensures
        undecided(redraw.transitioned(actions), redraw),
{
    let display_state = redraw.facts.display_state.after(redraw.facts.displayed());
    if let Some(target) = redraw.facts.target {
        lemma_recorded(
            WindowRedraw { display_state, target, ..redraw },
            actions.push(Action::SetDisplayState(display_state)),
            redraw.facts.previous_target,
        );
    }
}

proof fn lemma_early(redraw: WindowRedraw, answer: Answer)
    requires
        redraw.well_formed(),
        answer.fits(redraw.question),
        redraw.rank() < 6,
    ensures
        redraw.resumed(answer).redraw.facts == redraw.facts,
        redraw.resumed(answer).redraw.context == redraw.context,
        redraw.resumed(answer).next matches Next::Ask(question) ==> {
            &&& question !is PreCommitted
            &&& question !is AppliedFrame
            &&& question !is Reposition
            &&& question matches Question::Restore(rect) ==> redraw.facts.target == Some(rect)
        },
{
    let none = Seq::<Action>::empty();
    match redraw.question {
        Question::NativelyMinimized => lemma_transitioned(redraw, none),
        Question::SwitchRect => {
            lemma_recorded(redraw, none, redraw.facts.previous_target);
            if let Answer::Frame(Some(rect)) = answer {
                lemma_recorded(redraw, none, Some(rect));
            }
        },
        Question::Minimized => lemma_settled(redraw, none),
        Question::Restore(_) => lemma_settled(redraw, seq![Action::ClearMaximized]),
        Question::IncomingThumbnail => lemma_settled(redraw, none),
        _ => {},
    }
}

} // verus!
