//! Bringing the platform in line with the window manager's state.
use vstd::prelude::*;

use crate::geometry::Rect;
use crate::model::{SyncError, WindowState};
use crate::state::WmState;

verus! {

/// Whether a managed window was natively minimized without its event having
/// arrived yet. The shell's "minimize all" changes several windows before
/// their events come; a redraw must not undo that. A window whose state was
/// changed by a command keeps the state that it was given.
pub fn needs_reconciling(
    state: WindowState,
    state_change: bool,
    natively_minimized: Option<bool>,
) -> (needed: bool)
    ensures
        needed == (state !is Minimized && !state_change && natively_minimized == Some(true)),
{
    !state.is_minimized() && !state_change && matches!(natively_minimized, Some(true))
}

/// A part of a synchronisation. One that fails ends the synchronisation.
#[derive(Clone, Copy, Debug, PartialEq, Eq, Structural)]
pub enum SyncStep {
    RedrawContainers,
    SyncFocus,
    JumpCursor,
    UpdateEffects,
    /// Forgets what was queued.
    ClearPending,
}

/// The parts of a synchronisation that the state calls for, in order.
///
/// Focus comes after the redraw, so that a workspace switch is already set up
/// when it is decided whether focus has to wait for it.
pub open spec fn sync_steps(state: WmState, cursor_jump_enabled: bool) -> Seq<SyncStep> {
    let pending = state.pending_sync;
    let redraw = if pending.containers_to_redraw@.len() > 0 || pending.workspaces_to_reorder@.len()
        > 0 {
        seq![SyncStep::RedrawContainers]
    } else {
        seq![]
    };
    let focus = if pending.needs_focus_update {
        seq![SyncStep::SyncFocus]
    } else {
        seq![]
    };
    let jump = if pending.needs_cursor_jump && cursor_jump_enabled {
        seq![SyncStep::JumpCursor]
    } else {
        seq![]
    };
    let effects = if !state.is_paused && (pending.needs_focused_effect_update
        || pending.needs_all_effects_update) {
        seq![SyncStep::UpdateEffects]
    } else {
        seq![]
    };
    redraw + focus + jump + effects + seq![SyncStep::ClearPending]
}

/// Works out the parts of a synchronisation. While the desktop is shown
/// nothing is synchronised.
pub fn platform_sync(
    state: &WmState,
    has_focused_container: bool,
    cursor_jump_enabled: bool,
) -> (steps: Result<Vec<SyncStep>, SyncError>)
    ensures
        steps is Err <==> state.desktop_windows is None && !has_focused_container,
        steps matches Err(error) ==> error == SyncError::NoFocusedContainer,
        steps matches Ok(steps) ==> steps@ == if state.desktop_windows is Some {
            seq![]
        } else {
            sync_steps(*state, cursor_jump_enabled)
        },
{
    let mut steps: Vec<SyncStep> = Vec::new();
    if state.desktop_windows.is_some() {
        return Ok(steps);
    }
    if !has_focused_container {
        return Err(SyncError::NoFocusedContainer);
    }
    let pending = &state.pending_sync;
    if pending.containers_to_redraw.len() > 0 || pending.workspaces_to_reorder.len() > 0 {
        steps.push(SyncStep::RedrawContainers);
    }
    if pending.needs_focus_update {
        steps.push(SyncStep::SyncFocus);
    }
    if pending.needs_cursor_jump && cursor_jump_enabled {
        steps.push(SyncStep::JumpCursor);
    }
    if !state.is_paused && (pending.needs_focused_effect_update
        || pending.needs_all_effects_update) {
        steps.push(SyncStep::UpdateEffects);
    }
    steps.push(SyncStep::ClearPending);
    assert(steps@ =~= sync_steps(*state, cursor_jump_enabled));
    Ok(steps)
}

/// A window's frame in the layout and the one that it was last sent to.
#[derive(Clone, Copy, Debug, PartialEq, Eq, Structural)]
pub struct FrameChange {
    pub target: Option<Rect>,
    pub previous: Option<Rect>,
}

impl FrameChange {
    /// Both frames are known and differ in size.
    pub open spec fn resizes(self) -> bool {
        self.target matches Some(target) && self.previous matches Some(previous) && (
        previous.spec_width() != target.spec_width() || previous.spec_height()
            != target.spec_height())
    }
}

/// Whether any window of a redraw changes its size. Windows that only move then
/// share the timing of a resize, so that all edges stay in lock-step.
pub fn cycle_has_resize(windows: &Vec<FrameChange>) -> (resizes: bool)
    ensures
        resizes == exists|i: int| 0 <= i < windows@.len() && #[trigger] windows@[i].resizes(),
{
    let mut i: usize = 0;
    while i < windows.len()
        invariant
            i <= windows.len(),
            forall|k: int| 0 <= k < i ==> !#[trigger] windows@[k].resizes(),
        decreases windows.len() - i,
    {
        let window = windows[i];
        if let (Some(target), Some(previous)) = (window.target, window.previous) {
            if !previous.same_size(&target) {
                assert(windows@[i as int].resizes());
                return true;
            }
        }
        assert(!windows@[i as int].resizes());
        i += 1;
    }
    false
}

/// A paused manager never changes effects, and a synchronisation that goes
/// through always ends with an empty queue.
pub proof fn law_a_sync_ends_by_clearing(state: WmState, cursor_jump_enabled: bool)
    ensures
        sync_steps(state, cursor_jump_enabled).last() is ClearPending,
        state.is_paused ==> !sync_steps(state, cursor_jump_enabled).contains(
            SyncStep::UpdateEffects,
        ),
        state.pending_sync.idle() ==> sync_steps(state, cursor_jump_enabled) == seq![
            SyncStep::ClearPending,
        ],
{
    assert(state.pending_sync.idle() ==> sync_steps(state, cursor_jump_enabled) =~= seq![
        SyncStep::ClearPending,
    ]);
}

/// Focus is never handed over before the windows are redrawn.
pub proof fn law_focus_follows_redraw(
    state: WmState,
    cursor_jump_enabled: bool,
    i: int,
    j: int,
)
    requires
        0 <= i < sync_steps(state, cursor_jump_enabled).len(),
        0 <= j < sync_steps(state, cursor_jump_enabled).len(),
        sync_steps(state, cursor_jump_enabled)[i] is RedrawContainers,
        sync_steps(state, cursor_jump_enabled)[j] is SyncFocus,
    ensures
        i < j,
{
}

/// The place of a step among all steps.
pub open spec fn place_of(step: SyncStep) -> int {
    match step {
        SyncStep::RedrawContainers => 0,
        SyncStep::SyncFocus => 1,
        SyncStep::JumpCursor => 2,
        SyncStep::UpdateEffects => 3,
        SyncStep::ClearPending => 4,
    }
}

/// Everything that is queued is done before the queue is cleared, and nothing
/// else is: windows are redrawn if containers or workspaces wait for it, focus
/// is handed over and the cursor moved if that is asked for, and effects are
/// updated for the focused window or for all, unless the manager is paused.
/// Each is done once, in a fixed order.
pub proof fn law_queued_work_is_done(state: WmState, cursor_jump_enabled: bool)
    ensures
        ({
            let steps = sync_steps(state, cursor_jump_enabled);
            let pending = state.pending_sync;
            &&& steps.contains(SyncStep::RedrawContainers) <==> pending.containers_to_redraw@.len()
                > 0 || pending.workspaces_to_reorder@.len() > 0
            &&& steps.contains(SyncStep::SyncFocus) <==> pending.needs_focus_update
            &&& steps.contains(SyncStep::JumpCursor) <==> pending.needs_cursor_jump
                && cursor_jump_enabled
            &&& steps.contains(SyncStep::UpdateEffects) <==> !state.is_paused && (
            pending.needs_focused_effect_update || pending.needs_all_effects_update)
            &&& steps.contains(SyncStep::ClearPending)
            &&& forall|i: int, j: int|
                0 <= i < j < steps.len() ==> place_of(#[trigger] steps[i]) < place_of(
                    #[trigger] steps[j],
                )
        }),
{
    let steps = sync_steps(state, cursor_jump_enabled);
    let pending = state.pending_sync;
    let redraws = pending.containers_to_redraw@.len() > 0 || pending.workspaces_to_reorder@.len()
        > 0;
    let jumps = pending.needs_cursor_jump && cursor_jump_enabled;
    let effects = !state.is_paused && (pending.needs_focused_effect_update
        || pending.needs_all_effects_update);
    let a: int = if redraws { 1 } else { 0 };
    let b: int = if pending.needs_focus_update { a + 1 } else { a };
    let c: int = if jumps { b + 1 } else { b };
    let d: int = if effects { c + 1 } else { c };
    assert(steps.len() == d + 1);
    assert(redraws ==> steps[0] is RedrawContainers);
    assert(pending.needs_focus_update ==> steps[a] is SyncFocus);
    assert(jumps ==> steps[b] is JumpCursor);
    assert(effects ==> steps[c] is UpdateEffects);
    assert(steps[d] is ClearPending);
}

/// A change of size is a change of the width or of the height.
pub proof fn law_resizes_change_an_extent(change: FrameChange)
    ensures
        change.resizes() <==> change.target is Some && change.previous is Some && (
        change.target->0.right - change.target->0.left != change.previous->0.right
            - change.previous->0.left || change.target->0.bottom - change.target->0.top
            != change.previous->0.bottom - change.previous->0.top),
{
}

} // verus!
