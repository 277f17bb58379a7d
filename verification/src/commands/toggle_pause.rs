//! Pausing and resuming the window manager.
use vstd::prelude::*;

use crate::model::ContainerId;
use crate::state::WmState;

verus! {

/// A managed window as far as a pause is concerned.
#[derive(Clone, Copy, Debug, PartialEq, Eq, Structural)]
pub struct PauseWindow {
    pub id: ContainerId,
    /// The window is in a workspace that is on screen.
    pub workspace_displayed: bool,
}

/// What accompanies a change of the pause.
#[derive(Clone, Copy, Debug, PartialEq, Eq, Structural)]
pub enum PauseAction {
    /// Ends all animations at their final frames.
    FinishAnimations,
    ClearDrag(ContainerId),
    Uncloak(ContainerId),
    ClearBorder(ContainerId),
    EmitPauseChanged(bool),
}

/// Every window is released: its drag ends, and it is uncloaked if its
/// workspace is on screen.
pub open spec fn releases(windows: Seq<PauseWindow>) -> Seq<PauseAction>
    decreases windows.len(),
{
    if windows.len() == 0 {
        seq![]
    } else {
        let window = windows.last();
        let released = releases(windows.drop_last()).push(PauseAction::ClearDrag(window.id));
        if window.workspace_displayed {
            released.push(PauseAction::Uncloak(window.id))
        } else {
            released
        }
    }
}

/// Every window loses its border.
pub open spec fn border_clears(windows: Seq<PauseWindow>) -> Seq<PauseAction> {
    windows.map_values(|window: PauseWindow| PauseAction::ClearBorder(window.id))
}

/// Pauses or unpauses the WM.
///
/// A pause leaves nothing of the manager behind: animations and drags end,
/// what was queued is forgotten and borders are removed. On unpause the full
/// container tree is redrawn, without animations.
pub fn toggle_pause(state: &mut WmState, windows: &Vec<PauseWindow>) -> (actions: Vec<PauseAction>)
    ensures
        final(state).is_paused == !old(state).is_paused,
        !final(state).focus_outline,
        !final(state).resize_cursor_clip,
        final(state).root == old(state).root,
        final(state).desktop_windows == old(state).desktop_windows,
        final(state).desktop_animation == old(state).desktop_animation,
        final(state).ignored_windows == old(state).ignored_windows,
        final(state).prev_effects_window == old(state).prev_effects_window,
        !old(state).is_paused ==> {
            &&& actions@ == seq![PauseAction::FinishAnimations] + releases(windows@)
                + border_clears(windows@) + seq![PauseAction::EmitPauseChanged(true)]
            &&& final(state).pending_sync.idle()
            &&& final(state).window_target_positions@.dom() =~= Set::empty()
            &&& final(state).border_effect_generation == old(
                state,
            ).border_effect_generation.wrapping_add(1)
            &&& final(state).border_effect_generation != old(state).border_effect_generation
        },
        old(state).is_paused ==> {
            &&& actions@ == seq![PauseAction::EmitPauseChanged(false)]
            &&& final(state).pending_sync.animations_suppressed
            &&& final(state).pending_sync.needs_all_effects_update
            &&& final(state).pending_sync.containers_to_redraw@ == crate::state::queued(
                old(state).pending_sync.containers_to_redraw@,
                old(state).root,
            )
            &&& final(state).pending_sync.workspaces_to_reorder == old(
                state,
            ).pending_sync.workspaces_to_reorder
            &&& final(state).pending_sync.needs_focus_update == old(
                state,
            ).pending_sync.needs_focus_update
            &&& final(state).pending_sync.needs_cursor_jump == old(
                state,
            ).pending_sync.needs_cursor_jump
            &&& final(state).pending_sync.needs_focused_effect_update == old(
                state,
            ).pending_sync.needs_focused_effect_update
            &&& final(state).window_target_positions@ == old(state).window_target_positions@
            &&& final(state).border_effect_generation == old(state).border_effect_generation
        },
{
    let mut actions: Vec<PauseAction> = Vec::new();
    state.resize_cursor_clip = false;
    state.focus_outline = false;
    let is_paused = !state.is_paused;
    state.is_paused = is_paused;
    if is_paused {
        actions.push(PauseAction::FinishAnimations);
        state.pending_sync.clear();
        state.window_target_positions.clear();
        let mut i: usize = 0;
        assert(windows@.take(0) =~= seq![]);
        while i < windows.len()
            invariant
                i <= windows.len(),
                actions@ =~= seq![PauseAction::FinishAnimations] + releases(
                    windows@.take(i as int),
                ),
            decreases windows.len() - i,
        {
            assert(windows@.take(i + 1).drop_last() =~= windows@.take(i as int));
            actions.push(PauseAction::ClearDrag(windows[i].id));
            if windows[i].workspace_displayed {
                actions.push(PauseAction::Uncloak(windows[i].id));
            }
            i += 1;
        }
        assert(windows@.take(windows@.len() as int) =~= windows@);
        state.invalidate_borders();
        let ghost released = actions@;
        let mut j: usize = 0;
        while j < windows.len()
            invariant
                j <= windows.len(),
                actions@ =~= released + border_clears(windows@.take(j as int)),
            decreases windows.len() - j,
        {
            actions.push(PauseAction::ClearBorder(windows[j].id));
            j += 1;
        }
    } else {
        state.pending_sync.animations_suppressed = true;
        state.pending_sync.needs_all_effects_update = true;
        let root: ContainerId = state.root;
        state.pending_sync.queue_container_to_redraw(root);
    }
    actions.push(PauseAction::EmitPauseChanged(is_paused));
    actions
}

/// The action releases the window.
pub open spec fn releases_window(action: PauseAction, window: PauseWindow) -> bool {
    ||| action == PauseAction::ClearDrag(window.id)
    ||| action == PauseAction::Uncloak(window.id) && window.workspace_displayed
}

/// A pause ends the drag of every window, uncloaks every window of a displayed
/// workspace, and releases nothing else.
pub proof fn law_pauses_release_every_window(windows: Seq<PauseWindow>, action: PauseAction)
    ensures
        releases(windows).contains(action) <==> exists|i: int|
            0 <= i < windows.len() && releases_window(action, #[trigger] windows[i]),
    decreases windows.len(),
{
    if windows.len() > 0 {
        let front = windows.drop_last();
        let last = windows.last();
        let before = releases(front);
        let all = releases(windows);
        law_pauses_release_every_window(front, action);
        assert(all[before.len() as int] == PauseAction::ClearDrag(last.id));
        if last.workspace_displayed {
            assert(all[before.len() as int + 1] == PauseAction::Uncloak(last.id));
        }
        if all.contains(action) {
            let m = choose|m: int| 0 <= m < all.len() && all[m] == action;
            if m < before.len() {
                assert(before[m] == action);
                let i = choose|i: int|
                    0 <= i < front.len() && releases_window(action, #[trigger] front[i]);
                assert(windows[i] == front[i]);
            } else {
                assert(releases_window(action, windows[windows.len() - 1]));
            }
        }
        if exists|i: int| 0 <= i < windows.len() && releases_window(action, #[trigger] windows[i]) {
            let i = choose|i: int|
                0 <= i < windows.len() && releases_window(action, #[trigger] windows[i]);
            if i < front.len() {
                assert(front[i] == windows[i]);
                let m = choose|m: int| 0 <= m < before.len() && before[m] == action;
                assert(all[m] == action);
            } else {
                assert(windows[i] == last);
            }
        }
    }
}

/// A pause clears the border of every window, in order.
pub proof fn law_pauses_clear_every_border(windows: Seq<PauseWindow>, i: int)
    requires
        0 <= i < windows.len(),
    ensures
        border_clears(windows).len() == windows.len(),
        border_clears(windows)[i] == PauseAction::ClearBorder(windows[i].id),
{
}

/// Every window is released once: no action is repeated, and the drag of a
/// window ends before the window is uncloaked.
pub proof fn law_pauses_release_windows_once(windows: Seq<PauseWindow>, i: int, j: int)
    requires
        forall|a: int, b: int|
            0 <= a < b < windows.len() ==> (#[trigger] windows[a]).id != (#[trigger] windows[b]).id,
        0 <= i < j < releases(windows).len(),
    ensures
        releases(windows)[i] != releases(windows)[j],
        releases(windows)[i] matches PauseAction::Uncloak(id) ==> releases(windows)[j]
            != PauseAction::ClearDrag(id),
    decreases windows.len(),
{
    let front = windows.drop_last();
    let last = windows.last();
    let before = releases(front);
    let all = releases(windows);
    assert forall|a: int, b: int| 0 <= a < b < front.len() implies (#[trigger] front[a]).id != (
    #[trigger] front[b]).id by {
        assert(windows[a].id != windows[b].id);
    }
    if j < before.len() {
        law_pauses_release_windows_once(front, i, j);
    } else if i < before.len() {
        assert(before[i] == all[i]);
        assert(before.contains(before[i]));
        law_pauses_release_every_window(front, before[i]);
        let k = choose|k: int|
            0 <= k < front.len() && releases_window(before[i], #[trigger] front[k]);
        assert(windows[k].id != windows[windows.len() - 1].id);
    }
}

} // verus!
