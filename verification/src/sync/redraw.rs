//! The course of a redraw: which windows it touches, in what order, and what
//! happens before and after them.
use vstd::prelude::*;

use crate::model::{ContainerId, SyncError};
use crate::sync::order::{
    contains_id, windows_to_bring_to_front, windows_to_update, WorkspaceStack,
};

verus! {

/// A window that a redraw touches.
#[derive(Clone, Copy, Debug, PartialEq, Eq, Structural)]
pub struct RedrawItem {
    pub id: ContainerId,
    /// The window is to be brought to the front.
    pub raise: bool,
    /// The window is to be redrawn, and not only brought to the front.
    pub redraw: bool,
}

/// A part of a redraw. One that fails ends the redraw.
#[derive(Clone, Copy, Debug, PartialEq, Eq, Structural)]
pub enum RedrawPhase {
    /// Applies the geometry of a live resize in one transaction.
    LiveResize,
    /// Covers the monitor for an iris wipe.
    IrisSwitch,
    /// Creates the surrogates of a workspace switch, before any real window is
    /// moved.
    WorkspaceSwitch,
    /// Goes through the windows.
    Windows,
    /// Commits what the windows left behind.
    Finish,
}

/// A redraw that is about to begin.
pub struct RedrawPlan {
    /// The windows that are touched, the most recently focused first.
    pub windows: Vec<ContainerId>,
    /// The windows in the order in which they are gone through: the most
    /// recently focused last, so that it ends up on top.
    pub items: Vec<RedrawItem>,
    pub phases: Vec<RedrawPhase>,
}

/// The window with what is to be done to it.
pub open spec fn item(
    id: ContainerId,
    to_redraw: Seq<ContainerId>,
    to_raise: Seq<ContainerId>,
) -> RedrawItem {
    RedrawItem { id, raise: to_raise.contains(id), redraw: to_redraw.contains(id) }
}

/// The windows in the order in which they are gone through.
pub open spec fn items_of(
    windows: Seq<ContainerId>,
    to_redraw: Seq<ContainerId>,
    to_raise: Seq<ContainerId>,
) -> Seq<RedrawItem> {
    Seq::new(
        windows.len(),
        |i: int| item(windows[windows.len() - 1 - i], to_redraw, to_raise),
    )
}

/// The parts of a redraw, in order. Workspace switches are prepared only if
/// they are animated.
pub open spec fn phases_of(
    switch_animation_enabled: bool,
    suppress_animations: bool,
) -> Seq<RedrawPhase> {
    if switch_animation_enabled && !suppress_animations {
        seq![
            RedrawPhase::LiveResize,
            RedrawPhase::IrisSwitch,
            RedrawPhase::WorkspaceSwitch,
            RedrawPhase::Windows,
            RedrawPhase::Finish,
        ]
    } else {
        seq![RedrawPhase::LiveResize, RedrawPhase::Windows, RedrawPhase::Finish]
    }
}

/// The windows that are brought to the front.
pub open spec fn raised_windows(
    queued: Seq<WorkspaceStack>,
    focused_workspace: WorkspaceStack,
    needs_focus_update: bool,
) -> Seq<ContainerId> {
    let all = crate::sync::order::workspaces_to_reorder(
        queued,
        focused_workspace,
        needs_focus_update,
    );
    crate::sync::order::raised_in(all, all.len())
}

/// Works out the course of a redraw.
pub fn redraw_containers(
    windows_to_redraw: &Vec<ContainerId>,
    queued: &Vec<WorkspaceStack>,
    focused_workspace: Option<&WorkspaceStack>,
    needs_focus_update: bool,
    descendant_focus_order: &Vec<ContainerId>,
    switch_animation_enabled: bool,
    suppress_animations: bool,
) -> (plan: Result<RedrawPlan, SyncError>)
    ensures
        focused_workspace is None <==> plan is Err,
        plan matches Err(error) ==> error == SyncError::NoWorkspace,
        plan matches Ok(plan) ==> {
            let to_raise = raised_windows(queued@, *focused_workspace->0, needs_focus_update);
            &&& plan.windows@ == crate::sync::order::update_order(
                crate::sync::order::unique(windows_to_redraw@ + to_raise),
                descendant_focus_order@,
            )
            &&& plan.items@ == items_of(plan.windows@, windows_to_redraw@, to_raise)
            &&& plan.phases@ == phases_of(switch_animation_enabled, suppress_animations)
        },
{
    let to_raise = match windows_to_bring_to_front(queued, focused_workspace, needs_focus_update) {
        Ok(to_raise) => to_raise,
        Err(error) => return Err(error),
    };
    let windows = windows_to_update(windows_to_redraw, &to_raise, descendant_focus_order);
    let mut items: Vec<RedrawItem> = Vec::new();
    let mut left: usize = windows.len();
    while left > 0
        invariant
            left <= windows.len(),
            items@ =~= items_of(windows@, windows_to_redraw@, to_raise@).take(
                windows@.len() - left,
            ),
        decreases left,
    {
        left -= 1;
        let id = windows[left];
        items.push(
            RedrawItem {
                id,
                raise: contains_id(&to_raise, id),
                redraw: contains_id(windows_to_redraw, id),
            },
        );
    }
    assert(items@ =~= items_of(windows@, windows_to_redraw@, to_raise@));
    let mut phases: Vec<RedrawPhase> = Vec::new();
    phases.push(RedrawPhase::LiveResize);
    if switch_animation_enabled && !suppress_animations {
        phases.push(RedrawPhase::IrisSwitch);
        phases.push(RedrawPhase::WorkspaceSwitch);
    }
    phases.push(RedrawPhase::Windows);
    phases.push(RedrawPhase::Finish);
    Ok(RedrawPlan { windows, items, phases })
}

/// A redraw goes through every window that is to be redrawn or raised, and
/// through no other, each once; a window that was focused more recently comes
/// later.
pub proof fn law_redraws_end_with_the_focused_window(
    to_redraw: Seq<ContainerId>,
    to_raise: Seq<ContainerId>,
    focus: Seq<ContainerId>,
)
    ensures
        ({
            let order = crate::sync::order::update_order(
                crate::sync::order::unique(to_redraw + to_raise),
                focus,
            );
            let items = items_of(order, to_redraw, to_raise);
            &&& forall|i: int|
                0 <= i < items.len() ==> (#[trigger] items[i]).raise || items[i].redraw
            &&& forall|id: ContainerId|
                to_redraw.contains(id) || to_raise.contains(id) ==> exists|i: int|
                    0 <= i < items.len() && (#[trigger] items[i]).id == id
            &&& forall|i: int, j: int|
                0 <= i < j < items.len() ==> {
                    &&& (#[trigger] items[i]).id != (#[trigger] items[j]).id
                    &&& crate::sync::order::focus_rank(focus, items[i].id)
                        >= crate::sync::order::focus_rank(focus, items[j].id)
                }
        }),
{
    let all = to_redraw + to_raise;
    let windows = crate::sync::order::unique(all);
    let order = crate::sync::order::update_order(windows, focus);
    let items = items_of(order, to_redraw, to_raise);
    crate::sync::order::lemma_unique(all);
    crate::sync::order::law_update_order_is_a_stable_sort(windows, focus);
    assert forall|i: int| 0 <= i < items.len() implies (#[trigger] items[i]).raise
        || items[i].redraw by {
        let id = order[order.len() - 1 - i];
        assert(order.contains(id));
        assert(windows.contains(id));
        let k = choose|k: int| 0 <= k < all.len() && all[k] == id;
        if k < to_redraw.len() {
            assert(to_redraw[k] == id);
        } else {
            assert(to_raise[k - to_redraw.len()] == id);
        }
    }
    assert forall|id: ContainerId| to_redraw.contains(id) || to_raise.contains(id) implies exists|
        i: int,
    | 0 <= i < items.len() && (#[trigger] items[i]).id == id by {
        if to_redraw.contains(id) {
            let k = choose|k: int| 0 <= k < to_redraw.len() && to_redraw[k] == id;
            assert(all[k] == id);
        } else {
            let k = choose|k: int| 0 <= k < to_raise.len() && to_raise[k] == id;
            assert(all[to_redraw.len() + k] == id);
        }
        assert(all.contains(id));
        assert(windows.contains(id));
        assert(order.contains(id));
        let k = choose|k: int| 0 <= k < order.len() && order[k] == id;
        assert(items[order.len() - 1 - k].id == id);
    }
    assert forall|i: int, j: int| 0 <= i < j < items.len() implies {
        &&& (#[trigger] items[i]).id != (#[trigger] items[j]).id
        &&& crate::sync::order::focus_rank(focus, items[i].id) >= crate::sync::order::focus_rank(
            focus,
            items[j].id,
        )
    } by {
        let a = order[order.len() - 1 - j];
        let b = order[order.len() - 1 - i];
        assert(items[j].id == a && items[i].id == b);
    }
}

/// Every window is raised exactly if it is among those to raise, and redrawn
/// exactly if it is among those to redraw. Windows are gone through from the
/// least recently focused one on, and those that were never focused come last.
pub proof fn law_items_say_what_is_done(
    to_redraw: Seq<ContainerId>,
    to_raise: Seq<ContainerId>,
    focus: Seq<ContainerId>,
    i: int,
    j: int,
)
    requires
        0 <= i < j < items_of(
            crate::sync::order::update_order(
                crate::sync::order::unique(to_redraw + to_raise),
                focus,
            ),
            to_redraw,
            to_raise,
        ).len(),
    ensures
        ({
            let items = items_of(
                crate::sync::order::update_order(
                    crate::sync::order::unique(to_redraw + to_raise),
                    focus,
                ),
                to_redraw,
                to_raise,
            );
            let earlier = items[i];
            let later = items[j];
            &&& earlier.raise <==> to_raise.contains(earlier.id)
            &&& earlier.redraw <==> to_redraw.contains(earlier.id)
            &&& later.raise <==> to_raise.contains(later.id)
            &&& later.redraw <==> to_redraw.contains(later.id)
            &&& focus.contains(later.id) ==> focus.contains(earlier.id)
            &&& focus.contains(later.id) ==> focus.index_of_first(later.id)->0
                < focus.index_of_first(earlier.id)->0
        }),
{
    let windows = crate::sync::order::unique(to_redraw + to_raise);
    let order = crate::sync::order::update_order(windows, focus);
    crate::sync::order::lemma_unique(to_redraw + to_raise);
    crate::sync::order::law_recent_focus_comes_first(
        windows,
        focus,
        order.len() - 1 - j,
        order.len() - 1 - i,
    );
}

/// A single window, too, is raised and redrawn exactly as asked for.
pub proof fn law_an_item_says_what_is_done(
    windows: Seq<ContainerId>,
    to_redraw: Seq<ContainerId>,
    to_raise: Seq<ContainerId>,
    i: int,
)
    requires
        0 <= i < windows.len(),
    ensures
        items_of(windows, to_redraw, to_raise).len() == windows.len(),
        ({
            let done = items_of(windows, to_redraw, to_raise)[i];
            &&& done.id == windows[windows.len() - 1 - i]
            &&& done.raise <==> to_raise.contains(done.id)
            &&& done.redraw <==> to_redraw.contains(done.id)
        }),
{
}

/// The windows are always gone through, after the live resize and before the
/// end. A switch of workspaces is prepared before them exactly if it is animated,
/// the iris wipe before the surrogates.
pub proof fn law_switches_are_prepared_before_the_windows(
    switch_animation_enabled: bool,
    suppress_animations: bool,
)
    ensures
        ({
            let phases = phases_of(switch_animation_enabled, suppress_animations);
            let n = phases.len() as int;
            &&& n >= 3
            &&& phases[0] is LiveResize
            &&& phases[n - 2] is Windows
            &&& phases[n - 1] is Finish
            &&& n == 3 <==> !switch_animation_enabled || suppress_animations
            &&& n != 3 ==> n == 5 && phases[1] is IrisSwitch && phases[2] is WorkspaceSwitch
        }),
{
}

/// What is raised comes from the queued workspaces and, on a change of focus,
/// from the focused one.
pub proof fn law_raised_windows_come_from_their_workspaces(
    queued: Seq<WorkspaceStack>,
    focused_workspace: WorkspaceStack,
    needs_focus_update: bool,
    id: ContainerId,
)
    ensures
        raised_windows(queued, focused_workspace, needs_focus_update).contains(id) <==> {
            ||| exists|j: int|
                0 <= j < queued.len() && crate::sync::order::first_listed(queued, j) && (
                #[trigger] queued[j]).raised().contains(id)
            ||| needs_focus_update && focused_workspace.raised().contains(id) && forall|j: int|
                0 <= j < queued.len() ==> (#[trigger] queued[j]).id != focused_workspace.id
        },
{
    let all = crate::sync::order::workspaces_to_reorder(
        queued,
        focused_workspace,
        needs_focus_update,
    );
    let n = queued.len() as int;
    crate::sync::order::law_every_listed_workspace_raises_its_windows(all, all.len(), id);
    crate::sync::order::law_focus_changes_restore_the_focused_workspace(
        queued,
        focused_workspace,
        needs_focus_update,
    );
    assert forall|j: int| 0 <= j < n implies crate::sync::order::first_listed(all, j)
        == #[trigger] crate::sync::order::first_listed(queued, j) by {
        if crate::sync::order::first_listed(all, j) {
            assert forall|i: int| 0 <= i < j implies #[trigger] queued[i].id != queued[j].id by {
                assert(all[i].id != all[j].id);
            }
        }
    }
    if raised_windows(queued, focused_workspace, needs_focus_update).contains(id) {
        let j = choose|j: int|
            0 <= j < all.len() && crate::sync::order::first_listed(all, j) && (
            #[trigger] all[j]).raised().contains(id);
        if j < n {
            assert(queued[j].raised().contains(id));
            assert(crate::sync::order::first_listed(queued, j));
        } else {
            assert forall|i: int| 0 <= i < n implies (#[trigger] queued[i]).id
                != focused_workspace.id by {
                assert(all[i].id != all[j].id);
            }
        }
    }
    if exists|j: int|
        0 <= j < queued.len() && crate::sync::order::first_listed(queued, j) && (
        #[trigger] queued[j]).raised().contains(id) {
        let j = choose|j: int|
            0 <= j < queued.len() && crate::sync::order::first_listed(queued, j) && (
            #[trigger] queued[j]).raised().contains(id);
        assert(all[j].raised().contains(id));
        assert(crate::sync::order::first_listed(all, j));
    }
    if needs_focus_update && focused_workspace.raised().contains(id) && forall|j: int|
        0 <= j < queued.len() ==> (#[trigger] queued[j]).id != focused_workspace.id {
        assert(all[n] == focused_workspace);
        assert forall|i: int| 0 <= i < n implies #[trigger] all[i].id != all[n].id by {
            assert(queued[i].id != focused_workspace.id);
        }
        assert(crate::sync::order::first_listed(all, n));
        assert(all[n].raised().contains(id));
    }
}

} // verus!
