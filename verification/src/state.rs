//! The window manager's state, as far as its commands decide over it.
use std::collections::HashMap;
use vstd::prelude::*;

use crate::commands::toggle_desktop::DesktopMotion;
use crate::geometry::Rect;
use crate::model::{ContainerId, NativeHandle};
use crate::sync::order::contains_id;

verus! {

/// What the next synchronisation with the platform has to do.
pub struct PendingSync {
    pub containers_to_redraw: Vec<ContainerId>,
    pub workspaces_to_reorder: Vec<ContainerId>,
    pub needs_focus_update: bool,
    pub needs_cursor_jump: bool,
    pub needs_focused_effect_update: bool,
    pub needs_all_effects_update: bool,
    pub animations_suppressed: bool,
}

/// A queue with one more container, unless it is already queued.
pub open spec fn queued(queue: Seq<ContainerId>, id: ContainerId) -> Seq<ContainerId> {
    if queue.contains(id) {
        queue
    } else {
        queue.push(id)
    }
}

/// A queue with more containers, each queued once.
pub open spec fn queued_all(queue: Seq<ContainerId>, ids: Seq<ContainerId>) -> Seq<ContainerId>
    decreases ids.len(),
{
    if ids.len() == 0 {
        queue
    } else {
        queued(queued_all(queue, ids.drop_last()), ids.last())
    }
}

impl PendingSync {
    /// Nothing is queued.
    pub open spec fn idle(self) -> bool {
        &&& self.containers_to_redraw@ == Seq::<ContainerId>::empty()
        &&& self.workspaces_to_reorder@ == Seq::<ContainerId>::empty()
        &&& !self.needs_focus_update
        &&& !self.needs_cursor_jump
        &&& !self.needs_focused_effect_update
        &&& !self.needs_all_effects_update
        &&& !self.animations_suppressed
    }

    pub fn new() -> (pending: PendingSync)
        ensures
            pending.idle(),
    {
        PendingSync {
            containers_to_redraw: Vec::new(),
            workspaces_to_reorder: Vec::new(),
            needs_focus_update: false,
            needs_cursor_jump: false,
            needs_focused_effect_update: false,
            needs_all_effects_update: false,
            animations_suppressed: false,
        }
    }

    pub fn clear(&mut self)
        ensures
            final(self).idle(),
    {
        self.containers_to_redraw.clear();
        self.workspaces_to_reorder.clear();
        self.needs_focus_update = false;
        self.needs_cursor_jump = false;
        self.needs_focused_effect_update = false;
        self.needs_all_effects_update = false;
        self.animations_suppressed = false;
    }

    /// Whether anything is to be done. Suppressed animations alone are nothing.
    pub fn has_changes(&self) -> (changes: bool)
        ensures
            changes == (self.containers_to_redraw@.len() > 0 || self.workspaces_to_reorder@.len()
                > 0 || self.needs_focus_update || self.needs_cursor_jump
                || self.needs_focused_effect_update || self.needs_all_effects_update),
    {
        self.containers_to_redraw.len() > 0 || self.workspaces_to_reorder.len() > 0
            || self.needs_focus_update || self.needs_cursor_jump
            || self.needs_focused_effect_update || self.needs_all_effects_update
    }

    pub fn queue_container_to_redraw(&mut self, id: ContainerId)
        ensures
            final(self).containers_to_redraw@ == queued(old(self).containers_to_redraw@, id),
            *final(self) == (PendingSync {
                containers_to_redraw: final(self).containers_to_redraw,
                ..*old(self)
            }),
    {
        if !contains_id(&self.containers_to_redraw, id) {
            self.containers_to_redraw.push(id);
        }
    }

    pub fn queue_containers_to_redraw(&mut self, ids: &Vec<ContainerId>)
        ensures
            final(self).containers_to_redraw@ == queued_all(
                old(self).containers_to_redraw@,
                ids@,
            ),
            *final(self) == (PendingSync {
                containers_to_redraw: final(self).containers_to_redraw,
                ..*old(self)
            }),
    {
        let ghost before = *self;
        let mut i: usize = 0;
        assert(ids@.take(0) =~= seq![]);
        while i < ids.len()
            invariant
                i <= ids.len(),
                self.containers_to_redraw@ == queued_all(
                    before.containers_to_redraw@,
                    ids@.take(i as int),
                ),
                *self == (PendingSync {
                    containers_to_redraw: self.containers_to_redraw,
                    ..before
                }),
            decreases ids.len() - i,
        {
            assert(ids@.take(i + 1).drop_last() =~= ids@.take(i as int));
            self.queue_container_to_redraw(ids[i]);
            i += 1;
        }
        assert(ids@.take(ids@.len() as int) =~= ids@);
    }
}

/// The window manager's state.
pub struct WmState {
    /// The root of the layout tree.
    pub root: ContainerId,
    pub is_paused: bool,
    pub pending_sync: PendingSync,
    /// The windows that are hidden to show the desktop.
    pub desktop_windows: Option<Vec<NativeHandle>>,
    /// The animation that hides the windows or brings them back.
    pub desktop_animation: Option<DesktopMotion>,
    /// An outline is drawn around the focused window.
    pub focus_outline: bool,
    /// The cursor is confined while a window is resized.
    pub resize_cursor_clip: bool,
    /// Counts the changes of the effects, so that a border scheduled before
    /// the last one is not set anymore.
    pub border_effect_generation: u64,
    /// The window that last had the effects of the focused window.
    pub prev_effects_window: Option<ContainerId>,
    /// The frames that windows were last sent to.
    pub window_target_positions: HashMap<ContainerId, Rect>,
    /// The windows that the manager leaves alone.
    pub ignored_windows: Vec<NativeHandle>,
}

impl WmState {
    pub fn new(root: ContainerId) -> (state: WmState)
        ensures
            state.root == root,
            !state.is_paused,
            state.pending_sync.idle(),
            state.desktop_windows is None,
            state.desktop_animation is None,
            !state.focus_outline,
            !state.resize_cursor_clip,
            state.border_effect_generation == 0,
            state.prev_effects_window is None,
            state.window_target_positions@ == Map::<ContainerId, Rect>::empty(),
            state.ignored_windows@ == Seq::<NativeHandle>::empty(),
    {
        WmState {
            root,
            is_paused: false,
            pending_sync: PendingSync::new(),
            desktop_windows: None,
            desktop_animation: None,
            focus_outline: false,
            resize_cursor_clip: false,
            border_effect_generation: 0,
            prev_effects_window: None,
            window_target_positions: HashMap::new(),
            ignored_windows: Vec::new(),
        }
    }

    /// Makes borders that are still scheduled come to nothing.
    pub fn invalidate_borders(&mut self)
        ensures
            *final(self) == (WmState {
                border_effect_generation: old(self).border_effect_generation.wrapping_add(1),
                ..*old(self)
            }),
            final(self).border_effect_generation != old(self).border_effect_generation,
    {
        self.border_effect_generation = self.border_effect_generation.wrapping_add(1);
    }
}

/// Queuing a container keeps the queue, adds the container at its end if it was
/// not there, and adds nothing else.
pub proof fn law_queuing_adds_the_container(queue: Seq<ContainerId>, id: ContainerId)
    ensures
        ({
            let after = queued(queue, id);
            &&& queue.is_prefix_of(after)
            &&& after.contains(id)
            &&& after.len() <= queue.len() + 1
            &&& queue.contains(id) ==> after.len() == queue.len()
            &&& queue.no_duplicates() ==> after.no_duplicates()
        }),
{
    if !queue.contains(id) {
        assert(queue.push(id)[queue.len() as int] == id);
        assert forall|i: int| 0 <= i < queue.len() implies #[trigger] queue[i] != id by {
            assert(queue.contains(queue[i]));
        }
    }
}

/// Queuing several containers keeps the queue and adds each of them, and nothing
/// else, once.
pub proof fn law_queuing_adds_the_containers(
    queue: Seq<ContainerId>,
    ids: Seq<ContainerId>,
    id: ContainerId,
)
    ensures
        ({
            let after = queued_all(queue, ids);
            &&& queue.is_prefix_of(after)
            &&& after.contains(id) <==> queue.contains(id) || ids.contains(id)
            &&& queue.no_duplicates() ==> after.no_duplicates()
        }),
    decreases ids.len(),
{
    if ids.len() > 0 {
        let front = ids.drop_last();
        let before = queued_all(queue, front);
        law_queuing_adds_the_containers(queue, front, id);
        law_queuing_adds_the_container(before, ids.last());
        let after = queued_all(queue, ids);
        assert(before.is_prefix_of(after));
        assert(ids.contains(id) <==> front.contains(id) || ids.last() == id) by {
            if ids.contains(id) {
                let k = choose|k: int| 0 <= k < ids.len() && ids[k] == id;
                if k < front.len() {
                    assert(front[k] == id);
                }
            }
            if front.contains(id) {
                let k = choose|k: int| 0 <= k < front.len() && front[k] == id;
                assert(ids[k] == id);
            }
            assert(ids[ids.len() - 1] == ids.last());
        }
        if before.contains(id) {
            let k = choose|k: int| 0 <= k < before.len() && before[k] == id;
            assert(after[k] == id);
        }
        if after.contains(id) {
            let k = choose|k: int| 0 <= k < after.len() && after[k] == id;
            if k < before.len() {
                assert(before[k] == id);
            }
        }
    }
}

/// An idle synchronisation has nothing to do.
pub proof fn law_idle_synchronisations_do_nothing(pending: PendingSync)
    requires
        pending.idle(),
    ensures
        pending.containers_to_redraw@.len() == 0,
        pending.workspaces_to_reorder@.len() == 0,
        !(pending.needs_focus_update || pending.needs_cursor_jump
            || pending.needs_focused_effect_update || pending.needs_all_effects_update
            || pending.animations_suppressed),
{
}

} // verus!
