//! Resizing neighbouring windows in one step while the user drags an edge or
//! holds a resize key.
use vstd::prelude::*;

use crate::geometry::Rect;
use crate::model::{ContainerId, DisplayState, SyncError, WindowState};
use crate::text::same_text;

verus! {

/// A window as far as the detection of a live resize is concerned.
#[derive(Clone, Copy, Debug, PartialEq, Eq, Structural)]
pub struct DragBrief {
    pub state: WindowState,
    /// The user is dragging one of the window's edges.
    pub drag_resizes: bool,
}

impl DragBrief {
    /// A tiling window whose edge is being dragged.
    pub open spec fn live(self) -> bool {
        self.state is Tiling && self.drag_resizes
    }
}

/// A window to be redrawn in a live resize.
#[derive(Clone, Copy, Debug, PartialEq, Eq, Structural)]
pub struct LiveWindow {
    pub id: ContainerId,
    pub state: WindowState,
    pub display_state: DisplayState,
    /// The window is in a workspace that is on screen.
    pub workspace_displayed: bool,
    pub animated: bool,
    /// The window's frame in the layout, if it is known.
    pub target: Option<Rect>,
}

impl LiveWindow {
    /// The window takes part: it is on screen and tiling or, for a resize by
    /// keyboard, floating.
    pub open spec fn takes_part(self, keyboard_resize: bool) -> bool {
        &&& self.state is Tiling || keyboard_resize && self.state is Floating
        &&& self.display_state is Shown
        &&& self.workspace_displayed
    }
}

/// A frame to apply.
#[derive(Clone, Copy, Debug, PartialEq, Eq, Structural)]
pub struct LivePosition {
    pub id: ContainerId,
    pub target: Rect,
}

/// What a window asks for before its frame is read.
#[derive(Clone, Copy, Debug, PartialEq, Eq, Structural)]
pub enum LiveVisit {
    /// The window takes no part.
    Skip,
    /// End the window's animation, if told so, and read its native frame.
    Measure { remove_animation: bool, target: Rect },
    /// End the window's animation, if told so, and give up.
    Fail { remove_animation: bool, error: SyncError },
}

/// The geometry that a live resize applies in one transaction.
pub struct LiveResize {
    pub keyboard_resize: bool,
    /// The frames to apply.
    pub positions: Vec<LivePosition>,
    /// The windows whose geometry is taken care of.
    pub updated: Vec<ContainerId>,
    /// The windows to uncloak afterwards, their animations having ended.
    pub uncloaked: Vec<ContainerId>,
}

/// A step that ends a live resize.
#[derive(Clone, Copy, Debug, PartialEq, Eq, Structural)]
pub enum LiveStep {
    /// Sends the window to the frame. A window that cannot be moved is skipped.
    Apply(LivePosition),
    /// Reveals the window. A failure ends the redraw.
    Uncloak(ContainerId),
}

/// Whether a keyboard resize is going on: the `resize` binding mode is active
/// and animations are suppressed.
pub fn is_keyboard_resize(suppress_animations: bool, binding_modes: &Vec<String>) -> (active: bool)
    ensures
        active == (suppress_animations && exists|i: int|
            0 <= i < binding_modes@.len() && #[trigger] binding_modes@[i]@ == "resize"@),
{
    if !suppress_animations {
        return false;
    }
    let mut i: usize = 0;
    while i < binding_modes.len()
        invariant
            suppress_animations,
            i <= binding_modes.len(),
            forall|k: int| 0 <= k < i ==> #[trigger] binding_modes@[k]@ != "resize"@,
        decreases binding_modes.len() - i,
    {
        if same_text(binding_modes[i].as_str(), "resize") {
            assert(binding_modes@[i as int]@ == "resize"@);
            return true;
        }
        i += 1;
    }
    false
}

impl LiveResize {
    /// Starts a live resize, if the user is resizing windows.
    pub fn begin(windows: &Vec<DragBrief>, keyboard_resize: bool) -> (resize: Option<LiveResize>)
        ensures
            resize is Some <==> keyboard_resize || exists|i: int|
                0 <= i < windows@.len() && #[trigger] windows@[i].live(),
            resize matches Some(resize) ==> {
                &&& resize.keyboard_resize == keyboard_resize
                &&& resize.positions@ == Seq::<LivePosition>::empty()
                &&& resize.updated@ == Seq::<ContainerId>::empty()
                &&& resize.uncloaked@ == Seq::<ContainerId>::empty()
            },
    {
        let mut live = keyboard_resize;
        let mut i: usize = 0;
        while i < windows.len()
            invariant
                i <= windows.len(),
                live == (keyboard_resize || exists|k: int|
                    0 <= k < i && #[trigger] windows@[k].live()),
            decreases windows.len() - i,
        {
            assert(windows@[i as int].live() == (windows@[i as int].state is Tiling
                && windows@[i as int].drag_resizes));
            if windows[i].state.is_tiling() && windows[i].drag_resizes {
                live = true;
            }
            i += 1;
        }
        if !live {
            return None;
        }
        Some(
            LiveResize {
                keyboard_resize,
                positions: Vec::new(),
                updated: Vec::new(),
                uncloaked: Vec::new(),
            },
        )
    }

    /// Looks at the next window to be redrawn.
    pub fn visit(&mut self, window: LiveWindow) -> (visit: LiveVisit)
        ensures
            final(self).keyboard_resize == old(self).keyboard_resize,
            final(self).positions == old(self).positions,
            final(self).updated == old(self).updated,
            !window.takes_part(old(self).keyboard_resize) ==> visit is Skip
                && final(self).uncloaked@ == old(self).uncloaked@,
            window.takes_part(old(self).keyboard_resize) ==> {
                &&& visit == match window.target {
                    Some(target) => LiveVisit::Measure {
                        remove_animation: window.animated,
                        target,
                    },
                    None => LiveVisit::Fail {
                        remove_animation: window.animated,
                        error: SyncError::NoPlacement,
                    },
                }
                &&& final(self).uncloaked@ == if window.animated {
                    old(self).uncloaked@.push(window.id)
                } else {
                    old(self).uncloaked@
                }
            },
    {
        let resizable = window.state.is_tiling() || (self.keyboard_resize
            && window.state.is_floating());
        let shown = matches!(window.display_state, DisplayState::Shown);
        if !resizable || !shown || !window.workspace_displayed {
            return LiveVisit::Skip;
        }
        if window.animated {
            self.uncloaked.push(window.id);
        }
        match window.target {
            Some(target) => LiveVisit::Measure { remove_animation: window.animated, target },
            None => LiveVisit::Fail {
                remove_animation: window.animated,
                error: SyncError::NoPlacement,
            },
        }
    }

    /// Takes the native frame of the window that was visited. A window whose
    /// frame cannot be read is left to the regular redraw.
    pub fn measured(&mut self, id: ContainerId, target: Rect, frame: Option<Rect>)
        ensures
            final(self).keyboard_resize == old(self).keyboard_resize,
            final(self).uncloaked == old(self).uncloaked,
            final(self).updated@ == if frame is Some {
                old(self).updated@.push(id)
            } else {
                old(self).updated@
            },
            final(self).positions@ == if frame is Some && frame != Some(target) {
                old(self).positions@.push(LivePosition { id, target })
            } else {
                old(self).positions@
            },
            frame is None || frame == Some(target) <==> final(self).positions@.len() == old(
                self,
            ).positions@.len(),
            frame is Some <==> final(self).updated@.len() == old(self).updated@.len() + 1,
    {
        if let Some(actual) = frame {
            if actual != target {
                self.positions.push(LivePosition { id, target });
            }
            self.updated.push(id);
        }
    }

    /// Ends the live resize: first every frame is applied, and only after that
    /// the windows whose animations have ended are revealed.
    pub fn finish(&self) -> (steps: Vec<LiveStep>)
        ensures
            steps@ == self.positions@.map_values(|position: LivePosition| LiveStep::Apply(position))
                + self.uncloaked@.map_values(|id: ContainerId| LiveStep::Uncloak(id)),
            forall|i: int|
                0 <= i < self.positions@.len() ==> steps@[i] == LiveStep::Apply(
                    #[trigger] self.positions@[i],
                ),
            forall|i: int|
                0 <= i < self.uncloaked@.len() ==> steps@[self.positions@.len() + i]
                    == LiveStep::Uncloak(#[trigger] self.uncloaked@[i]),
    {
        let mut steps: Vec<LiveStep> = Vec::new();
        let mut i: usize = 0;
        while i < self.positions.len()
            invariant
                i <= self.positions.len(),
                steps@ =~= self.positions@.take(i as int).map_values(
                    |position: LivePosition| LiveStep::Apply(position),
                ),
            decreases self.positions.len() - i,
        {
            steps.push(LiveStep::Apply(self.positions[i]));
            i += 1;
        }
        assert(self.positions@.take(i as int) =~= self.positions@);
        let ghost applied = steps@;
        let mut k: usize = 0;
        while k < self.uncloaked.len()
            invariant
                k <= self.uncloaked.len(),
                steps@ =~= applied + self.uncloaked@.take(k as int).map_values(
                    |id: ContainerId| LiveStep::Uncloak(id),
                ),
            decreases self.uncloaked.len() - k,
        {
            steps.push(LiveStep::Uncloak(self.uncloaked[k]));
            k += 1;
        }
        assert(self.uncloaked@.take(k as int) =~= self.uncloaked@);
        steps
    }
}

/// A window takes part in a live resize exactly if it is shown, in a displayed
/// workspace, and tiling. A resize by keyboard moves floating windows too, but
/// never minimized or fullscreen ones.
pub proof fn law_shown_windows_take_part(window: LiveWindow)
    ensures
        window.takes_part(true) || window.takes_part(false) ==> window.display_state is Shown
            && window.workspace_displayed && window.state !is Minimized && window.state
            !is Fullscreen,
        window.display_state is Shown && window.workspace_displayed && window.state is Tiling
            ==> window.takes_part(true) && window.takes_part(false),
        window.display_state is Shown && window.workspace_displayed && window.state is Floating
            ==> window.takes_part(true),
        window.state is Floating ==> !window.takes_part(false),
{
}

/// Only the drag of a tiling window's edge resizes its neighbours.
pub proof fn law_only_tiling_windows_resize_their_neighbours(brief: DragBrief)
    ensures
        brief.live() ==> brief.drag_resizes && !(brief.state is Floating || brief.state
            is Fullscreen || brief.state is Minimized),
        brief.drag_resizes && brief.state is Tiling ==> brief.live(),
{
}

} // verus!
