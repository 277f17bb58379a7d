//! Moving native focus and the cursor along with the focused container.
use vstd::prelude::*;

use crate::geometry::{Point, Rect};
use crate::model::{ContainerId, SyncError};

verus! {

/// The focused container as far as native focus is concerned.
#[derive(Clone, Copy, Debug, PartialEq, Eq, Structural)]
pub struct FocusFacts {
    /// The focused container, if it is a window.
    pub window: Option<ContainerId>,
    /// A workspace switch is being animated.
    pub switch_active: bool,
    /// The window is an incoming one of that switch.
    pub incoming_thumbnail: bool,
    /// The window is covered by a resize session.
    pub resize_session: bool,
}

impl FocusFacts {
    /// An animation covers the window. It takes focus once that has ended: the
    /// system may uncover a window that becomes the foreground window.
    pub open spec fn deferred(self) -> bool {
        self.window is Some && (self.switch_active && self.incoming_thumbnail
            || self.resize_session)
    }
}

/// How focus is handed over.
#[derive(Clone, Copy, Debug, PartialEq, Eq, Structural)]
pub enum FocusAction {
    FocusWindow(ContainerId),
    /// Gives focus to the desktop.
    ResetFocus,
    /// Tells the subscribers, whether or not the native call succeeded.
    EmitFocusChanged,
}

/// Hands native focus to the focused window, or to the desktop if the focused
/// container is an empty workspace. While the window is covered by an animation
/// nothing happens.
pub fn sync_focus(facts: FocusFacts) -> (actions: Vec<FocusAction>)
    ensures
        actions@ == if facts.deferred() {
            seq![]
        } else {
            seq![
                match facts.window {
                    Some(id) => FocusAction::FocusWindow(id),
                    None => FocusAction::ResetFocus,
                },
                FocusAction::EmitFocusChanged,
            ]
        },
        actions@.len() == 0 <==> facts.window is Some && (facts.resize_session
            || facts.switch_active && facts.incoming_thumbnail),
        actions@.len() > 0 ==> {
            &&& actions@[0] is ResetFocus <==> facts.window is None
            &&& actions@[0] matches FocusAction::FocusWindow(id) ==> facts.window == Some(id)
            &&& actions@.last() is EmitFocusChanged
        },
{
    let mut actions: Vec<FocusAction> = Vec::new();
    match facts.window {
        Some(id) => {
            if (facts.switch_active && facts.incoming_thumbnail) || facts.resize_session {
                return actions;
            }
            actions.push(FocusAction::FocusWindow(id));
        },
        None => actions.push(FocusAction::ResetFocus),
    }
    actions.push(FocusAction::EmitFocusChanged);
    actions
}

/// What makes the cursor jump.
#[derive(Clone, Copy, Debug, PartialEq, Eq, Structural)]
pub enum CursorJumpTrigger {
    MonitorFocus,
    WindowFocus,
}

/// A monitor that the cursor may jump to.
#[derive(Clone, Copy, Debug, PartialEq, Eq, Structural)]
pub struct JumpMonitor {
    pub id: ContainerId,
    /// The monitor's place in the layout, if it is known.
    pub rect: Option<Rect>,
}

/// What a cursor jump depends on.
#[derive(Clone, Copy, Debug, PartialEq, Eq, Structural)]
pub struct JumpFacts {
    pub trigger: CursorJumpTrigger,
    /// The focused container's place in the layout, if it is known.
    pub focused_rect: Option<Rect>,
    /// The focused container's monitor.
    pub monitor: Option<JumpMonitor>,
    /// The monitor that the cursor is on, as far as that can be told.
    pub cursor_monitor: Option<ContainerId>,
}

impl JumpFacts {
    /// The cursor is known to be on another monitor than the focused container.
    pub open spec fn elsewhere(self) -> bool {
        self.cursor_monitor is Some && self.monitor is Some && self.cursor_monitor->0
            != self.monitor->0.id
    }

    /// The rectangle that the cursor jumps into the middle of; its place may
    /// be unknown.
    pub open spec fn destination(self) -> Option<Option<Rect>> {
        if self.trigger is WindowFocus {
            Some(self.focused_rect)
        } else if self.elsewhere() {
            Some(self.monitor->0.rect)
        } else {
            None
        }
    }
}

/// Decides where the cursor jumps to: into the middle of the focused container
/// or, if only changes of monitor count, into the middle of its monitor unless
/// the cursor is already there.
pub fn jump_cursor(facts: JumpFacts) -> (jump: Result<Option<Point>, SyncError>)
    ensures
        jump == Err::<Option<Point>, SyncError>(SyncError::NoMonitor) <==> facts.trigger
            is MonitorFocus && facts.monitor is None,
        jump == Err::<Option<Point>, SyncError>(SyncError::NoPlacement) <==> facts.destination()
            == Some(None::<Rect>),
        jump == Ok::<Option<Point>, SyncError>(None) <==> facts.trigger is MonitorFocus
            && facts.monitor is Some && !facts.elsewhere(),
        jump matches Ok(Some(point)) ==> {
            &&& facts.destination() matches Some(Some(rect))
            &&& point.x == Rect::midpoint(rect.left as int, rect.right as int)
            &&& point.y == Rect::midpoint(rect.top as int, rect.bottom as int)
        },
        jump matches Err(error) ==> error is NoMonitor || error is NoPlacement,
        facts.trigger is WindowFocus ==> (jump is Ok <==> facts.focused_rect is Some),
        facts.trigger is MonitorFocus && facts.monitor is Some && (facts.cursor_monitor is None
            || facts.cursor_monitor->0 == facts.monitor->0.id) ==> jump == Ok::<
            Option<Point>,
            SyncError,
        >(None),
{
    let rect = match facts.trigger {
        CursorJumpTrigger::WindowFocus => facts.focused_rect,
        CursorJumpTrigger::MonitorFocus => {
            let monitor = match facts.monitor {
                Some(monitor) => monitor,
                None => return Err(SyncError::NoMonitor),
            };
            match facts.cursor_monitor {
                Some(id) if id != monitor.id => monitor.rect,
                _ => return Ok(None),
            }
        },
    };
    match rect {
        Some(rect) => Ok(Some(rect.center_point())),
        None => Err(SyncError::NoPlacement),
    }
}

/// Focus waits exactly for a window that an animation covers: one that comes in
/// with a running switch, or one that is being resized. The desktop never waits.
pub proof fn law_covered_windows_wait_for_focus(facts: FocusFacts)
    ensures
        facts.window is None ==> !facts.deferred(),
        facts.window is Some && facts.resize_session ==> facts.deferred(),
        facts.window is Some && !facts.resize_session ==> (facts.deferred() <==> facts.switch_active
            && facts.incoming_thumbnail),
{
}

/// A jump on window focus goes to the focused container, wherever the cursor is.
/// One on monitor focus goes to the container's monitor, and only from another
/// one.
pub proof fn law_jumps_follow_their_trigger(facts: JumpFacts)
    ensures
        facts.trigger is WindowFocus ==> facts.destination() == Some(facts.focused_rect),
        facts.trigger is MonitorFocus && facts.monitor is Some && facts.cursor_monitor is Some
            && facts.cursor_monitor->0 != facts.monitor->0.id ==> facts.destination() == Some(
            facts.monitor->0.rect,
        ),
        facts.trigger is MonitorFocus && (facts.monitor is None || facts.cursor_monitor is None
            || facts.cursor_monitor->0 == facts.monitor->0.id) ==> facts.destination() is None
            && !facts.elsewhere(),
{
}

} // verus!
