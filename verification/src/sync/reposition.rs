//! Moving a window to its frame.
//!
//! A move is a chain of native calls. Each request is answered before the next
//! one is made, and the first call that fails ends the move.
use vstd::prelude::*;

use crate::geometry::{Point, Rect};
use crate::model::{HideCorner, HideMethod, SyncError, WindowState, WindowZOrder};
use crate::platform::window_flags::{DRAG_FLAGS, REPOSITION_FLAGS};

verus! {

/// How many pixels of a parked window stay on its monitor.
pub const VISIBLE_SLIVER: i32 = 1;

/// What is known of a window before it is moved.
#[derive(Clone, Copy, Debug, PartialEq, Eq, Structural)]
pub struct MoveFacts {
    pub state: WindowState,
    pub dragged: bool,
    pub visible: bool,
    pub hide_method: HideMethod,
    pub hide_corner: HideCorner,
    /// The working area of the window's monitor, if it has one.
    pub working_area: Option<Rect>,
    /// The window's native frame.
    pub frame: Rect,
    pub rect: Rect,
    pub z_order: WindowZOrder,
    /// The window came from a monitor of another resolution.
    pub pending_dpi_adjustment: bool,
}

/// A native call on the window.
#[derive(Clone, Copy, Debug, PartialEq, Eq, Structural)]
pub enum Request {
    SetFrame(Rect),
    SetWindowPos { z_order: WindowZOrder, rect: Rect, flags: u32 },
    Resize { width: i32, height: i32 },
    IsMinimized,
    IsMaximized,
    HasMaximizeBox,
    Frame,
    Restore(Rect),
    Minimize,
    Maximize,
    SetZOrder(WindowZOrder),
    /// Repeats the last move once, to settle a change of resolution, and clears
    /// the window's mark for it.
    RetryPosition,
    SetCloaked(bool),
    Show,
    Hide,
}

/// The outcome of a native call.
#[derive(Clone, Copy, Debug, PartialEq, Eq, Structural)]
pub enum Reply {
    Done,
    Failed,
    Truth(bool),
    Frame(Rect),
}

impl Reply {
    /// The reply is of the kind that the request calls for.
    pub open spec fn fits(self, request: Request) -> bool {
        match request {
            Request::IsMinimized | Request::IsMaximized => self is Truth || self is Failed,
            Request::HasMaximizeBox => self is Truth,
            Request::Frame => self is Frame || self is Failed,
            Request::RetryPosition => self is Done,
            _ => self is Done || self is Failed,
        }
    }
}

/// Where a move stands.
#[derive(Clone, Copy, Debug, PartialEq, Eq, Structural)]
pub enum Stage {
    /// The window is parked, or follows a drag.
    Only,
    /// Asked whether the window is minimized, to restore it.
    RestoreMinimized,
    /// Asked whether the window is maximized, to restore it.
    RestoreMaximized,
    Restoring,
    /// Asked whether the window already is minimized.
    MinimizeCheck,
    Minimizing,
    MaximizeBox,
    MonitorCheck,
    /// Brings the window over to its monitor before it is maximized there.
    CrossRestore,
    CrossMaximize,
    MaximizeCheck,
    Maximizing,
    Stacking,
    Positioning,
    Retrying,
    Revealing,
}

/// How a move goes on.
#[derive(Clone, Copy, Debug, PartialEq, Eq, Structural)]
pub enum MoveNext {
    Call(Request),
    Done,
    Fail(SyncError),
}

/// A move in progress.
#[derive(Clone, Copy, Debug, PartialEq, Eq, Structural)]
pub struct Reposition {
    pub facts: MoveFacts,
    pub stage: Stage,
    pub request: Request,
}

impl MoveFacts {
    /// Hidden windows are parked in a corner of their monitor.
    pub open spec fn parks(self) -> bool {
        self.hide_method is PlaceInCorner && !self.visible
    }

    /// The horizontal position of the parked window.
    pub open spec fn parked_x(self) -> int {
        match self.hide_corner {
            HideCorner::BottomLeft => self.working_area->0.left + VISIBLE_SLIVER
                - self.frame.spec_width(),
            HideCorner::BottomRight => self.working_area->0.right - VISIBLE_SLIVER,
        }
    }

    /// The vertical position of the parked window.
    pub open spec fn parked_y(self) -> int {
        self.working_area->0.bottom - VISIBLE_SLIVER
    }

    /// The frame of the parked window: its size is kept and a sliver of it
    /// stays in the corner.
    pub open spec fn parked(self) -> Rect {
        Rect {
            left: self.parked_x() as i32,
            top: self.parked_y() as i32,
            right: (self.parked_x() + self.frame.spec_width()) as i32,
            bottom: (self.parked_y() + self.frame.spec_height()) as i32,
        }
    }

    /// All coordinates that the move computes are 32-bit integers.
    pub open spec fn computable(self) -> bool {
        &&& !self.parks() && self.dragged && self.state !is Tiling ==> self.rect.measurable()
        &&& self.parks() && self.working_area is Some ==> {
            &&& self.frame.measurable()
            &&& self.hide_corner is BottomLeft ==> crate::geometry::fits_i32(
                self.working_area->0.left + VISIBLE_SLIVER,
            )
            &&& crate::geometry::fits_i32(self.parked_x())
            &&& crate::geometry::fits_i32(self.parked_y())
            &&& crate::geometry::fits_i32(self.parked_x() + self.frame.spec_width())
            &&& crate::geometry::fits_i32(self.parked_y() + self.frame.spec_height())
        }
    }

    /// The window is to be maximized the way its title bar button does it.
    pub open spec fn maximizes(self) -> bool {
        self.state matches WindowState::Fullscreen(config) && config.maximized
    }

    fn is_parked(&self) -> (parks: bool)
        ensures
            parks == self.parks(),
    {
        matches!(self.hide_method, HideMethod::PlaceInCorner) && !self.visible
    }

    fn wants_maximized(&self) -> (maximizes: bool)
        ensures
            maximizes == self.maximizes(),
    {
        match self.state {
            WindowState::Fullscreen(config) => config.maximized,
            _ => false,
        }
    }

    fn corner_frame(&self, working_area: Rect) -> (frame: Rect)
        requires
            self.computable(),
            self.parks(),
            self.working_area == Some(working_area),
        ensures
            frame == self.parked(),
    {
        let width: i32 = self.frame.width();
        let height: i32 = self.frame.height();
        let y: i32 = working_area.bottom - VISIBLE_SLIVER;
        let x: i32 = match self.hide_corner {
            HideCorner::BottomLeft => working_area.left + VISIBLE_SLIVER - width,
            HideCorner::BottomRight => working_area.right - VISIBLE_SLIVER,
        };
        Rect::from_xy(x, y, width, height)
    }
}

impl Reposition {
    pub open spec fn calling(self, stage: Stage, request: Request) -> (Reposition, MoveNext) {
        (Reposition { stage, request, ..self }, MoveNext::Call(request))
    }

    pub open spec fn ending(self, next: MoveNext) -> (Reposition, MoveNext) {
        (self, next)
    }

    pub open spec fn began(facts: MoveFacts) -> (Reposition, MoveNext) {
        let start = Reposition { facts, stage: Stage::Only, request: Request::Show };
        if facts.parks() {
            if facts.working_area is None {
                start.ending(MoveNext::Fail(SyncError::NoMonitor))
            } else {
                start.calling(Stage::Only, Request::SetFrame(facts.parked()))
            }
        } else if facts.dragged && facts.state is Tiling {
            start.calling(
                Stage::Only,
                Request::SetWindowPos {
                    z_order: facts.z_order,
                    rect: facts.rect,
                    flags: DRAG_FLAGS,
                },
            )
        } else if facts.dragged {
            start.calling(
                Stage::Only,
                Request::Resize {
                    width: facts.rect.spec_width() as i32,
                    height: facts.rect.spec_height() as i32,
                },
            )
        } else {
            match facts.state {
                WindowState::Fullscreen(config) => if config.maximized {
                    start.applied()
                } else {
                    start.calling(Stage::RestoreMaximized, Request::IsMaximized)
                },
                WindowState::Minimized => start.applied(),
                _ => start.calling(Stage::RestoreMinimized, Request::IsMinimized),
            }
        }
    }

    /// The window can be moved: its state is brought about.
    pub open spec fn applied(self) -> (Reposition, MoveNext) {
        if self.facts.state is Minimized {
            self.calling(Stage::MinimizeCheck, Request::IsMinimized)
        } else if self.facts.maximizes() {
            self.calling(Stage::MaximizeBox, Request::HasMaximizeBox)
        } else {
            self.positioned()
        }
    }

    pub open spec fn positioned(self) -> (Reposition, MoveNext) {
        self.calling(
            Stage::Positioning,
            Request::SetWindowPos {
                z_order: self.facts.z_order,
                rect: self.facts.rect,
                flags: REPOSITION_FLAGS,
            },
        )
    }

    /// The window has had its adjustment: only one follows a change of DPI.
    pub open spec fn adjusted(self) -> Reposition {
        Reposition {
            facts: MoveFacts { pending_dpi_adjustment: false, ..self.facts },
            ..self
        }
    }

    /// Last of all, the window is shown or hidden.
    pub open spec fn revealed(self) -> (Reposition, MoveNext) {
        let request = if self.facts.hide_method is Cloak {
            Request::SetCloaked(!self.facts.visible)
        } else if self.facts.visible {
            Request::Show
        } else {
            Request::Hide
        };
        self.calling(Stage::Revealing, request)
    }

    /// What follows from the reply to the call that is out.
    pub open spec fn resumed(self, reply: Reply) -> (Reposition, MoveNext) {
        let yes = reply == Reply::Truth(true);
        if reply is Failed {
            self.ending(MoveNext::Fail(SyncError::Native))
        } else {
            match self.stage {
                Stage::Only => self.ending(MoveNext::Done),
                Stage::RestoreMinimized => if yes {
                    self.calling(Stage::Restoring, Request::Restore(self.facts.rect))
                } else {
                    self.calling(Stage::RestoreMaximized, Request::IsMaximized)
                },
                Stage::RestoreMaximized => if yes {
                    self.calling(Stage::Restoring, Request::Restore(self.facts.rect))
                } else {
                    self.applied()
                },
                Stage::Restoring => self.applied(),
                Stage::MinimizeCheck => if yes {
                    self.revealed()
                } else {
                    self.calling(Stage::Minimizing, Request::Minimize)
                },
                Stage::Minimizing => self.revealed(),
                Stage::MaximizeBox => if yes {
                    self.calling(Stage::MonitorCheck, Request::Frame)
                } else {
                    self.positioned()
                },
                Stage::MonitorCheck => match reply {
                    Reply::Frame(frame) if self.facts.rect.covers(
                        Point {
                            x: Rect::midpoint(frame.left as int, frame.right as int) as i32,
                            y: Rect::midpoint(frame.top as int, frame.bottom as int) as i32,
                        },
                    ) => self.calling(Stage::MaximizeCheck, Request::IsMaximized),
                    _ => self.calling(Stage::CrossRestore, Request::Restore(self.facts.rect)),
                },
                Stage::CrossRestore => self.calling(Stage::CrossMaximize, Request::Maximize),
                Stage::CrossMaximize => self.calling(Stage::MaximizeCheck, Request::IsMaximized),
                Stage::MaximizeCheck => if yes {
                    self.calling(Stage::Stacking, Request::SetZOrder(self.facts.z_order))
                } else {
                    self.calling(Stage::Maximizing, Request::Maximize)
                },
                Stage::Maximizing => self.calling(
                    Stage::Stacking,
                    Request::SetZOrder(self.facts.z_order),
                ),
                Stage::Stacking => self.revealed(),
                Stage::Positioning => if self.facts.pending_dpi_adjustment {
                    self.adjusted().calling(Stage::Retrying, Request::RetryPosition)
                } else {
                    self.revealed()
                },
                Stage::Retrying => self.revealed(),
                Stage::Revealing => self.ending(MoveNext::Done),
            }
        }
    }

    /// What holds of every move that waits for a reply.
    pub open spec fn well_formed(self) -> bool {
        &&& self.facts.computable()
        &&& self.stage is Only <==> self.facts.parks() || self.facts.dragged
        &&& self.stage is RestoreMinimized ==> self.request is IsMinimized && (
        self.facts.state is Tiling || self.facts.state is Floating)
        &&& self.stage is RestoreMaximized ==> self.request is IsMaximized
            && !(self.facts.state is Minimized) && !self.facts.maximizes()
        &&& self.stage is Restoring || self.stage is CrossRestore ==> self.request
            == Request::Restore(self.facts.rect)
        &&& self.stage is MinimizeCheck ==> self.request is IsMinimized
        &&& self.stage is MaximizeBox ==> self.request is HasMaximizeBox
        &&& self.stage is MonitorCheck ==> self.request is Frame
        &&& self.stage is MaximizeCheck ==> self.request is IsMaximized
        &&& self.stage is Retrying <==> self.request is RetryPosition
        &&& self.stage is Minimizing ==> self.request is Minimize
        &&& self.stage is CrossMaximize || self.stage is Maximizing ==> self.request is Maximize
        &&& self.stage is Stacking ==> self.request == Request::SetZOrder(self.facts.z_order)
        &&& self.stage is MaximizeBox || self.stage is MonitorCheck || self.stage is CrossRestore
            || self.stage is CrossMaximize || self.stage is MaximizeCheck
            || self.stage is Maximizing || self.stage is Stacking ==> self.facts.maximizes()
        &&& self.stage is MinimizeCheck || self.stage is Minimizing ==> self.facts.state is Minimized
        &&& self.stage is Positioning ==> self == self.positioned().0
        &&& self.stage is Revealing ==> self == self.revealed().0
        &&& self.stage is Only ==> self.request is SetFrame || self.request is Resize
            || self.request == (Request::SetWindowPos {
            z_order: self.facts.z_order,
            rect: self.facts.rect,
            flags: DRAG_FLAGS,
        })
    }

    /// How far the move has come. It never goes back.
    pub open spec fn rank(self) -> nat {
        match self.stage {
            Stage::Only => 0,
            Stage::RestoreMinimized => 1,
            Stage::RestoreMaximized => 2,
            Stage::Restoring => 3,
            Stage::MinimizeCheck => 4,
            Stage::Minimizing => 5,
            Stage::MaximizeBox => 6,
            Stage::MonitorCheck => 7,
            Stage::CrossRestore => 8,
            Stage::CrossMaximize => 9,
            Stage::MaximizeCheck => 10,
            Stage::Maximizing => 11,
            Stage::Stacking => 12,
            Stage::Positioning => 13,
            Stage::Retrying => 14,
            Stage::Revealing => 15,
        }
    }

    fn call(&mut self, stage: Stage, request: Request) -> (next: MoveNext)
        ensures
            (*final(self), next) == old(self).calling(stage, request),
    {
        self.stage = stage;
        self.request = request;
        MoveNext::Call(request)
    }

    fn apply(&mut self) -> (next: MoveNext)
        ensures
            (*final(self), next) == old(self).applied(),
    {
        if self.facts.state.is_minimized() {
            self.call(Stage::MinimizeCheck, Request::IsMinimized)
        } else if self.facts.wants_maximized() {
            self.call(Stage::MaximizeBox, Request::HasMaximizeBox)
        } else {
            self.position()
        }
    }

    fn position(&mut self) -> (next: MoveNext)
        ensures
            (*final(self), next) == old(self).positioned(),
    {
        self.call(
            Stage::Positioning,
            Request::SetWindowPos {
                z_order: self.facts.z_order,
                rect: self.facts.rect,
                flags: REPOSITION_FLAGS,
            },
        )
    }

    fn set_visibility(&mut self) -> (next: MoveNext)
        ensures
            (*final(self), next) == old(self).revealed(),
    {
        let request = if matches!(self.facts.hide_method, HideMethod::Cloak) {
            Request::SetCloaked(!self.facts.visible)
        } else if self.facts.visible {
            Request::Show
        } else {
            Request::Hide
        };
        self.call(Stage::Revealing, request)
    }

    /// Goes on with the reply to the call that is out.
    pub fn resume(&mut self, reply: Reply) -> (next: MoveNext)
        requires
            old(self).well_formed(),
            reply.fits(old(self).request),
        ensures
            (*final(self), next) == old(self).resumed(reply),
            next matches MoveNext::Call(request) ==> final(self).request == request
                && final(self).well_formed() && final(self).rank() > old(self).rank(),
    {
        if matches!(reply, Reply::Failed) {
            return MoveNext::Fail(SyncError::Native);
        }
        let yes = matches!(reply, Reply::Truth(true));
        match self.stage {
            Stage::Only | Stage::Revealing => MoveNext::Done,
            Stage::RestoreMinimized => if yes {
                self.call(Stage::Restoring, Request::Restore(self.facts.rect))
            } else {
                self.call(Stage::RestoreMaximized, Request::IsMaximized)
            },
            Stage::RestoreMaximized => if yes {
                self.call(Stage::Restoring, Request::Restore(self.facts.rect))
            } else {
                self.apply()
            },
            Stage::Restoring => self.apply(),
            Stage::MinimizeCheck => if yes {
                self.set_visibility()
            } else {
                self.call(Stage::Minimizing, Request::Minimize)
            },
            Stage::Minimizing => self.set_visibility(),
            Stage::MaximizeBox => if yes {
                self.call(Stage::MonitorCheck, Request::Frame)
            } else {
                self.position()
            },
            Stage::MonitorCheck => {
                // The native frame decides, as the title bar button would.
                let on_target_monitor = match reply {
                    Reply::Frame(frame) => self.facts.rect.contains_point(&frame.center_point()),
                    _ => false,
                };
                if on_target_monitor {
                    self.call(Stage::MaximizeCheck, Request::IsMaximized)
                } else {
                    self.call(Stage::CrossRestore, Request::Restore(self.facts.rect))
                }
            },
            Stage::CrossRestore => self.call(Stage::CrossMaximize, Request::Maximize),
            Stage::CrossMaximize => self.call(Stage::MaximizeCheck, Request::IsMaximized),
            Stage::MaximizeCheck => if yes {
                self.call(Stage::Stacking, Request::SetZOrder(self.facts.z_order))
            } else {
                self.call(Stage::Maximizing, Request::Maximize)
            },
            Stage::Maximizing => self.call(
                Stage::Stacking,
                Request::SetZOrder(self.facts.z_order),
            ),
            Stage::Stacking => self.set_visibility(),
            Stage::Positioning => if self.facts.pending_dpi_adjustment {
                self.facts.pending_dpi_adjustment = false;
                self.call(Stage::Retrying, Request::RetryPosition)
            } else {
                self.set_visibility()
            },
            Stage::Retrying => self.set_visibility(),
        }
    }
}

/// Starts moving a window.
///
/// A hidden window is parked in its corner if that is how windows are
/// hidden; a dragged one only gets its frame back. Any other window is
/// restored if its state asks for it, brought into its state and frame, and
/// then shown or hidden.
pub fn reposition_window(facts: MoveFacts) -> (result: (Reposition, MoveNext))
    requires
        facts.computable(),
    ensures
        result == Reposition::began(facts),
        result.1 matches MoveNext::Call(request) ==> result.0.request == request
            && result.0.well_formed(),
{
    let mut start = Reposition { facts, stage: Stage::Only, request: Request::Show };
    if facts.is_parked() {
        let next = match facts.working_area {
            None => MoveNext::Fail(SyncError::NoMonitor),
            Some(working_area) => {
                let frame = facts.corner_frame(working_area);
                start.call(Stage::Only, Request::SetFrame(frame))
            },
        };
        return (start, next);
    }
    if facts.dragged {
        // A clamped left or top edge needs its position back as well as its
        // size.
        let request = if facts.state.is_tiling() {
            Request::SetWindowPos {
                z_order: facts.z_order,
                rect: facts.rect,
                flags: DRAG_FLAGS,
            }
        } else {
            Request::Resize { width: facts.rect.width(), height: facts.rect.height() }
        };
        let next = start.call(Stage::Only, request);
        return (start, next);
    }
    let next = match facts.state {
        WindowState::Fullscreen(config) => if config.maximized {
            start.apply()
        } else {
            start.call(Stage::RestoreMaximized, Request::IsMaximized)
        },
        WindowState::Minimized => start.apply(),
        _ => start.call(Stage::RestoreMinimized, Request::IsMinimized),
    };
    (start, next)
}

/// Once a move is under way, every positioning call is one that does not wait
/// for the application, and sends the window to its frame. The one call that
/// does without that flag is the first one, after the user's own drag of a
/// tiling window.
pub proof fn law_only_drags_are_synchronous(start: Reposition, reply: Reply)
    requires
        start.well_formed(),
        reply.fits(start.request),
    ensures
        start.resumed(reply).1 matches MoveNext::Call(Request::SetWindowPos { flags, rect, .. })
            ==> crate::platform::window_flags::asynchronous(flags) && rect == start.facts.rect,
{
    assert(crate::platform::window_flags::asynchronous(REPOSITION_FLAGS)) by (bit_vector);
}

/// A change of DPI is followed by one more positioning and no second one: the
/// move that asks for it takes the mark off the window.
pub proof fn law_dpi_changes_are_adjusted_once(start: Reposition, reply: Reply)
    requires
        start.well_formed(),
        reply.fits(start.request),
    ensures
        start.resumed(reply).1 == MoveNext::Call(Request::RetryPosition) ==> {
            &&& start.facts.pending_dpi_adjustment
            &&& !start.resumed(reply).0.facts.pending_dpi_adjustment
        },
        start.resumed(reply).1 != MoveNext::Call(Request::RetryPosition)
            ==> start.resumed(reply).0.facts == start.facts,
{
}

/// A failed call ends the move at once.
pub proof fn law_a_failed_call_ends_the_move(start: Reposition)
    requires
        start.well_formed(),
    ensures
        start.resumed(Reply::Failed).1 == MoveNext::Fail(SyncError::Native),
{
}

/// A move that is neither a parking nor a drag succeeds only with the call
/// that shows or hides the window, and that call matches the hide method.
pub proof fn law_a_move_ends_by_setting_visibility(start: Reposition, reply: Reply)
    requires
        start.well_formed(),
        reply.fits(start.request),
        !start.facts.parks(),
        !start.facts.dragged,
        start.resumed(reply).1 is Done,
    ensures
        start.stage is Revealing,
        start.request == (if start.facts.hide_method is Cloak {
            Request::SetCloaked(!start.facts.visible)
        } else if start.facts.visible {
            Request::Show
        } else {
            Request::Hide
        }),
{
}

/// A parked window leaves exactly one sliver of itself on its monitor's bottom
/// corner and keeps its size.
pub proof fn law_parked_windows_leave_a_sliver(facts: MoveFacts)
    requires
        facts.computable(),
        facts.parks(),
        facts.working_area is Some,
    ensures
        facts.parked().top == facts.working_area->0.bottom - VISIBLE_SLIVER,
        facts.hide_corner is BottomLeft ==> facts.parked().right == facts.working_area->0.left
            + VISIBLE_SLIVER,
        facts.hide_corner is BottomRight ==> facts.parked().left == facts.working_area->0.right
            - VISIBLE_SLIVER,
        facts.parked().spec_width() == facts.frame.spec_width(),
        facts.parked().spec_height() == facts.frame.spec_height(),
{
}

/// A window that is hidden by being placed in a corner goes there and nowhere
/// else: it keeps its size, its top edge is a sliver above the bottom of the
/// working area, and so is the edge at its corner's side. Without a monitor
/// there is no corner.
pub proof fn law_hidden_windows_are_parked(facts: MoveFacts)
    requires
        facts.computable(),
        facts.hide_method is PlaceInCorner,
        !facts.visible,
    ensures
        facts.working_area is None ==> Reposition::began(facts).1 == MoveNext::Fail(
            SyncError::NoMonitor,
        ),
        facts.working_area matches Some(area) ==> {
            &&& Reposition::began(facts).1 matches MoveNext::Call(Request::SetFrame(rect))
            &&& rect.top == area.bottom - 1
            &&& rect.right - rect.left == facts.frame.right - facts.frame.left
            &&& rect.bottom - rect.top == facts.frame.bottom - facts.frame.top
            &&& facts.hide_corner is BottomLeft ==> rect.right == area.left + 1
            &&& facts.hide_corner is BottomRight ==> rect.left == area.right - 1
        },
{
}

/// A dragged window gets its frame back and nothing else. One that does not
/// tile is given the size of its frame, width for width and height for height;
/// one that tiles its place as well, without being activated or restacked.
pub proof fn law_dragged_windows_get_their_frame_back(facts: MoveFacts)
    requires
        facts.computable(),
        facts.dragged,
        facts.visible || !(facts.hide_method is PlaceInCorner),
    ensures
        !(facts.state is Tiling) ==> {
            &&& Reposition::began(facts).1 matches MoveNext::Call(Request::Resize { width, height })
            &&& width == facts.rect.right - facts.rect.left
            &&& height == facts.rect.bottom - facts.rect.top
        },
        facts.state is Tiling ==> {
            &&& Reposition::began(facts).1 matches MoveNext::Call(
                Request::SetWindowPos { rect, flags, .. },
            )
            &&& rect == facts.rect
            &&& flags & crate::platform::window_flags::SWP_NOMOVE == 0
            &&& flags & crate::platform::window_flags::SWP_NOSIZE == 0
            &&& flags & crate::platform::window_flags::SWP_NOZORDER != 0
            &&& flags & crate::platform::window_flags::SWP_NOACTIVATE != 0
        },
        forall|reply: Reply| !(reply is Failed) ==> #[trigger] Reposition::began(facts).0.resumed(
            reply,
        ).1 is Done,
{
    assert(DRAG_FLAGS & crate::platform::window_flags::SWP_NOMOVE == 0 && DRAG_FLAGS
        & crate::platform::window_flags::SWP_NOSIZE == 0 && DRAG_FLAGS
        & crate::platform::window_flags::SWP_NOZORDER != 0 && DRAG_FLAGS
        & crate::platform::window_flags::SWP_NOACTIVATE != 0) by (bit_vector);
}

/// How any other move starts: a window that is to be neither minimized nor
/// maximized must not natively be so, and is asked about it; one that is to be
/// minimized or maximized is asked whether it already is, or can be.
pub proof fn law_moves_start_with_the_native_state(facts: MoveFacts)
    requires
        facts.computable(),
        !facts.dragged,
        facts.visible || !(facts.hide_method is PlaceInCorner),
    ensures
        ({
            let next = Reposition::began(facts).1;
            &&& next is Call
            &&& facts.state is Tiling || facts.state is Floating ==> next == MoveNext::Call(
                Request::IsMinimized,
            )
            &&& facts.state is Minimized ==> next == MoveNext::Call(Request::IsMinimized)
            &&& facts.state matches WindowState::Fullscreen(config) ==> next == MoveNext::Call(
                if config.maximized {
                    Request::HasMaximizeBox
                } else {
                    Request::IsMaximized
                },
            )
        }),
{
}

/// The native calls of a move do what the window's state asks for. A window is
/// restored only to its frame, and only if it was reported minimized, maximized
/// or on another monitor; it is minimized or maximized only if its state asks
/// for it; and it is moved only to its frame, in its place in the stacking
/// order, without waiting and without being activated.
pub proof fn law_moves_do_what_the_state_asks_for(start: Reposition, reply: Reply)
    requires
        start.well_formed(),
        reply.fits(start.request),
    ensures
        start.resumed(reply).1 matches MoveNext::Call(request) ==> match request {
            Request::Restore(rect) => {
                &&& rect == start.facts.rect
                &&& reply == Reply::Truth(true) && (start.request is IsMinimized || start.request
                    is IsMaximized) || start.request is Frame
                &&& !(start.facts.state is Minimized)
            },
            Request::Minimize => start.facts.state is Minimized && start.request is IsMinimized
                && reply == Reply::Truth(false),
            Request::Maximize => start.facts.state matches WindowState::Fullscreen(config)
                && config.maximized,
            Request::SetWindowPos { z_order, rect, flags } => {
                &&& rect == start.facts.rect
                &&& z_order == start.facts.z_order
                &&& flags & crate::platform::window_flags::SWP_NOMOVE == 0
                &&& flags & crate::platform::window_flags::SWP_NOSIZE == 0
                &&& flags & crate::platform::window_flags::SWP_NOZORDER == 0
                &&& flags & crate::platform::window_flags::SWP_NOACTIVATE != 0
                &&& flags & crate::platform::window_flags::SWP_ASYNCWINDOWPOS != 0
                &&& !(start.facts.state is Minimized)
            },
            Request::SetZOrder(z_order) => z_order == start.facts.z_order && (
            start.facts.state matches WindowState::Fullscreen(config) && config.maximized),
            Request::SetFrame(_) | Request::Resize { .. } => false,
            Request::RetryPosition => start.request is SetWindowPos
                && start.facts.pending_dpi_adjustment,
            Request::SetCloaked(cloaked) => start.facts.hide_method is Cloak && cloaked
                == !start.facts.visible,
            Request::Show => !(start.facts.hide_method is Cloak) && start.facts.visible,
            Request::Hide => !(start.facts.hide_method is Cloak) && !start.facts.visible,
            Request::IsMinimized | Request::HasMaximizeBox => start.request is Restore,
            Request::IsMaximized => start.request is IsMinimized || start.request is Frame
                || start.request is Maximize,
            Request::Frame => start.request is HasMaximizeBox && reply == Reply::Truth(true),
        },
{
    assert(REPOSITION_FLAGS & crate::platform::window_flags::SWP_NOMOVE == 0 && REPOSITION_FLAGS
        & crate::platform::window_flags::SWP_NOSIZE == 0 && REPOSITION_FLAGS
        & crate::platform::window_flags::SWP_NOZORDER == 0 && REPOSITION_FLAGS
        & crate::platform::window_flags::SWP_NOACTIVATE != 0 && REPOSITION_FLAGS
        & crate::platform::window_flags::SWP_ASYNCWINDOWPOS != 0) by (bit_vector);
}

/// A move of a window that is not minimized and not maximized goes through its
/// frame: once the window is restored, or need not be, it is positioned there,
/// and once it is positioned it is shown or hidden, after one more try if its
/// resolution has changed.
pub proof fn law_moves_go_through_the_frame(start: Reposition, reply: Reply)
    requires
        start.well_formed(),
        reply.fits(start.request),
        !(reply is Failed),
        !start.facts.dragged,
        start.facts.visible || !(start.facts.hide_method is PlaceInCorner),
    ensures
        ({
            let next = start.resumed(reply).1;
            let plain = !(start.facts.state is Minimized) && !(start.facts.state
                matches WindowState::Fullscreen(config) && config.maximized);
            let yes = reply == Reply::Truth(true);
            &&& start.request is IsMinimized && plain ==> next == MoveNext::Call(
                if yes {
                    Request::Restore(start.facts.rect)
                } else {
                    Request::IsMaximized
                },
            )
            &&& start.request is IsMaximized && plain && yes ==> next == MoveNext::Call(
                Request::Restore(start.facts.rect),
            )
            &&& start.request is IsMaximized && plain && !yes || start.request is Restore && plain
                ==> (next matches MoveNext::Call(Request::SetWindowPos { .. }))
            &&& start.request is SetWindowPos && start.facts.pending_dpi_adjustment ==> next
                == MoveNext::Call(Request::RetryPosition)
            &&& start.request is SetWindowPos && !start.facts.pending_dpi_adjustment
                || start.request is RetryPosition ==> (next matches MoveNext::Call(
                Request::Show | Request::Hide | Request::SetCloaked(_),
            ))
            &&& start.request is Show || start.request is Hide || start.request is SetCloaked
                ==> next is Done
        }),
{
}

/// A window that is to be minimized is minimized unless it is, and a window that
/// is to be maximized is maximized unless it is, on the monitor that its frame
/// is on: a window whose middle lies outside of its frame is brought over first.
/// One that cannot be maximized gets the frame instead.
pub proof fn law_minimized_and_maximized_windows_become_so(start: Reposition, reply: Reply)
    requires
        start.well_formed(),
        reply.fits(start.request),
        !(reply is Failed),
        !start.facts.dragged,
        start.facts.visible || !(start.facts.hide_method is PlaceInCorner),
    ensures
        ({
            let next = start.resumed(reply).1;
            let maximized = start.facts.state matches WindowState::Fullscreen(config)
                && config.maximized;
            let yes = reply == Reply::Truth(true);
            let reveals = next matches MoveNext::Call(
                Request::Show | Request::Hide | Request::SetCloaked(_),
            );
            &&& start.facts.state is Minimized && start.request is IsMinimized ==> if yes {
                reveals
            } else {
                next == MoveNext::Call(Request::Minimize)
            }
            &&& start.request is Minimize ==> reveals
            &&& start.request is HasMaximizeBox ==> if yes {
                next == MoveNext::Call(Request::Frame)
            } else {
                next matches MoveNext::Call(Request::SetWindowPos { .. })
            }
            &&& start.request is Frame ==> (reply matches Reply::Frame(frame) && {
                let x = Rect::midpoint(frame.left as int, frame.right as int);
                let y = Rect::midpoint(frame.top as int, frame.bottom as int);
                let inside = start.facts.rect.left <= x <= start.facts.rect.right
                    && start.facts.rect.top <= y <= start.facts.rect.bottom;
                next == MoveNext::Call(
                    if inside {
                        Request::IsMaximized
                    } else {
                        Request::Restore(start.facts.rect)
                    },
                )
            })
            &&& start.stage is CrossRestore ==> next == MoveNext::Call(Request::Maximize)
            &&& maximized && start.request is IsMaximized ==> if yes {
                next == MoveNext::Call(Request::SetZOrder(start.facts.z_order))
            } else {
                next == MoveNext::Call(Request::Maximize)
            }
            &&& start.request is SetZOrder ==> reveals
        }),
{
}

/// A move never forgets what it is about, and a window that was maximized is
/// looked at again if it came from another monitor, and then stacked.
pub proof fn law_maximized_windows_are_stacked_in_the_end(facts: MoveFacts, start: Reposition)
    ensures
        Reposition::began(facts).0.facts == facts,
        start.stage is CrossMaximize ==> start.resumed(Reply::Done).1 == MoveNext::Call(
            Request::IsMaximized,
        ),
        start.stage is Maximizing ==> start.resumed(Reply::Done).1 == MoveNext::Call(
            Request::SetZOrder(start.facts.z_order),
        ),
        start.stage is CrossRestore ==> start.resumed(Reply::Done).1 == MoveNext::Call(
            Request::Maximize,
        ) && start.resumed(Reply::Done).0.stage is CrossMaximize,
{
}

} // verus!
