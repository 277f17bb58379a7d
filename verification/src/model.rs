//! The plain values that the window manager's rules are stated over.
use vstd::prelude::*;

verus! {

/// Identity of a container in the layout tree.
pub type ContainerId = u128;

/// Identity of a native window.
pub type NativeHandle = isize;

#[derive(Clone, Copy, Debug, PartialEq, Eq, Structural)]
pub struct FloatingStateConfig {
    pub centered: bool,
    pub shown_on_top: bool,
}

#[derive(Clone, Copy, Debug, PartialEq, Eq, Structural)]
pub struct FullscreenStateConfig {
    pub maximized: bool,
    pub shown_on_top: bool,
}

/// How a window takes part in the layout.
#[derive(Clone, Copy, Debug, PartialEq, Eq, Structural)]
pub enum WindowState {
    Floating(FloatingStateConfig),
    Fullscreen(FullscreenStateConfig),
    Minimized,
    Tiling,
}

impl WindowState {
    /// Both states are of the same kind, whatever their options.
    pub open spec fn same_kind(self, other: WindowState) -> bool {
        ||| self is Floating && other is Floating
        ||| self is Fullscreen && other is Fullscreen
        ||| self is Minimized && other is Minimized
        ||| self is Tiling && other is Tiling
    }

    pub fn is_same_state(&self, other: &WindowState) -> (same: bool)
        ensures
            same == self.same_kind(*other),
    {
        match (self, other) {
            (WindowState::Floating(_), WindowState::Floating(_)) => true,
            (WindowState::Fullscreen(_), WindowState::Fullscreen(_)) => true,
            (WindowState::Minimized, WindowState::Minimized) => true,
            (WindowState::Tiling, WindowState::Tiling) => true,
            _ => false,
        }
    }

    pub fn is_floating(&self) -> (floating: bool)
        ensures
            floating == (self is Floating),
    {
        matches!(self, WindowState::Floating(_))
    }

    pub fn is_fullscreen(&self) -> (fullscreen: bool)
        ensures
            fullscreen == (self is Fullscreen),
    {
        matches!(self, WindowState::Fullscreen(_))
    }

    pub fn is_minimized(&self) -> (minimized: bool)
        ensures
            minimized == (self is Minimized),
    {
        matches!(self, WindowState::Minimized)
    }

    pub fn is_tiling(&self) -> (tiling: bool)
        ensures
            tiling == (self is Tiling),
    {
        matches!(self, WindowState::Tiling)
    }
}

/// Whether a window is on screen, or on its way there or away.
#[derive(Clone, Copy, Debug, PartialEq, Eq, Structural)]
pub enum DisplayState {
    Hidden,
    Hiding,
    Shown,
    Showing,
}

impl DisplayState {
    /// On screen, or about to be.
    pub open spec fn visible(self) -> bool {
        self is Shown || self is Showing
    }

    pub fn is_visible(&self) -> (visible: bool)
        ensures
            visible == self.visible(),
    {
        matches!(self, DisplayState::Shown | DisplayState::Showing)
    }

    /// The state after the window's workspace is shown or hidden. A window that
    /// is already where its workspace wants it keeps its state.
    pub open spec fn after(self, displayed: bool) -> DisplayState {
        if displayed && !self.visible() {
            DisplayState::Showing
        } else if !displayed && self.visible() {
            DisplayState::Hiding
        } else {
            self
        }
    }

    pub fn transition(&self, displayed: bool) -> (next: DisplayState)
        ensures
            next == self.after(displayed),
            next.visible() == displayed,
    {
        match (*self, displayed) {
            (DisplayState::Hidden | DisplayState::Hiding, true) => DisplayState::Showing,
            (DisplayState::Shown | DisplayState::Showing, false) => DisplayState::Hiding,
            _ => *self,
        }
    }
}

/// How hidden windows are kept off screen.
#[derive(Clone, Copy, Debug, PartialEq, Eq, Structural)]
pub enum HideMethod {
    Hide,
    Cloak,
    PlaceInCorner,
}

/// The corner of a monitor in which hidden windows are parked.
#[derive(Clone, Copy, Debug, PartialEq, Eq, Structural)]
pub enum HideCorner {
    BottomLeft,
    BottomRight,
}

/// Where a window is placed in the stacking order.
#[derive(Clone, Copy, Debug, PartialEq, Eq, Structural)]
pub enum WindowZOrder {
    Normal,
    AfterWindow(NativeHandle),
    TopMost,
}

/// How a window's corners are drawn.
#[derive(Clone, Copy, Debug, PartialEq, Eq, Structural)]
pub enum CornerStyle {
    Default,
    Square,
    Rounded,
    SmallRounded,
}

/// The reasons for which a command is abandoned.
#[derive(Clone, Copy, Debug, PartialEq, Eq, Structural)]
pub enum SyncError {
    /// There is no focused container.
    NoFocusedContainer,
    /// The focused container is in no workspace.
    NoWorkspace,
    /// The window to be redrawn is in no workspace.
    WindowHasNoWorkspace,
    /// The container is on no monitor.
    NoMonitor,
    /// The window's monitor has no hide corner.
    NoHideCorner,
    /// A window of a workspace transition is in no workspace.
    NoTransitionWorkspace,
    /// The window's place in the layout is unknown.
    NoPlacement,
    /// None of the ancestors to redraw is still attached.
    NoAncestorToRedraw,
    /// A native call failed.
    Native,
}

/// States are of the same kind exactly if no kind tells them apart.
pub proof fn law_kinds_tell_states_apart(a: WindowState, b: WindowState)
    ensures
        a.same_kind(b) <==> {
            &&& a is Floating <==> b is Floating
            &&& a is Fullscreen <==> b is Fullscreen
            &&& a is Minimized <==> b is Minimized
            &&& a is Tiling <==> b is Tiling
        },
{
}

/// A window that its workspace shows is on screen or on its way there, and one
/// that its workspace hides is gone or on its way out. Only a window that is
/// already there stays.
pub proof fn law_windows_are_on_their_way(state: DisplayState)
    ensures
        state.after(true) is Shown <==> state is Shown,
        state.after(true) is Showing <==> state !is Shown,
        state.after(false) is Hidden <==> state is Hidden,
        state.after(false) is Hiding <==> state !is Hidden,
        state.visible() <==> state !is Hidden && state !is Hiding,
{
}

} // verus!
