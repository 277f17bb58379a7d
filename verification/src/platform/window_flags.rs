//! The flags that accompany a native positioning call, and the style bits that
//! the rules look at.
use vstd::prelude::*;

verus! {

/// Keep the window's size.
pub const SWP_NOSIZE: u32 = 0x0001;

/// Keep the window's position.
pub const SWP_NOMOVE: u32 = 0x0002;

/// Keep the window's place in the stacking order.
pub const SWP_NOZORDER: u32 = 0x0004;

/// Do not activate the window.
pub const SWP_NOACTIVATE: u32 = 0x0010;

/// Make the application recompute its frame.
pub const SWP_FRAMECHANGED: u32 = 0x0020;

/// Do not ask the application before the move.
pub const SWP_NOSENDCHANGING: u32 = 0x0400;

/// Post the request instead of waiting for the application.
pub const SWP_ASYNCWINDOWPOS: u32 = 0x4000;

/// The window has a maximize button.
pub const WS_MAXIMIZEBOX: u32 = 0x0001_0000;

/// Flags of a cloaked window's move to its target.
pub const PREPOSITION_FLAGS: u32 = SWP_NOZORDER | SWP_NOACTIVATE | SWP_NOSENDCHANGING
    | SWP_ASYNCWINDOWPOS;

/// Flags of a regular move.
pub const REPOSITION_FLAGS: u32 = SWP_NOACTIVATE | SWP_NOSENDCHANGING | SWP_ASYNCWINDOWPOS
    | SWP_FRAMECHANGED;

/// Flags of a move that follows a drag.
pub const DRAG_FLAGS: u32 = SWP_NOACTIVATE | SWP_NOZORDER;

/// Whether a positioning call with these flags returns without waiting for the
/// application.
pub open spec fn asynchronous(flags: u32) -> bool {
    flags & SWP_ASYNCWINDOWPOS != 0
}

/// What the moves ask for. A cloaked window keeps its place in the stacking
/// order; a regular move has the frame recomputed; neither activates the window,
/// asks the application or waits for it. A move that follows a drag waits, and
/// keeps the stacking order.
pub proof fn law_moves_ask_for_their_flags(flags: u32)
    ensures
        PREPOSITION_FLAGS == 0x4000 + 0x0400 + 0x0010 + 0x0004,
        REPOSITION_FLAGS == 0x4000 + 0x0400 + 0x0020 + 0x0010,
        DRAG_FLAGS == 0x0010 + 0x0004,
        asynchronous(flags) <==> (flags >> 14) & 1 == 1,
{
    assert(PREPOSITION_FLAGS == 0x4414 && REPOSITION_FLAGS == 0x4430 && DRAG_FLAGS == 0x0014)
        by (bit_vector);
    assert(flags & SWP_ASYNCWINDOWPOS != 0 <==> (flags >> 14) & 1 == 1) by (bit_vector);
}

} // verus!
