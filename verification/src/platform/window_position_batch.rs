//! Positioning several windows at once.
use vstd::prelude::*;

use crate::geometry::Rect;
use crate::model::{NativeHandle, WindowZOrder};
use crate::platform::window_flags::PREPOSITION_FLAGS;

verus! {

/// A window and the frame that it is sent to.
#[derive(Clone, Copy, Debug, PartialEq, Eq, Structural)]
pub struct WindowFrame {
    pub handle: NativeHandle,
    pub rect: Rect,
}

/// A positioning call.
#[derive(Clone, Copy, Debug, PartialEq, Eq, Structural)]
pub struct PositionRequest {
    pub handle: NativeHandle,
    pub z_order: WindowZOrder,
    pub rect: Rect,
    pub flags: u32,
}

/// Works out one request per window, in order. The windows are queued
/// independently, so a request that fails is skipped: a busy or destroyed
/// window cannot prevent its neighbors from processing the latest layout.
pub fn set_window_positions(windows: &Vec<WindowFrame>) -> (requests: Vec<PositionRequest>)
    ensures
        requests@ == windows@.map_values(
            |window: WindowFrame|
                PositionRequest {
                    handle: window.handle,
                    z_order: WindowZOrder::Normal,
                    rect: window.rect,
                    flags: PREPOSITION_FLAGS,
                },
        ),
{
    let mut requests: Vec<PositionRequest> = Vec::new();
    let mut i: usize = 0;
    while i < windows.len()
        invariant
            i <= windows.len(),
            requests@.len() == i,
            forall|k: int|
                0 <= k < i ==> #[trigger] requests@[k] == (PositionRequest {
                    handle: windows@[k].handle,
                    z_order: WindowZOrder::Normal,
                    rect: windows@[k].rect,
                    flags: PREPOSITION_FLAGS,
                }),
        decreases windows.len() - i,
    {
        requests.push(
            PositionRequest {
                handle: windows[i].handle,
                z_order: WindowZOrder::Normal,
                rect: windows[i].rect,
                flags: PREPOSITION_FLAGS,
            },
        );
        i += 1;
    }
    requests
}

} // verus!
