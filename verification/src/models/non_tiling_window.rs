//! Windows that take no part in tiling: floating, fullscreen and minimized
//! ones.
use vstd::prelude::*;

use crate::geometry::Rect;
use crate::ids::random_id;
use crate::model::{ContainerId, DisplayState, NativeHandle, SyncError, WindowState};
use crate::models::window::{ActiveDrag, NativeWindowProperties};

verus! {

/// A window that takes no part in tiling. `T` is the place to insert it at when
/// it is tiled again, `B` how far its border reaches beyond its frame, and `R` a
/// window rule; none of them is looked into.
pub struct NonTilingWindow<T, B, R> {
    pub id: ContainerId,
    pub native: NativeHandle,
    pub native_properties: NativeWindowProperties,
    pub state: WindowState,
    pub prev_state: Option<WindowState>,
    pub insertion_target: Option<T>,
    pub display_state: DisplayState,
    pub border_delta: B,
    pub has_pending_dpi_adjustment: bool,
    pub floating_placement: Rect,
    pub has_custom_floating_placement: bool,
    /// The rules that were applied and are not applied again.
    pub done_window_rules: Vec<R>,
    pub active_drag: Option<ActiveDrag>,
}

/// A tiled window. `G` are the gaps around it.
pub struct TilingWindow<B, R, G> {
    pub id: ContainerId,
    pub native: NativeHandle,
    pub native_properties: NativeWindowProperties,
    pub prev_state: Option<WindowState>,
    pub border_delta: B,
    pub floating_placement: Rect,
    pub has_custom_floating_placement: bool,
    pub gaps_config: G,
    pub done_window_rules: Vec<R>,
    pub active_drag: Option<ActiveDrag>,
}

/// The areas of a window's monitor.
#[derive(Clone, Copy, Debug, PartialEq, Eq, Structural)]
pub struct MonitorAreas {
    pub working_area: Rect,
    /// The monitor's place in the layout, if it is known.
    pub rect: Option<Rect>,
}

/// What is told of a window to the outside.
pub struct WindowDto<'a, B> {
    pub id: ContainerId,
    pub parent_id: Option<ContainerId>,
    pub has_focus: bool,
    pub width: i32,
    pub height: i32,
    pub x: i32,
    pub y: i32,
    pub state: WindowState,
    pub prev_state: Option<WindowState>,
    pub display_state: DisplayState,
    pub border_delta: &'a B,
    pub floating_placement: Rect,
    pub handle: NativeHandle,
    pub title: String,
    pub class_name: String,
    pub process_name: String,
    pub active_drag: Option<ActiveDrag>,
}

impl<T, B, R> NonTilingWindow<T, B, R> {
    /// Creates a window that is shown. Without an id it gets a random one.
    pub fn new(
        id: Option<ContainerId>,
        native: NativeHandle,
        native_properties: NativeWindowProperties,
        state: WindowState,
        prev_state: Option<WindowState>,
        border_delta: B,
        insertion_target: Option<T>,
        floating_placement: Rect,
        has_custom_floating_placement: bool,
        done_window_rules: Vec<R>,
        active_drag: Option<ActiveDrag>,
    ) -> (window: NonTilingWindow<T, B, R>)
        ensures
            match id {
                Some(id) => window.id == id,
                None => crate::ids::is_random(window.id),
            },
            window == (NonTilingWindow {
                id: window.id,
                native,
                native_properties,
                state,
                prev_state,
                insertion_target,
                display_state: DisplayState::Shown,
                border_delta,
                has_pending_dpi_adjustment: false,
                floating_placement,
                has_custom_floating_placement,
                done_window_rules,
                active_drag,
            }),
    {
        let id: ContainerId = match id {
            Some(id) => id,
            None => random_id(),
        };
        NonTilingWindow {
            id,
            native,
            native_properties,
            state,
            prev_state,
            insertion_target,
            display_state: DisplayState::Shown,
            border_delta,
            has_pending_dpi_adjustment: false,
            floating_placement,
            has_custom_floating_placement,
            done_window_rules,
            active_drag,
        }
    }

    pub fn insertion_target(&self) -> (target: Option<&T>)
        ensures
            target == match self.insertion_target {
                Some(target) => Some(&target),
                None => None,
            },
    {
        match &self.insertion_target {
            Some(target) => Some(target),
            None => None,
        }
    }

    pub fn set_insertion_target(&mut self, insertion_target: Option<T>)
        ensures
            *final(self) == (NonTilingWindow { insertion_target, ..*old(self) }),
    {
        self.insertion_target = insertion_target;
    }

    /// The window as a tiled one. It remembers the state that it leaves or,
    /// while it is being dragged, the one that it had before.
    pub fn to_tiling<G>(self, gaps_config: G) -> (window: TilingWindow<B, R, G>)
        ensures
            window == (TilingWindow {
                id: self.id,
                native: self.native,
                native_properties: self.native_properties,
                prev_state: if self.active_drag is Some {
                    self.prev_state
                } else {
                    Some(self.state)
                },
                border_delta: self.border_delta,
                floating_placement: self.floating_placement,
                has_custom_floating_placement: self.has_custom_floating_placement,
                gaps_config,
                done_window_rules: self.done_window_rules,
                active_drag: self.active_drag,
            }),
    {
        let prev_state = if self.active_drag.is_some() {
            self.prev_state
        } else {
            Some(self.state)
        };
        TilingWindow {
            id: self.id,
            native: self.native,
            native_properties: self.native_properties,
            prev_state,
            border_delta: self.border_delta,
            floating_placement: self.floating_placement,
            has_custom_floating_placement: self.has_custom_floating_placement,
            gaps_config,
            done_window_rules: self.done_window_rules,
            active_drag: self.active_drag,
        }
    }

    /// The window's frame in the layout: a maximized window fills the working
    /// area of its monitor, a fullscreen one the whole monitor, and any other
    /// stays where it was placed.
    pub open spec fn placement(self, monitor: Option<MonitorAreas>) -> Result<Rect, SyncError> {
        match self.state {
            WindowState::Fullscreen(config) => match monitor {
                None => Err(SyncError::NoMonitor),
                Some(areas) => if config.maximized {
                    Ok(areas.working_area)
                } else {
                    match areas.rect {
                        Some(rect) => Ok(rect),
                        None => Err(SyncError::NoPlacement),
                    }
                },
            },
            _ => Ok(self.floating_placement),
        }
    }

    pub fn to_rect(&self, monitor: Option<MonitorAreas>) -> (rect: Result<Rect, SyncError>)
        ensures
            rect == self.placement(monitor),
    {
        match self.state {
            WindowState::Fullscreen(config) => {
                let areas = match monitor {
                    Some(areas) => areas,
                    None => return Err(SyncError::NoMonitor),
                };
                if config.maximized {
                    Ok(areas.working_area)
                } else {
                    match areas.rect {
                        Some(rect) => Ok(rect),
                        None => Err(SyncError::NoPlacement),
                    }
                }
            },
            _ => Ok(self.floating_placement),
        }
    }

    /// What is told of the window to the outside.
    pub fn to_dto(
        &self,
        parent_id: Option<ContainerId>,
        has_focus: bool,
        monitor: Option<MonitorAreas>,
    ) -> (dto: Result<WindowDto<'_, B>, SyncError>)
        requires
            self.placement(monitor) matches Ok(rect) ==> rect.measurable(),
        ensures
            dto is Ok <==> self.placement(monitor) is Ok,
            dto matches Err(error) ==> self.placement(monitor) == Err::<Rect, SyncError>(error),
            dto matches Ok(dto) ==> {
                let rect = self.placement(monitor)->Ok_0;
                &&& dto.id == self.id
                &&& dto.parent_id == parent_id
                &&& dto.has_focus == has_focus
                &&& dto.width == rect.spec_width()
                &&& dto.height == rect.spec_height()
                &&& dto.x == rect.left
                &&& dto.y == rect.top
                &&& dto.state == self.state
                &&& dto.prev_state == self.prev_state
                &&& dto.display_state == self.display_state
                &&& *dto.border_delta == self.border_delta
                &&& dto.floating_placement == self.floating_placement
                &&& dto.handle == self.native
                &&& dto.title@ == self.native_properties.title@
                &&& dto.class_name@ == self.native_properties.class_name@
                &&& dto.process_name@ == self.native_properties.process_name@
                &&& dto.active_drag == self.active_drag
            },
    {
        let rect = match self.to_rect(monitor) {
            Ok(rect) => rect,
            Err(error) => return Err(error),
        };
        Ok(
            WindowDto {
                id: self.id,
                parent_id,
                has_focus,
                width: rect.width(),
                height: rect.height(),
                x: rect.x(),
                y: rect.y(),
                state: self.state,
                prev_state: self.prev_state,
                display_state: self.display_state,
                border_delta: &self.border_delta,
                floating_placement: self.floating_placement,
                handle: self.native,
                title: self.native_properties.title.clone(),
                class_name: self.native_properties.class_name.clone(),
                process_name: self.native_properties.process_name.clone(),
                active_drag: self.active_drag,
            },
        )
    }
}

/// A window that is not fullscreen stays where it was placed, whatever monitor
/// it is on. A fullscreen window needs a monitor: maximized, it fills the working
/// area, and otherwise the whole monitor, whose place has to be known.
pub proof fn law_only_fullscreen_windows_fill_the_monitor<T, B, R>(
    window: NonTilingWindow<T, B, R>,
    areas: MonitorAreas,
)
    ensures
        window.state is Floating || window.state is Minimized || window.state is Tiling
            ==> window.placement(None) == Ok::<Rect, SyncError>(window.floating_placement)
            && window.placement(Some(areas)) == Ok::<Rect, SyncError>(window.floating_placement),
        window.state is Fullscreen ==> window.placement(None) == Err::<Rect, SyncError>(
            SyncError::NoMonitor,
        ),
        window.state is Fullscreen && window.state->Fullscreen_0.maximized ==> window.placement(
            Some(areas),
        ) == Ok::<Rect, SyncError>(areas.working_area),
        window.state is Fullscreen && !window.state->Fullscreen_0.maximized ==> match areas.rect {
            Some(rect) => window.placement(Some(areas)) == Ok::<Rect, SyncError>(rect),
            None => window.placement(Some(areas)) == Err::<Rect, SyncError>(SyncError::NoPlacement),
        },
{
}

} // verus!
