//! Listening to native window events.
use vstd::prelude::*;

use crate::model::NativeHandle;

verus! {

pub const EVENT_SYSTEM_FOREGROUND: u32 = 0x0003;

pub const EVENT_SYSTEM_MOVESIZESTART: u32 = 0x000a;

pub const EVENT_SYSTEM_MOVESIZEEND: u32 = 0x000b;

pub const EVENT_SYSTEM_MINIMIZESTART: u32 = 0x0016;

pub const EVENT_SYSTEM_MINIMIZEEND: u32 = 0x0017;

pub const EVENT_OBJECT_DESTROY: u32 = 0x8001;

pub const EVENT_OBJECT_SHOW: u32 = 0x8002;

pub const EVENT_OBJECT_HIDE: u32 = 0x8003;

pub const EVENT_OBJECT_LOCATIONCHANGE: u32 = 0x800b;

pub const EVENT_OBJECT_NAMECHANGE: u32 = 0x800c;

pub const EVENT_OBJECT_CLOAKED: u32 = 0x8017;

pub const EVENT_OBJECT_UNCLOAKED: u32 = 0x8018;

/// The object of an event is a window.
pub const OBJID_WINDOW: i32 = 0;

/// Native details of a window event. There are none on this platform.
#[derive(Clone, Copy, Debug, PartialEq, Eq, Structural)]
pub struct WindowEventNotificationInner;

/// Something that happened to a window.
#[derive(Clone, Copy, Debug, PartialEq, Eq, Structural)]
pub enum WindowEvent {
    Destroyed(NativeHandle),
    Focused(NativeHandle),
    Hidden(NativeHandle),
    MovedOrResized {
        window: NativeHandle,
        is_interactive_start: bool,
        is_interactive_end: bool,
    },
    Minimized(NativeHandle),
    MinimizeEnded(NativeHandle),
    Shown(NativeHandle),
    TitleChanged(NativeHandle),
}

/// What an event of the type means for the window.
pub open spec fn event_of(event_type: u32, window: NativeHandle) -> Option<WindowEvent> {
    if event_type == EVENT_OBJECT_DESTROY {
        Some(WindowEvent::Destroyed(window))
    } else if event_type == EVENT_SYSTEM_FOREGROUND {
        Some(WindowEvent::Focused(window))
    } else if event_type == EVENT_OBJECT_HIDE || event_type == EVENT_OBJECT_CLOAKED {
        Some(WindowEvent::Hidden(window))
    } else if event_type == EVENT_OBJECT_LOCATIONCHANGE || event_type == EVENT_SYSTEM_MOVESIZESTART
        || event_type == EVENT_SYSTEM_MOVESIZEEND {
        Some(
            WindowEvent::MovedOrResized {
                window,
                is_interactive_start: event_type == EVENT_SYSTEM_MOVESIZESTART,
                is_interactive_end: event_type == EVENT_SYSTEM_MOVESIZEEND,
            },
        )
    } else if event_type == EVENT_SYSTEM_MINIMIZESTART {
        Some(WindowEvent::Minimized(window))
    } else if event_type == EVENT_SYSTEM_MINIMIZEEND {
        Some(WindowEvent::MinimizeEnded(window))
    } else if event_type == EVENT_OBJECT_SHOW || event_type == EVENT_OBJECT_UNCLOAKED {
        Some(WindowEvent::Shown(window))
    } else if event_type == EVENT_OBJECT_NAMECHANGE {
        Some(WindowEvent::TitleChanged(window))
    } else {
        None
    }
}

/// The window event that a native notification stands for. Notifications about
/// controls inside a window, and about no window at all, are ignored.
pub fn window_event(event_type: u32, handle: NativeHandle, id_object: i32, id_child: i32) -> (event:
    Option<WindowEvent>)
    ensures
        event == if id_object == OBJID_WINDOW && id_child == 0 && handle != 0 {
            event_of(event_type, handle)
        } else {
            None
        },
{
    let is_window_event = id_object == OBJID_WINDOW && id_child == 0 && handle != 0;
    if !is_window_event {
        return None;
    }
    match event_type {
        EVENT_OBJECT_DESTROY => Some(WindowEvent::Destroyed(handle)),
        EVENT_SYSTEM_FOREGROUND => Some(WindowEvent::Focused(handle)),
        EVENT_OBJECT_HIDE | EVENT_OBJECT_CLOAKED => Some(WindowEvent::Hidden(handle)),
        EVENT_OBJECT_LOCATIONCHANGE => Some(
            WindowEvent::MovedOrResized {
                window: handle,
                is_interactive_start: false,
                is_interactive_end: false,
            },
        ),
        EVENT_SYSTEM_MINIMIZESTART => Some(WindowEvent::Minimized(handle)),
        EVENT_SYSTEM_MINIMIZEEND => Some(WindowEvent::MinimizeEnded(handle)),
        EVENT_SYSTEM_MOVESIZESTART => Some(
            WindowEvent::MovedOrResized {
                window: handle,
                is_interactive_start: true,
                is_interactive_end: false,
            },
        ),
        EVENT_SYSTEM_MOVESIZEEND => Some(
            WindowEvent::MovedOrResized {
                window: handle,
                is_interactive_start: false,
                is_interactive_end: true,
            },
        ),
        EVENT_OBJECT_SHOW | EVENT_OBJECT_UNCLOAKED => Some(WindowEvent::Shown(handle)),
        EVENT_OBJECT_NAMECHANGE => Some(WindowEvent::TitleChanged(handle)),
        _ => None,
    }
}

/// A range of event types.
#[derive(Clone, Copy, Debug, PartialEq, Eq, Structural)]
pub struct EventRange {
    pub min: u32,
    pub max: u32,
}

/// The ranges that are listened to. Separate hooks are created per event range,
/// which is more performant than a single hook covering all events.
pub open spec fn event_ranges() -> Seq<EventRange> {
    seq![
        EventRange { min: EVENT_OBJECT_DESTROY, max: EVENT_OBJECT_HIDE },
        EventRange { min: EVENT_SYSTEM_MINIMIZESTART, max: EVENT_SYSTEM_MINIMIZEEND },
        EventRange { min: EVENT_SYSTEM_MOVESIZESTART, max: EVENT_SYSTEM_MOVESIZEEND },
        EventRange { min: EVENT_SYSTEM_FOREGROUND, max: EVENT_SYSTEM_FOREGROUND },
        EventRange { min: EVENT_OBJECT_LOCATIONCHANGE, max: EVENT_OBJECT_NAMECHANGE },
        EventRange { min: EVENT_OBJECT_CLOAKED, max: EVENT_OBJECT_UNCLOAKED },
    ]
}

/// How many ranges are listened to.
pub const EVENT_RANGE_COUNT: usize = 6;

fn event_range(index: usize) -> (range: EventRange)
    requires
        index < EVENT_RANGE_COUNT,
    ensures
        range == event_ranges()[index as int],
{
    if index == 0 {
        EventRange { min: EVENT_OBJECT_DESTROY, max: EVENT_OBJECT_HIDE }
    } else if index == 1 {
        EventRange { min: EVENT_SYSTEM_MINIMIZESTART, max: EVENT_SYSTEM_MINIMIZEEND }
    } else if index == 2 {
        EventRange { min: EVENT_SYSTEM_MOVESIZESTART, max: EVENT_SYSTEM_MOVESIZEEND }
    } else if index == 3 {
        EventRange { min: EVENT_SYSTEM_FOREGROUND, max: EVENT_SYSTEM_FOREGROUND }
    } else if index == 4 {
        EventRange { min: EVENT_OBJECT_LOCATIONCHANGE, max: EVENT_OBJECT_NAMECHANGE }
    } else {
        EventRange { min: EVENT_OBJECT_CLOAKED, max: EVENT_OBJECT_UNCLOAKED }
    }
}

/// Every event type that means something is listened to.
pub proof fn law_every_event_is_listened_to(event_type: u32, window: NativeHandle)
    requires
        event_of(event_type, window) is Some,
    ensures
        exists|i: int|
            0 <= i < event_ranges().len() && (#[trigger] event_ranges()[i]).min <= event_type
                <= event_ranges()[i].max,
{
    let ranges = event_ranges();
    assert(ranges[0].min <= event_type <= ranges[0].max || ranges[1].min <= event_type
        <= ranges[1].max || ranges[2].min <= event_type <= ranges[2].max || ranges[3].min
        <= event_type <= ranges[3].max || ranges[4].min <= event_type <= ranges[4].max
        || ranges[5].min <= event_type <= ranges[5].max);
}

/// Why a listener could not be created.
#[derive(Clone, Copy, Debug, PartialEq, Eq, Structural)]
pub enum ListenerError {
    /// The thread already has a listener.
    SenderAlreadySet,
    /// A native hook could not be set.
    HookFailed,
}

/// How the creation of a listener goes on.
pub enum HookNext {
    /// Set the hook for the range.
    Hook(EventRange),
    /// Remove these hooks again and give up.
    RollBack(Vec<isize>),
    /// All hooks are set.
    Complete(WindowListener),
}

/// The hooks being set, one range after the other.
pub struct HookInstallation {
    pub handles: Vec<isize>,
}

/// A listener with its native hooks.
pub struct WindowListener {
    pub hook_handles: Vec<isize>,
}

/// A thread's place for the sender of window events, of which there is one.
pub struct SenderSlot<S> {
    pub sender: Option<S>,
}

impl<S> SenderSlot<S> {
    pub fn new() -> (slot: SenderSlot<S>)
        ensures
            slot.sender is None,
    {
        SenderSlot { sender: None }
    }

    /// Stores the sender, the hooks being set.
    pub fn fill(&mut self, sender: S)
        ensures
            final(self).sender == Some(sender),
    {
        self.sender = Some(sender);
    }

    /// Releases the sender, the hooks being removed.
    pub fn release(&mut self)
        ensures
            final(self).sender is None,
    {
        self.sender = None;
    }
}

/// The handle stands for no hook.
pub open spec fn invalid_hook(handle: isize) -> bool {
    handle == -1 || handle == 0
}

impl HookInstallation {
    pub open spec fn well_formed(self) -> bool {
        self.handles@.len() < EVENT_RANGE_COUNT
    }

    /// Starts setting the hooks of a listener, unless the thread already has
    /// one.
    pub fn begin<S>(slot: &SenderSlot<S>) -> (result: Result<
        (HookInstallation, EventRange),
        ListenerError,
    >)
        ensures
            result is Err <==> slot.sender is Some,
            result matches Err(error) ==> error == ListenerError::SenderAlreadySet,
            result matches Ok((installation, range)) ==> {
                &&& installation.handles@ == Seq::<isize>::empty()
                &&& installation.well_formed()
                &&& range == event_ranges()[0]
            },
    {
        if slot.sender.is_some() {
            return Err(ListenerError::SenderAlreadySet);
        }
        Ok((HookInstallation { handles: Vec::new() }, event_range(0)))
    }

    /// Takes the handle of the hook that was set; an invalid one means that it
    /// could not be. Then the hooks that were set before are removed again.
    pub fn hooked(self, handle: isize) -> (result: (HookInstallation, HookNext))
        requires
            self.well_formed(),
        ensures
            invalid_hook(handle) ==> (result.1 matches HookNext::RollBack(handles) && handles@
                == self.handles@),
            !invalid_hook(handle) && self.handles@.len() + 1 < EVENT_RANGE_COUNT ==> {
                &&& result.0.well_formed()
                &&& result.0.handles@ == self.handles@.push(handle)
                &&& result.1 == HookNext::Hook(event_ranges()[self.handles@.len() as int + 1])
            },
            !invalid_hook(handle) && self.handles@.len() + 1 == EVENT_RANGE_COUNT ==> (result.1
                matches HookNext::Complete(listener) && listener.hook_handles@
                == self.handles@.push(handle)),
    {
        let mut handles = self.handles;
        if handle == -1 || handle == 0 {
            return (HookInstallation { handles: Vec::new() }, HookNext::RollBack(handles));
        }
        handles.push(handle);
        if handles.len() < EVENT_RANGE_COUNT {
            let range = event_range(handles.len());
            (HookInstallation { handles }, HookNext::Hook(range))
        } else {
            (
                HookInstallation { handles: Vec::new() },
                HookNext::Complete(WindowListener { hook_handles: handles }),
            )
        }
    }
}

impl WindowListener {
    /// Terminates the listener. The returned hooks are to be removed on the
    /// thread that installed them, where the sender is released afterwards; a
    /// listener that was terminated has none.
    pub fn terminate(&mut self) -> (handles: Vec<isize>)
        ensures
            handles@ == old(self).hook_handles@,
            final(self).hook_handles@ == Seq::<isize>::empty(),
    {
        let mut handles: Vec<isize> = Vec::new();
        std::mem::swap(&mut handles, &mut self.hook_handles);
        handles
    }
}

/// Every kind of window event has its native event types, and all other types
/// mean nothing. An event always speaks of the window that it was reported for.
pub proof fn law_event_types_have_their_meaning(event_type: u32, window: NativeHandle)
    ensures
        ({
            let event = event_of(event_type, window);
            &&& event == Some(WindowEvent::Destroyed(window)) <==> event_type == 0x8001
            &&& event == Some(WindowEvent::Focused(window)) <==> event_type == 0x0003
            &&& event == Some(WindowEvent::Hidden(window)) <==> event_type == 0x8003 || event_type
                == 0x8017
            &&& event == Some(WindowEvent::Shown(window)) <==> event_type == 0x8002 || event_type
                == 0x8018
            &&& event == Some(WindowEvent::Minimized(window)) <==> event_type == 0x0016
            &&& event == Some(WindowEvent::MinimizeEnded(window)) <==> event_type == 0x0017
            &&& event == Some(WindowEvent::TitleChanged(window)) <==> event_type == 0x800c
            &&& event == Some(
                WindowEvent::MovedOrResized {
                    window,
                    is_interactive_start: true,
                    is_interactive_end: false,
                },
            ) <==> event_type == 0x000a
            &&& event == Some(
                WindowEvent::MovedOrResized {
                    window,
                    is_interactive_start: false,
                    is_interactive_end: true,
                },
            ) <==> event_type == 0x000b
            &&& event == Some(
                WindowEvent::MovedOrResized {
                    window,
                    is_interactive_start: false,
                    is_interactive_end: false,
                },
            ) <==> event_type == 0x800b
            &&& event is None <==> !(event_type == 0x0003 || 0x000a <= event_type <= 0x000b
                || 0x0016 <= event_type <= 0x0017 || 0x8001 <= event_type <= 0x8003 || 0x800b
                <= event_type <= 0x800c || 0x8017 <= event_type <= 0x8018)
        }),
{
}

/// No hook is set for event types that mean nothing, and no two hooks report the
/// same event.
pub proof fn law_hooks_report_only_what_matters(
    event_type: u32,
    window: NativeHandle,
    i: int,
    j: int,
)
    requires
        0 <= i < event_ranges().len(),
        0 <= j < event_ranges().len(),
        event_ranges()[i].min <= event_type <= event_ranges()[i].max,
        event_ranges()[j].min <= event_type <= event_ranges()[j].max,
    ensures
        event_of(event_type, window) is Some,
        i == j,
{
    let ranges = event_ranges();
    assert(i == 0 || i == 1 || i == 2 || i == 3 || i == 4 || i == 5);
    assert(j == 0 || j == 1 || j == 2 || j == 3 || j == 4 || j == 5);
    assert(ranges[0].min == 0x8001 && ranges[0].max == 0x8003);
    assert(ranges[1].min == 0x0016 && ranges[1].max == 0x0017);
    assert(ranges[2].min == 0x000a && ranges[2].max == 0x000b);
    assert(ranges[3].min == 0x0003 && ranges[3].max == 0x0003);
    assert(ranges[4].min == 0x800b && ranges[4].max == 0x800c);
    assert(ranges[5].min == 0x8017 && ranges[5].max == 0x8018);
}

} // verus!
