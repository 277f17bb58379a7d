use std::sync::Arc;

use glazewm::platform::event_loop::{
    loop_step, route_message, EventLoop, EventLoopError, LoopStep, Route, SyncSlot, WindowMessage,
    WndProcCallbacks,
};
use glazewm::platform::keyboard_hook::{
    hook_event, HookError, HookSlot, Key, KeyCode, KeyEvent, KeyboardHook, VK_LCONTROL, VK_LMENU,
    VK_LSHIFT, VK_LWIN, VK_RCONTROL, VK_RMENU, VK_RSHIFT, VK_RWIN, WM_KEYDOWN, WM_SYSKEYDOWN,
};
use glazewm::platform::window_listener::{
    window_event, EventRange, HookInstallation, HookNext, ListenerError, SenderSlot, WindowEvent,
    WindowEventNotificationInner, EVENT_OBJECT_CLOAKED, EVENT_OBJECT_DESTROY, EVENT_OBJECT_HIDE,
    EVENT_OBJECT_LOCATIONCHANGE, EVENT_OBJECT_NAMECHANGE, EVENT_OBJECT_SHOW,
    EVENT_OBJECT_UNCLOAKED, EVENT_SYSTEM_FOREGROUND, EVENT_SYSTEM_MINIMIZEEND,
    EVENT_SYSTEM_MINIMIZESTART, EVENT_SYSTEM_MOVESIZEEND, EVENT_SYSTEM_MOVESIZESTART,
    OBJID_WINDOW,
};
use windows::Win32::UI::Input::KeyboardAndMouse as keys;
use windows::Win32::UI::WindowsAndMessaging as native;

type Callback = Box<dyn Fn(KeyEvent) -> bool>;

type Closure = Box<dyn FnOnce()>;

type WndProc = Box<dyn Fn(WindowMessage) -> Option<isize>>;

#[test]
fn terminating_keyboard_hook_releases_capture_and_allows_recreation() {
    let mut slot: HookSlot<Callback> = HookSlot::new();
    for _ in 0..10 {
        let capture = Arc::new(());
        let weak = Arc::downgrade(&capture);
        slot.check_vacant().unwrap();
        let mut hook: KeyboardHook = slot
            .install(
                Box::new(move |_| {
                    let _ = &capture;
                    false
                }),
                Some(1),
            )
            .unwrap();
        assert!(slot.check_vacant().is_err());
        assert!(slot.install(Box::new(|_| false), Some(2)).is_err());
        hook.terminate(&mut slot, true).unwrap();
        hook.terminate(&mut slot, true).unwrap();
        assert!(weak.upgrade().is_none());
    }
}

#[test]
fn a_hook_that_cannot_be_set_or_removed_changes_nothing() {
    let mut slot: HookSlot<Callback> = HookSlot::new();
    assert_eq!(slot.install(Box::new(|_| true), None).err(), Some(HookError::Native));
    let event = KeyEvent { key: Key::Win, key_code: KeyCode(VK_LWIN), is_keypress: true };
    assert!(!slot.should_intercept(event));
    let mut hook = slot.install(Box::new(|event| event.is_keypress), Some(5)).unwrap();
    assert_eq!(slot.check_vacant(), Err(HookError::AlreadyRegistered));
    assert_eq!(hook.to_unhook(), Some(5));
    assert_eq!(hook.terminate(&mut slot, false), Err(HookError::Native));
    assert_eq!(hook.to_unhook(), Some(5));
    assert!(slot.should_intercept(event));
    assert!(!slot.should_intercept(KeyEvent { is_keypress: false, ..event }));
    assert_eq!(hook.terminate(&mut slot, true), Ok(()));
    assert_eq!(hook.to_unhook(), None);
    assert!(!slot.should_intercept(event));
}

#[test]
fn modifiers_are_down_if_either_side_is() {
    let event = KeyEvent { key: Key::Win, key_code: KeyCode(VK_LWIN), is_keypress: true };
    let only = |wanted: u16| move |code: u16| if code == wanted { 0x80 } else { 0x7f };
    for (key, left, right) in [
        (Key::Cmd, VK_LWIN, VK_RWIN),
        (Key::Win, VK_LWIN, VK_RWIN),
        (Key::Alt, VK_LMENU, VK_RMENU),
        (Key::Ctrl, VK_LCONTROL, VK_RCONTROL),
        (Key::Shift, VK_LSHIFT, VK_RSHIFT),
    ] {
        assert!(event.is_key_down(key, only(left)));
        assert!(event.is_key_down(key, only(right)));
        assert!(!event.is_key_down(key, only(0x41)));
    }
    assert!(event.is_key_down(Key::Mapped(KeyCode(0x41)), only(0x41)));
    assert!(!event.is_key_down(Key::Mapped(KeyCode(0x42)), only(0x41)));
    assert!(!event.is_key_down(Key::Unmapped, |_| -1));
    assert!(event.is_key_down(Key::Alt, |_| -128));
}

#[test]
fn key_codes_have_their_native_values() {
    assert_eq!((VK_LWIN, VK_RWIN), (keys::VK_LWIN.0, keys::VK_RWIN.0));
    assert_eq!((VK_LMENU, VK_RMENU), (keys::VK_LMENU.0, keys::VK_RMENU.0));
    assert_eq!((VK_LCONTROL, VK_RCONTROL), (keys::VK_LCONTROL.0, keys::VK_RCONTROL.0));
    assert_eq!((VK_LSHIFT, VK_RSHIFT), (keys::VK_LSHIFT.0, keys::VK_RSHIFT.0));
    assert_eq!((WM_KEYDOWN, WM_SYSKEYDOWN), (native::WM_KEYDOWN, native::WM_SYSKEYDOWN));
}

#[test]
fn hook_notifications_become_key_events() {
    let key = Some(Key::Mapped(KeyCode(0x41)));
    assert_eq!(hook_event(-1, 0x41, WM_KEYDOWN, key), None);
    assert_eq!(hook_event(0, 0x41, WM_KEYDOWN, None), None);
    let pressed = hook_event(0, 0x1_0041, WM_SYSKEYDOWN, key).unwrap();
    assert_eq!(pressed.key_code, KeyCode(0x41));
    assert!(pressed.is_keypress);
    assert!(hook_event(0, 0x41, WM_KEYDOWN, key).unwrap().is_keypress);
    assert!(!hook_event(0, 0x41, native::WM_KEYUP, key).unwrap().is_keypress);
}

#[test]
fn listener_can_be_recreated_after_termination() {
    let mut slot: SenderSlot<u8> = SenderSlot::new();
    for _ in 0..10 {
        let (mut installation, mut range) = HookInstallation::begin(&slot).unwrap();
        let mut handle = 0;
        let mut listener = loop {
            handle += 1;
            assert!(range.min <= range.max);
            let (rest, next) = installation.hooked(handle);
            installation = rest;
            match next {
                HookNext::Hook(next_range) => range = next_range,
                HookNext::Complete(listener) => break listener,
                HookNext::RollBack(_) => panic!("no hook failed"),
            }
        };
        slot.fill(1);
        assert_eq!(listener.terminate(), vec![1, 2, 3, 4, 5, 6]);
        slot.release();
        assert!(slot.sender.is_none());
        assert_eq!(listener.hook_handles.len(), 0);
        assert!(listener.terminate().is_empty());
    }
}

#[test]
fn a_failed_hook_rolls_the_others_back() {
    let mut slot: SenderSlot<u8> = SenderSlot::new();
    let (installation, range) = HookInstallation::begin(&slot).unwrap();
    assert_eq!(range, EventRange { min: EVENT_OBJECT_DESTROY, max: EVENT_OBJECT_HIDE });
    let (installation, next) = installation.hooked(11);
    assert!(matches!(
        next,
        HookNext::Hook(EventRange { min: EVENT_SYSTEM_MINIMIZESTART, max: EVENT_SYSTEM_MINIMIZEEND })
    ));
    let (installation, _) = installation.hooked(12);
    match installation.hooked(0).1 {
        HookNext::RollBack(handles) => assert_eq!(handles, vec![11, 12]),
        _ => panic!("expected a rollback"),
    }
    let (installation, _) = HookInstallation::begin(&slot).unwrap();
    match installation.hooked(-1).1 {
        HookNext::RollBack(handles) => assert!(handles.is_empty()),
        _ => panic!("expected a rollback"),
    }
    slot.fill(3);
    assert_eq!(HookInstallation::begin(&slot).err(), Some(ListenerError::SenderAlreadySet));
}

#[test]
fn native_events_become_window_events() {
    let event = |event_type| window_event(event_type, 7, OBJID_WINDOW, 0);
    assert_eq!(event(EVENT_OBJECT_DESTROY), Some(WindowEvent::Destroyed(7)));
    assert_eq!(event(EVENT_SYSTEM_FOREGROUND), Some(WindowEvent::Focused(7)));
    assert_eq!(event(EVENT_OBJECT_HIDE), Some(WindowEvent::Hidden(7)));
    assert_eq!(event(EVENT_OBJECT_CLOAKED), Some(WindowEvent::Hidden(7)));
    assert_eq!(event(EVENT_OBJECT_SHOW), Some(WindowEvent::Shown(7)));
    assert_eq!(event(EVENT_OBJECT_UNCLOAKED), Some(WindowEvent::Shown(7)));
    assert_eq!(event(EVENT_OBJECT_NAMECHANGE), Some(WindowEvent::TitleChanged(7)));
    assert_eq!(event(EVENT_SYSTEM_MINIMIZESTART), Some(WindowEvent::Minimized(7)));
    assert_eq!(event(EVENT_SYSTEM_MINIMIZEEND), Some(WindowEvent::MinimizeEnded(7)));
    for (event_type, start, end) in [
        (EVENT_OBJECT_LOCATIONCHANGE, false, false),
        (EVENT_SYSTEM_MOVESIZESTART, true, false),
        (EVENT_SYSTEM_MOVESIZEEND, false, true),
    ] {
        assert_eq!(
            event(event_type),
            Some(WindowEvent::MovedOrResized {
                window: 7,
                is_interactive_start: start,
                is_interactive_end: end,
            })
        );
    }
    assert_eq!(event(0x8004), None);
    assert_eq!(window_event(EVENT_OBJECT_SHOW, 0, OBJID_WINDOW, 0), None);
    assert_eq!(window_event(EVENT_OBJECT_SHOW, 7, OBJID_WINDOW, 1), None);
    assert_eq!(window_event(EVENT_OBJECT_SHOW, 7, -4, 0), None);
    assert_eq!(WindowEventNotificationInner, WindowEventNotificationInner);
}

#[test]
fn event_types_have_their_native_values() {
    assert_eq!(EVENT_OBJECT_DESTROY, native::EVENT_OBJECT_DESTROY);
    assert_eq!(EVENT_OBJECT_SHOW, native::EVENT_OBJECT_SHOW);
    assert_eq!(EVENT_OBJECT_HIDE, native::EVENT_OBJECT_HIDE);
    assert_eq!(EVENT_OBJECT_LOCATIONCHANGE, native::EVENT_OBJECT_LOCATIONCHANGE);
    assert_eq!(EVENT_OBJECT_NAMECHANGE, native::EVENT_OBJECT_NAMECHANGE);
    assert_eq!(EVENT_OBJECT_CLOAKED, native::EVENT_OBJECT_CLOAKED);
    assert_eq!(EVENT_OBJECT_UNCLOAKED, native::EVENT_OBJECT_UNCLOAKED);
    assert_eq!(EVENT_SYSTEM_FOREGROUND, native::EVENT_SYSTEM_FOREGROUND);
    assert_eq!(EVENT_SYSTEM_MINIMIZESTART, native::EVENT_SYSTEM_MINIMIZESTART);
    assert_eq!(EVENT_SYSTEM_MINIMIZEEND, native::EVENT_SYSTEM_MINIMIZEEND);
    assert_eq!(EVENT_SYSTEM_MOVESIZESTART, native::EVENT_SYSTEM_MOVESIZESTART);
    assert_eq!(EVENT_SYSTEM_MOVESIZEEND, native::EVENT_SYSTEM_MOVESIZEEND);
    assert_eq!(OBJID_WINDOW, native::OBJID_WINDOW.0);
}

#[test]
fn dropping_unstarted_loop_releases_queued_closures_and_window() {
    let mut event_loop: EventLoop<Closure, WndProc> = EventLoop::new(9).unwrap();
    let capture = Arc::new(());
    let weak = Arc::downgrade(&capture);
    event_loop.queue.send_dispatch_async(Box::new(move || drop(capture))).unwrap();
    assert!(weak.upgrade().is_some());
    // The message window is handed out to be destroyed.
    assert_eq!(event_loop.shut_down(), 9);
    assert!(weak.upgrade().is_none());
    assert!(event_loop.stopped);
    assert!(event_loop.queue.send_dispatch_async(Box::new(|| {})).is_err());
    let unsent: SyncSlot<Closure> = SyncSlot::new(Box::new(|| {}));
    assert!(unsent.sent().is_err());
}

#[test]
fn closures_run_once_and_withdrawn_ones_never() {
    let mut event_loop: EventLoop<u8, WndProc> = EventLoop::new(9).unwrap();
    let first = event_loop.queue.send_dispatch_async(1).unwrap();
    let second = event_loop.queue.send_dispatch_async(2).unwrap();
    assert_ne!(first, second);
    assert_eq!(event_loop.queue.post_failed(second), EventLoopError::WindowMessage);
    assert_eq!(event_loop.queue.take(second), None);
    assert_eq!(event_loop.queue.take(first), Some(1));
    assert_eq!(event_loop.queue.take(first), None);
    event_loop.queue.close();
    assert_eq!(event_loop.queue.take(first), None);
    assert_eq!(event_loop.queue.send_dispatch_async(3), Err(EventLoopError::EventLoopStopped));
    let mut slot = SyncSlot::new(4);
    assert_eq!(slot.sent(), Err(EventLoopError::EventLoopStopped));
    assert_eq!(slot.take(), Some(4));
    assert_eq!(slot.take(), None);
    assert_eq!(slot.sent(), Ok(()));
    assert!(EventLoop::<u8, WndProc>::new(0).is_none());
}

#[test]
fn dispatch_messages_never_reach_the_callbacks() {
    assert_eq!(route_message(50, 50, 3, 1), Route::Sync);
    assert_eq!(route_message(50, 50, 3, 0), Route::Async(3));
    assert_eq!(route_message(51, 50, 3, 1), Route::Callbacks);
    assert_eq!(loop_step(-1), LoopStep::Fail(EventLoopError::GetMessage));
    assert_eq!(loop_step(0), LoopStep::Quit);
    assert_eq!(loop_step(1), LoopStep::Dispatch);
    assert_eq!(loop_step(-2), LoopStep::Dispatch);
}

#[test]
fn callbacks_preprocess_messages_until_one_handles_it() {
    let mut callbacks: WndProcCallbacks<WndProc> = WndProcCallbacks::new();
    let message = WindowMessage { window: 1, msg: 20, wparam: 30, lparam: 40 };
    assert_eq!(callbacks.preprocess(message), None);
    callbacks.register(1, Box::new(|_| None));
    callbacks.register(2, Box::new(|message| (message.msg == 20).then_some(message.lparam)));
    assert_eq!(callbacks.preprocess(message), Some(40));
    assert_eq!(callbacks.preprocess(WindowMessage { msg: 21, ..message }), None);
    callbacks.deregister(2);
    assert_eq!(callbacks.preprocess(message), None);
}
