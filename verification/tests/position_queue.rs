use glazewm::geometry::Rect;
use glazewm::model::WindowZOrder;
use glazewm::platform::window_flags::{
    SWP_ASYNCWINDOWPOS, SWP_FRAMECHANGED, SWP_NOACTIVATE, SWP_NOMOVE, SWP_NOSENDCHANGING,
    SWP_NOSIZE, SWP_NOZORDER,
};
use glazewm::platform::window_position_batch::{set_window_positions, WindowFrame};
use glazewm::platform::window_position_queue::{NoSuchWindow, Position, Queue, Visit};
use windows::Win32::UI::WindowsAndMessaging as native;

fn position(x: i32, flags: u32) -> Position {
    Position {
        thread: 1,
        process: 2,
        after: 0,
        x,
        y: 20,
        width: 400,
        height: 300,
        flags,
        sent: None,
        retry_once: false,
    }
}

fn contains(flags: u32, wanted: u32) -> bool {
    flags & wanted == wanted
}

#[test]
fn latest_target_replaces_busy_window_backlog() {
    let mut pending = position(0, SWP_NOZORDER);
    for x in 1..1000 {
        pending.replace_with(position(x, SWP_NOZORDER));
    }
    assert_eq!(pending.x, 999);
    assert!(pending.sent.is_none());
}

#[test]
fn z_order_update_preserves_pending_geometry() {
    let mut pending = position(123, SWP_NOZORDER);
    let mut next = position(0, SWP_NOMOVE | SWP_NOSIZE);
    next.after = -1;
    pending.replace_with(next);
    assert_eq!(pending.x, 123);
    assert_eq!(pending.after, -1);
    assert!(!contains(pending.flags, SWP_NOMOVE | SWP_NOSIZE));
}

#[test]
fn success_requires_observed_geometry() {
    let pending = position(10, SWP_NOZORDER);
    assert!(!pending.reached(&Rect { left: 0, top: 0, right: 0, bottom: 0 }));
    assert!(pending.reached(&Rect { left: 10, top: 20, right: 410, bottom: 320 }));
}

#[test]
fn dpi_retry_survives_coalescing() {
    let mut pending = position(10, SWP_NOZORDER);
    pending.retry_once = true;
    pending.replace_with(position(20, SWP_NOZORDER));
    assert!(pending.retry_once);
    assert_eq!(pending.x, 20);
}

#[test]
fn reused_handle_does_not_inherit_old_geometry() {
    let mut pending = position(123, SWP_NOZORDER);
    let mut next = position(0, SWP_NOMOVE | SWP_NOSIZE);
    next.process = 3;
    pending.replace_with(next);
    assert_eq!(pending.x, 0);
    assert!(contains(pending.flags, SWP_NOMOVE | SWP_NOSIZE));
}

#[test]
fn flags_have_their_native_values() {
    assert_eq!(SWP_NOSIZE, native::SWP_NOSIZE.0);
    assert_eq!(SWP_NOMOVE, native::SWP_NOMOVE.0);
    assert_eq!(SWP_NOZORDER, native::SWP_NOZORDER.0);
    assert_eq!(SWP_NOACTIVATE, native::SWP_NOACTIVATE.0);
    assert_eq!(SWP_FRAMECHANGED, native::SWP_FRAMECHANGED.0);
    assert_eq!(SWP_NOSENDCHANGING, native::SWP_NOSENDCHANGING.0);
    assert_eq!(SWP_ASYNCWINDOWPOS, native::SWP_ASYNCWINDOWPOS.0);
    assert_eq!(glazewm::platform::window_flags::WS_MAXIMIZEBOX, native::WS_MAXIMIZEBOX.0);
}

#[test]
fn merging_keeps_what_both_leave_alone() {
    let mut pending = position(1, SWP_NOMOVE | SWP_NOSIZE | SWP_FRAMECHANGED);
    pending.replace_with(position(5, SWP_NOMOVE | SWP_NOZORDER));
    assert_eq!(pending.x, 1);
    assert_eq!(pending.flags, SWP_NOMOVE | SWP_FRAMECHANGED);
}

#[test]
fn queued_positions_never_wait() {
    let mut queue = Queue::new();
    assert_eq!(queue.enqueue(7, position(1, SWP_NOZORDER)), Ok(()));
    let missing = Position { thread: 0, ..position(2, 0) };
    assert_eq!(queue.enqueue(8, missing), Err(NoSuchWindow));
    assert_eq!(queue.handles(), vec![7]);
    match queue.visit(7, true, 1, 2) {
        Visit::Apply(position) => {
            assert_eq!(position.flags, SWP_NOZORDER | SWP_ASYNCWINDOWPOS);
            assert_eq!(position.x, 1);
        }
        _ => panic!("expected a position"),
    }
}

#[test]
fn a_position_leaves_the_queue_once_it_took_effect() {
    let there = Rect { left: 10, top: 20, right: 410, bottom: 320 };
    let mut queue = Queue::new();
    queue.enqueue(7, position(10, 0)).unwrap();
    assert_eq!(queue.visit(7, false, 1, 2), Visit::Skip);
    assert_eq!(queue.visit(9, true, 1, 2), Visit::Skip);
    queue.applied(7, true, 1_000);
    assert_eq!(queue.visit(7, true, 1, 2), Visit::Measure);
    queue.measured(7, None, 1_000);
    assert_eq!(queue.handles(), vec![7]);
    queue.measured(7, Some(there), 1_001);
    assert!(queue.handles().is_empty());
}

#[test]
fn a_constrained_window_is_given_up_after_its_time() {
    let elsewhere = Rect { left: 0, top: 0, right: 1, bottom: 1 };
    let mut queue = Queue::new();
    queue.enqueue(7, position(10, 0)).unwrap();
    queue.retry_after_apply(7);
    queue.retry_after_apply(8);
    queue.applied(7, true, 0);
    queue.measured(7, Some(elsewhere), 249_999_999);
    assert_eq!(queue.visit(7, true, 1, 2), Visit::Measure);
    queue.measured(7, Some(elsewhere), 250_000_000);
    // Handed over once more.
    assert!(matches!(queue.visit(7, true, 1, 2), Visit::Apply(_)));
    queue.applied(7, true, 250_000_000);
    queue.measured(7, Some(elsewhere), 500_000_000);
    assert!(queue.handles().is_empty());
}

#[test]
fn positions_of_other_owners_and_failed_ones_are_dropped() {
    let mut queue = Queue::new();
    queue.enqueue(7, position(10, 0)).unwrap();
    assert_eq!(queue.visit(7, true, 1, 3), Visit::Skip);
    assert!(queue.handles().is_empty());
    queue.enqueue(7, position(10, 0)).unwrap();
    queue.applied(7, false, 0);
    assert!(queue.handles().is_empty());
    queue.enqueue(7, position(10, 0)).unwrap();
    queue.cancel(7);
    assert!(queue.handles().is_empty());
}

#[test]
fn windows_are_positioned_independently() {
    let first = Rect::from_xy(0, 0, 10, 10);
    let second = Rect::from_xy(10, 0, 10, 10);
    let requests = set_window_positions(&vec![
        WindowFrame { handle: 1, rect: first },
        WindowFrame { handle: 2, rect: second },
    ]);
    assert_eq!(requests.len(), 2);
    assert_eq!((requests[0].handle, requests[0].rect), (1, first));
    assert_eq!((requests[1].handle, requests[1].rect), (2, second));
    for request in requests {
        assert_eq!(request.z_order, WindowZOrder::Normal);
        assert_eq!(
            request.flags,
            SWP_NOACTIVATE | SWP_NOZORDER | SWP_NOSENDCHANGING | SWP_ASYNCWINDOWPOS
        );
    }
}
