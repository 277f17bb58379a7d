//! The queue of positions for foreign windows.
//!
//! Foreign windows must never make the manager wait for their message pump. A
//! worker hands the queued positions to windows that respond, and watches until
//! they have taken effect.
use std::collections::HashMap;
use vstd::prelude::*;

use crate::geometry::Rect;
use crate::platform::window_flags::{
    SWP_ASYNCWINDOWPOS, SWP_FRAMECHANGED, SWP_NOMOVE, SWP_NOSIZE, SWP_NOZORDER,
};

verus! {

/// How long a window may take to reach its position, in nanoseconds. A window
/// that responds but does not get there constrains its own size.
pub const SETTLE_TIME: u64 = 250_000_000;

/// The flags that say what a position leaves as it is.
pub const KEEP_FLAGS: u32 = SWP_NOMOVE | SWP_NOSIZE | SWP_NOZORDER;

/// Whether the flag is set.
pub open spec fn has_flag(flags: u32, flag: u32) -> bool {
    flags & flag == flag
}

/// A position to hand to a window.
#[derive(Clone, Copy, Debug, PartialEq, Eq, Structural)]
pub struct Position {
    /// The thread that owns the window.
    pub thread: u32,
    /// The process that owns the window.
    pub process: u32,
    /// The window that this one is placed behind.
    pub after: isize,
    pub x: i32,
    pub y: i32,
    pub width: i32,
    pub height: i32,
    pub flags: u32,
    /// When the position was handed to the window, in nanoseconds.
    pub sent: Option<u64>,
    /// The position is handed over once more after it has taken effect.
    pub retry_once: bool,
}

impl Position {
    pub open spec fn same_owner(self, other: Position) -> bool {
        self.thread == other.thread && self.process == other.process
    }

    /// The flags of a position that takes the place of another one: it leaves
    /// alone what both leave alone, and recomputes the frame if either does.
    pub open spec fn merged_flags(old_flags: u32, next_flags: u32) -> u32 {
        (next_flags & !KEEP_FLAGS) | (next_flags & old_flags & KEEP_FLAGS) | (old_flags
            & SWP_FRAMECHANGED)
    }

    /// The position that is pending after `next` was queued on top of this one.
    /// What `next` leaves alone is taken over, unless the handle now belongs to
    /// another window.
    pub open spec fn merged(self, next: Position) -> Position {
        if !self.same_owner(next) {
            next
        } else {
            let moves = !has_flag(next.flags, SWP_NOMOVE);
            let sizes = !has_flag(next.flags, SWP_NOSIZE);
            let stacks = !has_flag(next.flags, SWP_NOZORDER);
            Position {
                x: if moves { next.x } else { self.x },
                y: if moves { next.y } else { self.y },
                width: if sizes { next.width } else { self.width },
                height: if sizes { next.height } else { self.height },
                after: if stacks { next.after } else { self.after },
                flags: Self::merged_flags(self.flags, next.flags),
                retry_once: next.retry_once || self.retry_once,
                ..next
            }
        }
    }

    /// A z-order-only update must not discard a pending resize (or vice versa).
    pub fn replace_with(&mut self, next: Position)
        ensures
            *final(self) == old(self).merged(next),
    {
        let mut next = next;
        if self.thread == next.thread && self.process == next.process {
            let ghost before: u32 = self.flags;
            let ghost after: u32 = next.flags;
            if next.flags & SWP_NOMOVE == SWP_NOMOVE {
                next.x = self.x;
                next.y = self.y;
                next.flags = next.flags & (!SWP_NOMOVE | (self.flags & SWP_NOMOVE));
            }
            if next.flags & SWP_NOSIZE == SWP_NOSIZE {
                next.width = self.width;
                next.height = self.height;
                next.flags = next.flags & (!SWP_NOSIZE | (self.flags & SWP_NOSIZE));
            }
            if next.flags & SWP_NOZORDER == SWP_NOZORDER {
                next.after = self.after;
                next.flags = next.flags & (!SWP_NOZORDER | (self.flags & SWP_NOZORDER));
            }
            next.flags = next.flags | (self.flags & SWP_FRAMECHANGED);
            next.retry_once = next.retry_once || self.retry_once;
            proof {
                lemma_merge(before, after);
            }
        }
        *self = next;
    }

    /// The rectangle is where the position wants the window.
    pub open spec fn reached_at(self, rect: Rect) -> bool {
        &&& has_flag(self.flags, SWP_NOMOVE) || rect.left == self.x && rect.top == self.y
        &&& has_flag(self.flags, SWP_NOSIZE) || rect.spec_width() == self.width && rect.spec_height()
            == self.height
    }

    pub fn reached(&self, rect: &Rect) -> (reached: bool)
        ensures
            reached == self.reached_at(*rect),
    {
        let width: i64 = rect.right as i64 - rect.left as i64;
        let height: i64 = rect.bottom as i64 - rect.top as i64;
        (self.flags & SWP_NOMOVE == SWP_NOMOVE || (rect.left == self.x && rect.top == self.y)) && (
        self.flags & SWP_NOSIZE == SWP_NOSIZE || (width == self.width as i64 && height
            == self.height as i64))
    }

    /// The position after its effect has been looked at. One that took effect,
    /// or did not in time, is done with, or handed over once more.
    pub open spec fn observed(self, sent: u64, frame: Option<Rect>, now: u64) -> Option<Position> {
        let reached = frame matches Some(frame) && self.reached_at(frame);
        if !reached && crate::animation::elapsed_at(sent, now) < SETTLE_TIME {
            Some(self)
        } else if self.retry_once {
            Some(Position { retry_once: false, sent: None, ..self })
        } else {
            None
        }
    }
}

/// Taking over the kept parts one after the other gives the merged flags.
proof fn lemma_merge(before: u32, after: u32)
    ensures
        ({
            let first = if has_flag(after, SWP_NOMOVE) {
                after & (!SWP_NOMOVE | (before & SWP_NOMOVE))
            } else {
                after
            };
            let second = if has_flag(first, SWP_NOSIZE) {
                first & (!SWP_NOSIZE | (before & SWP_NOSIZE))
            } else {
                first
            };
            let third = if has_flag(second, SWP_NOZORDER) {
                second & (!SWP_NOZORDER | (before & SWP_NOZORDER))
            } else {
                second
            };
            &&& has_flag(first, SWP_NOSIZE) == has_flag(after, SWP_NOSIZE)
            &&& has_flag(second, SWP_NOZORDER) == has_flag(after, SWP_NOZORDER)
            &&& third | (before & SWP_FRAMECHANGED) == Position::merged_flags(before, after)
        }),
{
    let first = if has_flag(after, SWP_NOMOVE) {
        after & (!SWP_NOMOVE | (before & SWP_NOMOVE))
    } else {
        after
    };
    let second = if has_flag(first, SWP_NOSIZE) {
        first & (!SWP_NOSIZE | (before & SWP_NOSIZE))
    } else {
        first
    };
    let third = if has_flag(second, SWP_NOZORDER) {
        second & (!SWP_NOZORDER | (before & SWP_NOZORDER))
    } else {
        second
    };
    assert(first == after & (!SWP_NOMOVE | (before & SWP_NOMOVE))) by {
        assert(after & SWP_NOMOVE != SWP_NOMOVE ==> after == after & (!SWP_NOMOVE | (before
            & SWP_NOMOVE))) by (bit_vector);
    }
    assert(second == first & (!SWP_NOSIZE | (before & SWP_NOSIZE))) by {
        assert(first & SWP_NOSIZE != SWP_NOSIZE ==> first == first & (!SWP_NOSIZE | (before
            & SWP_NOSIZE))) by (bit_vector);
    }
    assert(third == second & (!SWP_NOZORDER | (before & SWP_NOZORDER))) by {
        assert(second & SWP_NOZORDER != SWP_NOZORDER ==> second == second & (!SWP_NOZORDER | (
        before & SWP_NOZORDER))) by (bit_vector);
    }
    assert(first & SWP_NOSIZE == after & SWP_NOSIZE && second & SWP_NOZORDER == after
        & SWP_NOZORDER && third | (before & SWP_FRAMECHANGED) == (after & !KEEP_FLAGS) | (after
        & before & KEEP_FLAGS) | (before & SWP_FRAMECHANGED)) by (bit_vector)
        requires
            first == after & (!SWP_NOMOVE | (before & SWP_NOMOVE)),
            second == first & (!SWP_NOSIZE | (before & SWP_NOSIZE)),
            third == second & (!SWP_NOZORDER | (before & SWP_NOZORDER)),
    ;
}

/// The window is not there.
#[derive(Clone, Copy, Debug, PartialEq, Eq, Structural)]
pub struct NoSuchWindow;

/// What the worker does with a window next.
#[derive(Clone, Copy, Debug, PartialEq, Eq, Structural)]
pub enum Visit {
    /// Nothing is pending, or not anymore.
    Skip,
    /// The position was handed over: read the window's frame.
    Measure,
    /// Hand the position to the window.
    Apply(Position),
}

/// The pending positions, by window.
pub struct Queue {
    pub pending: HashMap<isize, Position>,
}

impl View for Queue {
    type V = Map<isize, Position>;

    open spec fn view(&self) -> Map<isize, Position> {
        self.pending@
    }
}

impl Queue {
    /// No pending position makes anyone wait.
    pub open spec fn well_formed(self) -> bool {
        forall|handle: isize| #[trigger]
            self@.contains_key(handle) ==> has_flag(self@[handle].flags, SWP_ASYNCWINDOWPOS)
    }

    pub fn new() -> (queue: Queue)
        ensures
            queue@ == Map::<isize, Position>::empty(),
            queue.well_formed(),
    {
        Queue { pending: HashMap::new() }
    }

    /// The position as it is queued: never synchronous, and not handed over yet.
    pub open spec fn accepted(position: Position) -> Position {
        Position {
            flags: position.flags | SWP_ASYNCWINDOWPOS,
            sent: None,
            retry_once: false,
            ..position
        }
    }

    /// Queues a position. Success means accepted, not that the application
    /// applied the geometry. A window without an owning thread does not exist.
    pub fn enqueue(&mut self, handle: isize, position: Position) -> (result: Result<
        (),
        NoSuchWindow,
    >)
        requires
            old(self).well_formed(),
        ensures
            final(self).well_formed(),
            result is Err <==> position.thread == 0,
            result is Err ==> final(self)@ == old(self)@,
            result is Ok ==> final(self)@ == old(self)@.insert(
                handle,
                if old(self)@.contains_key(handle) {
                    old(self)@[handle].merged(Self::accepted(position))
                } else {
                    Self::accepted(position)
                },
            ),
    {
        broadcast use vstd::std_specs::hash::group_hash_axioms;

        if position.thread == 0 {
            return Err(NoSuchWindow);
        }
        let next = Position {
            flags: position.flags | SWP_ASYNCWINDOWPOS,
            sent: None,
            retry_once: false,
            ..position
        };
        let mut merged = next;
        if let Some(pending) = self.pending.get(&handle) {
            merged = *pending;
            merged.replace_with(next);
        }
        proof {
            let flags = position.flags;
            assert((flags | SWP_ASYNCWINDOWPOS) & SWP_ASYNCWINDOWPOS == SWP_ASYNCWINDOWPOS)
                by (bit_vector);
            if old(self)@.contains_key(handle) {
                let before = old(self)@[handle].flags;
                lemma_merge_keeps_asynchronous(before, next.flags);
            }
        }
        self.pending.insert(handle, merged);
        Ok(())
    }

    /// Invalidates queued geometry before a native maximize or minimize, or
    /// before a window is no longer managed.
    pub fn cancel(&mut self, handle: isize)
        requires
            old(self).well_formed(),
        ensures
            final(self).well_formed(),
            final(self)@ == old(self)@.remove(handle),
    {
        broadcast use vstd::std_specs::hash::group_hash_axioms;

        self.pending.remove(&handle);
    }

    /// Has the position handed over a second time. A change of resolution
    /// sometimes needs that, and two requests in a row would be merged.
    pub fn retry_after_apply(&mut self, handle: isize)
        requires
            old(self).well_formed(),
        ensures
            final(self).well_formed(),
            final(self)@ == if old(self)@.contains_key(handle) {
                old(self)@.insert(handle, Position { retry_once: true, ..old(self)@[handle] })
            } else {
                old(self)@
            },
    {
        broadcast use vstd::std_specs::hash::group_hash_axioms;

        let found = match self.pending.get(&handle) {
            Some(position) => Some(*position),
            None => None,
        };
        if let Some(position) = found {
            self.pending.insert(handle, Position { retry_once: true, ..position });
        }
    }

    /// The windows that have a position pending, each once, in no particular
    /// order.
    pub fn handles(&self) -> (handles: Vec<isize>)
        ensures
            handles@.no_duplicates(),
            handles@.to_set() == self@.dom(),
    {
        broadcast use vstd::std_specs::hash::group_hash_axioms;

        let mut handles: Vec<isize> = Vec::new();
        let ghost keys = vstd::std_specs::iter::IteratorSpec::remaining(
            &vstd::std_specs::hash::spec_keys_iter(&self.pending),
        );
        for handle in iter: self.pending.keys()
            invariant
                iter.seq() == keys,
                handles@ =~= keys.unref().take(iter.index()),
        {
            handles.push(*handle);
        }
        assert(handles@ =~= keys.unref());
        handles
    }

    /// Looks at a window whose position may be pending. `responsive` tells
    /// whether it answered a message, `thread` and `process` who owns it now.
    ///
    /// A position whose handle belongs to another window is dropped; a window
    /// that does not respond is left for later.
    pub fn visit(&mut self, handle: isize, responsive: bool, thread: u32, process: u32) -> (visit:
        Visit)
        requires
            old(self).well_formed(),
        ensures
            final(self).well_formed(),
            ({
                let known = old(self)@.contains_key(handle);
                let position = old(self)@[handle];
                let owned = position.thread == thread && position.process == process;
                &&& visit == if !known || !owned || !responsive {
                    Visit::Skip
                } else if position.sent is Some {
                    Visit::Measure
                } else {
                    Visit::Apply(position)
                }
                &&& final(self)@ == if known && !owned {
                    old(self)@.remove(handle)
                } else {
                    old(self)@
                }
            }),
            visit matches Visit::Apply(position) ==> old(self)@.contains_key(handle) && responsive
                && position == old(self)@[handle] && position.thread == thread && position.process
                == process && position.sent is None,
            visit is Measure ==> old(self)@.contains_key(handle) && responsive
                && old(self)@[handle].sent is Some,
    {
        broadcast use vstd::std_specs::hash::group_hash_axioms;

        let position = match self.pending.get(&handle) {
            Some(position) => *position,
            None => return Visit::Skip,
        };
        if thread != position.thread || process != position.process {
            self.pending.remove(&handle);
            return Visit::Skip;
        }
        if !responsive {
            return Visit::Skip;
        }
        if position.sent.is_some() {
            Visit::Measure
        } else {
            Visit::Apply(position)
        }
    }

    /// Takes the frame of a window whose position was handed over; it may not
    /// be readable.
    pub fn measured(&mut self, handle: isize, frame: Option<Rect>, now: u64)
        requires
            old(self).well_formed(),
            old(self)@.contains_key(handle),
            old(self)@[handle].sent is Some,
        ensures
            final(self).well_formed(),
            final(self)@ == match old(self)@[handle].observed(
                old(self)@[handle].sent->0,
                frame,
                now,
            ) {
                Some(position) => old(self)@.insert(handle, position),
                None => old(self)@.remove(handle),
            },
    {
        broadcast use vstd::std_specs::hash::group_hash_axioms;

        let found = match self.pending.get(&handle) {
            Some(position) => Some(*position),
            None => None,
        };
        if let Some(position) = found {
            if let Some(sent) = position.sent {
                let reached = match frame {
                    Some(frame) => position.reached(&frame),
                    None => false,
                };
                if reached || now.saturating_sub(sent) >= SETTLE_TIME {
                    if position.retry_once {
                        self.pending.insert(
                            handle,
                            Position { retry_once: false, sent: None, ..position },
                        );
                    } else {
                        self.pending.remove(&handle);
                    }
                } else {
                    assert(old(self)@ =~= old(self)@.insert(handle, position));
                }
            }
        }
    }

    /// Takes note that the position could be handed over or not. One that could
    /// not is dropped.
    pub fn applied(&mut self, handle: isize, succeeded: bool, now: u64)
        requires
            old(self).well_formed(),
            old(self)@.contains_key(handle),
        ensures
            final(self).well_formed(),
            final(self)@ == if succeeded {
                old(self)@.insert(handle, Position { sent: Some(now), ..old(self)@[handle] })
            } else {
                old(self)@.remove(handle)
            },
    {
        broadcast use vstd::std_specs::hash::group_hash_axioms;

        let found = match self.pending.get(&handle) {
            Some(position) => Some(*position),
            None => None,
        };
        if let Some(position) = found {
            if succeeded {
                self.pending.insert(handle, Position { sent: Some(now), ..position });
            } else {
                self.pending.remove(&handle);
            }
        }
    }
}

/// Merging never makes a position synchronous.
proof fn lemma_merge_keeps_asynchronous(before: u32, after: u32)
    requires
        has_flag(after, SWP_ASYNCWINDOWPOS),
    ensures
        has_flag(Position::merged_flags(before, after), SWP_ASYNCWINDOWPOS),
{
    assert(((after & !KEEP_FLAGS) | (after & before & KEEP_FLAGS) | (before & SWP_FRAMECHANGED))
        & SWP_ASYNCWINDOWPOS == SWP_ASYNCWINDOWPOS) by (bit_vector)
        requires
            after & SWP_ASYNCWINDOWPOS == SWP_ASYNCWINDOWPOS,
    ;
}

/// What the merged flags say: the window is left where it is, at its size or in
/// its place in the stacking order only if both positions leave it so, and its
/// frame is recomputed if either position asks for it.
pub proof fn law_merged_flags(before: u32, after: u32)
    ensures
        has_flag(Position::merged_flags(before, after), SWP_NOMOVE) <==> has_flag(before, SWP_NOMOVE) && has_flag(
            after,
            SWP_NOMOVE,
        ),
        has_flag(Position::merged_flags(before, after), SWP_NOSIZE) <==> has_flag(before, SWP_NOSIZE) && has_flag(
            after,
            SWP_NOSIZE,
        ),
        has_flag(Position::merged_flags(before, after), SWP_NOZORDER) <==> has_flag(before, SWP_NOZORDER)
            && has_flag(after, SWP_NOZORDER),
        has_flag(Position::merged_flags(before, after), SWP_FRAMECHANGED) <==> has_flag(
            before,
            SWP_FRAMECHANGED,
        ) || has_flag(after, SWP_FRAMECHANGED),
{
    let merged = Position::merged_flags(before, after);
    assert((merged & SWP_NOMOVE == SWP_NOMOVE <==> before & SWP_NOMOVE == SWP_NOMOVE && after
        & SWP_NOMOVE == SWP_NOMOVE) && (merged & SWP_NOSIZE == SWP_NOSIZE <==> before & SWP_NOSIZE
        == SWP_NOSIZE && after & SWP_NOSIZE == SWP_NOSIZE) && (merged & SWP_NOZORDER
        == SWP_NOZORDER <==> before & SWP_NOZORDER == SWP_NOZORDER && after & SWP_NOZORDER
        == SWP_NOZORDER) && (merged & SWP_FRAMECHANGED == SWP_FRAMECHANGED <==> before
        & SWP_FRAMECHANGED == SWP_FRAMECHANGED || after & SWP_FRAMECHANGED == SWP_FRAMECHANGED))
        by (bit_vector)
        requires
            merged == (after & !KEEP_FLAGS) | (after & before & KEEP_FLAGS) | (before
                & SWP_FRAMECHANGED),
    ;
}

/// The latest target wins over the backlog of a busy window, and a position
/// that is merged has to be handed over anew.
pub proof fn law_latest_target_wins(before: Position, next: Position)
    requires
        !has_flag(next.flags, SWP_NOMOVE),
        !has_flag(next.flags, SWP_NOSIZE),
    ensures
        before.merged(next).x == next.x,
        before.merged(next).y == next.y,
        before.merged(next).width == next.width,
        before.merged(next).height == next.height,
        before.merged(next).sent == next.sent,
{
}

/// A change of the stacking order keeps the geometry that is pending, and a
/// change of geometry keeps the pending place in the stacking order.
pub proof fn law_partial_updates_keep_the_rest(before: Position, next: Position)
    requires
        before.same_owner(next),
    ensures
        has_flag(next.flags, SWP_NOMOVE) ==> before.merged(next).x == before.x && before.merged(next).y
            == before.y,
        has_flag(next.flags, SWP_NOSIZE) ==> before.merged(next).width == before.width
            && before.merged(next).height == before.height,
        has_flag(next.flags, SWP_NOZORDER) ==> before.merged(next).after == before.after,
        before.retry_once ==> before.merged(next).retry_once,
{
}

/// A handle that was reused for another window inherits nothing.
pub proof fn law_reused_handles_inherit_nothing(before: Position, next: Position)
    requires
        !before.same_owner(next),
    ensures
        before.merged(next) == next,
{
}

/// No position is fought over forever: once its time is up it is handed over at
/// most once more, and then it is dropped.
pub proof fn law_positions_are_given_up(position: Position, sent: u64, now: u64, frame: Option<Rect>)
    requires
        crate::animation::elapsed_at(sent, now) >= SETTLE_TIME,
    ensures
        match position.observed(sent, frame, now) {
            None => !position.retry_once,
            Some(again) => position.retry_once && !again.retry_once && again.sent is None,
        },
{
}

/// A position that is merged with a pending one of the same window moves,
/// resizes and restacks it as the newer one asks, and otherwise as the older one
/// does. One for another window stands alone.
pub proof fn law_newer_requests_override_older_ones(before: Position, next: Position)
    ensures
        ({
            let merged = before.merged(next);
            let same = before.thread == next.thread && before.process == next.process;
            &&& !same ==> merged == next
            &&& merged.thread == next.thread
            &&& merged.process == next.process
            &&& merged.sent == next.sent
            &&& same ==> {
                let moved = if next.flags & 0x0002 == 0 {
                    next
                } else {
                    before
                };
                let sized = if next.flags & 0x0001 == 0 {
                    next
                } else {
                    before
                };
                let stacked = if next.flags & 0x0004 == 0 {
                    next
                } else {
                    before
                };
                &&& merged.x == moved.x
                &&& merged.y == moved.y
                &&& merged.width == sized.width
                &&& merged.height == sized.height
                &&& merged.after == stacked.after
                &&& !merged.retry_once <==> !before.retry_once && !next.retry_once
                &&& merged.flags & 0x0007 == before.flags & next.flags & 0x0007
                &&& merged.flags & 0x0020 == (before.flags | next.flags) & 0x0020
                &&& merged.flags & !0x0027 == next.flags & !0x0027
            }
        }),
{
    let a = before.flags;
    let b = next.flags;
    let m = Position::merged_flags(a, b);
    assert((b & 0x0002 == 0 <==> b & SWP_NOMOVE != SWP_NOMOVE) && (b & 0x0001 == 0 <==> b
        & SWP_NOSIZE != SWP_NOSIZE) && (b & 0x0004 == 0 <==> b & SWP_NOZORDER != SWP_NOZORDER)
        && m & 0x0007 == a & b & 0x0007 && m & 0x0020 == (a | b) & 0x0020 && m & !0x0027u32 == b
        & !0x0027u32) by (bit_vector)
        requires
            m == (b & !KEEP_FLAGS) | (b & a & KEEP_FLAGS) | (a & SWP_FRAMECHANGED),
    ;
}

/// A queued position asks for what was asked for, without waiting; it has not
/// been handed over yet and is handed over once.
pub proof fn law_queued_positions_are_posted(position: Position)
    ensures
        ({
            let queued = Queue::accepted(position);
            &&& queued.flags & 0x4000 == 0x4000
            &&& queued.flags & !0x4000 == position.flags & !0x4000
            &&& queued.sent is None
            &&& !queued.retry_once
            &&& queued.thread == position.thread
            &&& queued.process == position.process
            &&& queued.after == position.after
            &&& queued.x == position.x
            &&& queued.y == position.y
            &&& queued.width == position.width
            &&& queued.height == position.height
        }),
{
    let flags = position.flags;
    assert((flags | SWP_ASYNCWINDOWPOS) & 0x4000 == 0x4000 && (flags | SWP_ASYNCWINDOWPOS)
        & !0x4000u32 == flags & !0x4000u32) by (bit_vector);
}

/// A position that was handed over is waited for until the window is where it
/// asks for, in the respects that it asks for, or a quarter of a second is over.
/// Then it is handed over once more if that was asked for, unchanged, and
/// otherwise dropped.
pub proof fn law_positions_are_waited_for(
    position: Position,
    sent: u64,
    frame: Option<Rect>,
    now: u64,
)
    ensures
        ({
            let after = position.observed(sent, frame, now);
            let there = frame is Some && (position.flags & 0x0002 != 0 || (frame->0.left
                == position.x && frame->0.top == position.y)) && (position.flags & 0x0001 != 0 || (
            frame->0.right - frame->0.left == position.width && frame->0.bottom - frame->0.top
                == position.height));
            let over = there || now >= sent + 250_000_000;
            &&& !over ==> after == Some(position)
            &&& over && !position.retry_once ==> after is None
            &&& over && position.retry_once ==> after is Some && !after->0.retry_once
                && after->0.sent is None && after->0 == (Position {
                retry_once: after->0.retry_once,
                sent: after->0.sent,
                ..position
            })
        }),
{
    let flags = position.flags;
    assert((flags & 0x0002 != 0 <==> flags & SWP_NOMOVE == SWP_NOMOVE) && (flags & 0x0001 != 0
        <==> flags & SWP_NOSIZE == SWP_NOSIZE)) by (bit_vector);
}

} // verus!
