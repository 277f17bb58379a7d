//! Running closures on the event loop's thread.
use std::collections::HashMap;
use vstd::prelude::*;

verus! {

/// Why a closure could not be dispatched.
#[derive(Clone, Copy, Debug, PartialEq, Eq, Structural)]
pub enum EventLoopError {
    /// The loop is gone.
    EventLoopStopped,
    /// The native message could not be posted.
    WindowMessage,
    /// Reading the next message failed.
    GetMessage,
}

/// The closures that wait for the event loop, by message id.
///
/// Once the queue is closed nothing is accepted anymore.
pub struct DispatchQueue<T> {
    pub next_id: usize,
    pub pending: Option<HashMap<usize, T>>,
}

impl<T> DispatchQueue<T> {
    /// The queue accepts closures.
    pub open spec fn is_open(self) -> bool {
        self.pending is Some
    }

    /// The closures that wait.
    pub open spec fn waiting(self) -> Map<usize, T> {
        match self.pending {
            Some(pending) => pending@,
            None => Map::empty(),
        }
    }

    pub fn new() -> (queue: DispatchQueue<T>)
        ensures
            queue.is_open(),
            queue.next_id == 0,
            queue.waiting() == Map::<usize, T>::empty(),
    {
        DispatchQueue { next_id: 0, pending: Some(HashMap::new()) }
    }

    /// Draws the next id. Ids are unique until they wrap around.
    pub fn fresh_id(&mut self) -> (id: usize)
        ensures
            id == old(self).next_id,
            *final(self) == (DispatchQueue {
                next_id: old(self).next_id.wrapping_add(1),
                ..*old(self)
            }),
    {
        let id: usize = self.next_id;
        self.next_id = self.next_id.wrapping_add(1);
        id
    }

    /// Queues a closure. The returned id is to be posted to the loop; if that
    /// fails the closure is withdrawn.
    pub fn send_dispatch_async(&mut self, dispatch_fn: T) -> (result: Result<
        usize,
        EventLoopError,
    >)
        ensures
            final(self).next_id == old(self).next_id.wrapping_add(1),
            final(self).is_open() == old(self).is_open(),
            result is Err <==> !old(self).is_open(),
            result matches Err(error) ==> error == EventLoopError::EventLoopStopped,
            result matches Ok(id) ==> id == old(self).next_id && final(self).waiting()
                == old(self).waiting().insert(id, dispatch_fn),
    {
        broadcast use vstd::std_specs::hash::group_hash_axioms;

        let id: usize = self.fresh_id();
        match &mut self.pending {
            Some(pending) => {
                pending.insert(id, dispatch_fn);
                Ok(id)
            },
            None => Err(EventLoopError::EventLoopStopped),
        }
    }

    /// Withdraws the closure whose message could not be posted.
    pub fn post_failed(&mut self, id: usize) -> (error: EventLoopError)
        ensures
            error == EventLoopError::WindowMessage,
            final(self).next_id == old(self).next_id,
            final(self).is_open() == old(self).is_open(),
            final(self).waiting() == old(self).waiting().remove(id),
    {
        let _ = self.take(id);
        EventLoopError::WindowMessage
    }

    /// Takes the closure that a message stands for, to be run. It runs at most
    /// once: from then on the id stands for nothing.
    pub fn take(&mut self, id: usize) -> (dispatch_fn: Option<T>)
        ensures
            dispatch_fn == if old(self).waiting().contains_key(id) {
                Some(old(self).waiting()[id])
            } else {
                None
            },
            final(self).next_id == old(self).next_id,
            final(self).is_open() == old(self).is_open(),
            final(self).waiting() == old(self).waiting().remove(id),
            !final(self).waiting().contains_key(id),
    {
        broadcast use vstd::std_specs::hash::group_hash_axioms;

        match &mut self.pending {
            Some(pending) => pending.remove(&id),
            None => {
                assert(self.waiting() =~= self.waiting().remove(id));
                None
            },
        }
    }

    /// Closes the queue and releases the closures that wait.
    pub fn close(&mut self)
        ensures
            !final(self).is_open(),
            final(self).waiting() == Map::<usize, T>::empty(),
            final(self).next_id == old(self).next_id,
    {
        self.pending = None;
    }
}

/// A closure that is sent to the loop while its sender waits.
pub struct SyncSlot<T> {
    pub dispatch_fn: Option<T>,
}

impl<T> SyncSlot<T> {
    pub fn new(dispatch_fn: T) -> (slot: SyncSlot<T>)
        ensures
            slot.dispatch_fn == Some(dispatch_fn),
    {
        SyncSlot { dispatch_fn: Some(dispatch_fn) }
    }

    /// Takes the closure, on the loop's thread, to be run.
    pub fn take(&mut self) -> (dispatch_fn: Option<T>)
        ensures
            dispatch_fn == old(self).dispatch_fn,
            final(self).dispatch_fn is None,
    {
        self.dispatch_fn.take()
    }

    /// What the sender learns once it no longer waits: a closure that is still
    /// there was not run, since the loop is gone.
    pub fn sent(&self) -> (result: Result<(), EventLoopError>)
        ensures
            result is Err <==> self.dispatch_fn is Some,
            result matches Err(error) ==> error == EventLoopError::EventLoopStopped,
    {
        if self.dispatch_fn.is_some() {
            Err(EventLoopError::EventLoopStopped)
        } else {
            Ok(())
        }
    }
}

/// Where a message of the loop's window goes.
#[derive(Clone, Copy, Debug, PartialEq, Eq, Structural)]
pub enum Route {
    /// Run the closure in the sender's slot.
    Sync,
    /// Run the closure that waits under the id.
    Async(usize),
    /// Offer the message to the registered callbacks.
    Callbacks,
}

/// Decides where a message goes. Dispatch messages come first and never reach
/// the callbacks.
pub fn route_message(msg: u32, dispatch_msg: u32, wparam: usize, lparam: isize) -> (route: Route)
    ensures
        route == if msg != dispatch_msg {
            Route::Callbacks
        } else if lparam == 1 {
            Route::Sync
        } else {
            Route::Async(wparam)
        },
        route is Callbacks <==> msg != dispatch_msg,
        route is Sync ==> lparam == 1,
        route matches Route::Async(id) ==> id == wparam && lparam != 1,
{
    if msg == dispatch_msg {
        if lparam == 1 {
            Route::Sync
        } else {
            Route::Async(wparam)
        }
    } else {
        Route::Callbacks
    }
}

/// The callbacks that pre-process messages, by id.
pub struct WndProcCallbacks<C> {
    pub callbacks: HashMap<usize, C>,
}

impl<C> View for WndProcCallbacks<C> {
    type V = Map<usize, C>;

    open spec fn view(&self) -> Map<usize, C> {
        self.callbacks@
    }
}

/// The arguments of a message.
#[derive(Clone, Copy, Debug, PartialEq, Eq, Structural)]
pub struct WindowMessage {
    pub window: isize,
    pub msg: u32,
    pub wparam: usize,
    pub lparam: isize,
}

impl<C> WndProcCallbacks<C> {
    pub fn new() -> (callbacks: WndProcCallbacks<C>)
        ensures
            callbacks@ == Map::<usize, C>::empty(),
    {
        WndProcCallbacks { callbacks: HashMap::new() }
    }

    pub fn register(&mut self, id: usize, callback: C)
        ensures
            final(self)@ == old(self)@.insert(id, callback),
    {
        broadcast use vstd::std_specs::hash::group_hash_axioms;

        self.callbacks.insert(id, callback);
    }

    pub fn deregister(&mut self, id: usize)
        ensures
            final(self)@ == old(self)@.remove(id),
    {
        broadcast use vstd::std_specs::hash::group_hash_axioms;

        self.callbacks.remove(&id);
    }

    pub fn clear(&mut self)
        ensures
            final(self)@ == Map::<usize, C>::empty(),
    {
        self.callbacks.clear();
    }

    /// Offers a message to the callbacks, in no particular order, until one
    /// handles it. If none does, the default procedure gets the message.
    pub fn preprocess(&self, message: WindowMessage) -> (handled: Option<isize>) where
        C: Fn(WindowMessage) -> Option<isize>,

        requires
            forall|id: usize| #[trigger]
                self@.contains_key(id) ==> call_requires(self@[id], (message,)),
        ensures
            match handled {
                Some(result) => exists|id: usize| #[trigger]
                    self@.contains_key(id) && call_ensures(
                        self@[id],
                        (message,),
                        Some(result),
                    ),
                None => forall|id: usize| #[trigger]
                    self@.contains_key(id) ==> call_ensures(self@[id], (message,), None),
            },
    {
        broadcast use vstd::std_specs::hash::group_hash_axioms;

        let mut ids: Vec<usize> = Vec::new();
        let ghost keys = vstd::std_specs::iter::IteratorSpec::remaining(
            &vstd::std_specs::hash::spec_keys_iter(&self.callbacks),
        );
        for id in iter: self.callbacks.keys()
            invariant
                iter.seq() == keys,
                ids@ =~= keys.unref().take(iter.index()),
        {
            ids.push(*id);
        }
        assert(ids@ =~= keys.unref());
        assert(ids@.to_set() == self@.dom());
        let mut i: usize = 0;
        while i < ids.len()
            invariant
                i <= ids.len(),
                ids@.to_set() == self@.dom(),
                forall|id: usize| #[trigger]
                    self@.contains_key(id) ==> call_requires(self@[id], (message,)),
                forall|k: int|
                    0 <= k < i ==> call_ensures(self@[#[trigger] ids@[k]], (message,), None),
            decreases ids.len() - i,
        {
            let id: usize = ids[i];
            assert(ids@.to_set().contains(ids@[i as int]));
            if let Some(callback) = self.callbacks.get(&id) {
                let result = callback(message);
                if result.is_some() {
                    return result;
                }
            }
            i += 1;
        }
        assert forall|id: usize| #[trigger] self@.contains_key(id) implies call_ensures(
            self@[id],
            (message,),
            None,
        ) by {
            assert(ids@.to_set().contains(id));
            let k = choose|k: int| 0 <= k < ids@.len() && ids@[k] == id;
            assert(ids@[k] == id);
        }
        None
    }
}

/// What the loop does with the outcome of reading the next message.
#[derive(Clone, Copy, Debug, PartialEq, Eq, Structural)]
pub enum LoopStep {
    /// Hand the message on and read the next one.
    Dispatch,
    /// The quit message arrived.
    Quit,
    Fail(EventLoopError),
}

/// Decides over the outcome of reading the next message.
pub fn loop_step(result: i32) -> (step: LoopStep)
    ensures
        step == if result == -1 {
            LoopStep::Fail(EventLoopError::GetMessage)
        } else if result == 0 {
            LoopStep::Quit
        } else {
            LoopStep::Dispatch
        },
        step is Quit <==> result == 0,
        step is Fail <==> result == -1,
{
    if result == -1 {
        return LoopStep::Fail(EventLoopError::GetMessage);
    }
    if result != 0 {
        LoopStep::Dispatch
    } else {
        LoopStep::Quit
    }
}

/// An event loop with its hidden message window.
pub struct EventLoop<T, C> {
    pub window: isize,
    pub stopped: bool,
    pub queue: DispatchQueue<T>,
    pub callbacks: WndProcCallbacks<C>,
}

impl<T, C> EventLoop<T, C> {
    /// Creates the loop of a message window; a zero handle means that the window
    /// could not be created.
    pub fn new(window: isize) -> (event_loop: Option<EventLoop<T, C>>)
        ensures
            event_loop is Some <==> window != 0,
            event_loop matches Some(event_loop) ==> {
                &&& event_loop.window == window
                &&& !event_loop.stopped
                &&& event_loop.queue.is_open()
                &&& event_loop.queue.waiting() == Map::<usize, T>::empty()
                &&& event_loop.callbacks@ == Map::<usize, C>::empty()
            },
    {
        if window == 0 {
            return None;
        }
        Some(
            EventLoop {
                window,
                stopped: false,
                queue: DispatchQueue::new(),
                callbacks: WndProcCallbacks::new(),
            },
        )
    }

    /// Shuts the loop down, whether or not it ever ran: closures that wait are
    /// released, callbacks are forgotten, and the window is to be destroyed.
    pub fn shut_down(&mut self) -> (window: isize)
        ensures
            window == old(self).window,
            final(self).window == old(self).window,
            final(self).stopped,
            !final(self).queue.is_open(),
            final(self).queue.waiting() == Map::<usize, T>::empty(),
            final(self).callbacks@ == Map::<usize, C>::empty(),
    {
        self.stopped = true;
        self.queue.close();
        self.callbacks.clear();
        self.window
    }
}

} // verus!
