//! What the rules need to know of the native window system.
pub mod window_flags;
pub mod window_position_queue;
pub mod window_position_batch;
pub mod keyboard_hook;
pub mod window_listener;
pub mod event_loop;
