//! Bringing the native windows in line with the layout tree.
pub mod order;
pub mod window;
pub mod window_laws;
pub mod window_runs;
pub mod window_steps;
pub mod reposition;
pub mod iris;
pub mod live_resize;
pub mod workspace_switch;
pub mod focus;
pub mod effects;
pub mod platform_sync;
pub mod redraw;
