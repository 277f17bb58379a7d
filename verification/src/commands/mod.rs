//! The commands that change the window manager's state.
pub mod ignore_window;
pub mod minimize_ended;
pub mod toggle_desktop;
pub mod toggle_pause;
pub mod window_eligibility;
