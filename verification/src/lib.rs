//! The decision core of a tiling window manager.
//!
//! Everything that decides, orders or computes lives here and is verified;
//! native calls, sockets, threads and timers are performed by the program
//! around the library, which carries out the actions it is handed and reports
//! back what happened.
pub mod geometry;
pub mod animation;
pub mod model;
pub mod text;
pub mod ids;
pub mod selection;
pub mod state;
pub mod models;
pub mod commands;
pub mod ipc_server;
pub mod sys_tray;
pub mod startup;
pub mod platform;
pub mod sync;
