//! The layout tree and the windows in it.
pub mod container;
pub mod tree;
pub mod window;
pub mod non_tiling_window;
