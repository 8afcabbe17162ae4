//! Lifecycle of a single OpenGL-rendered Wayland window.
//!
//! The library holds the decision logic of the application: how configure
//! events from the compositor drive lazy GPU-context creation and resizing,
//! how a close request ends the dispatch loop, and in which order resources
//! are released at shutdown. The surrounding program performs the actions
//! the library decides on (creating the context, resizing the drawable,
//! drawing a frame) against the real display server and GPU.

pub mod app;
pub mod laws;
pub mod model;
pub mod teardown;
