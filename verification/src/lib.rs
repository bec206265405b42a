//! Turns bytes received from a remote client into timed presses of a fixed
//! set of output lines.
//!
//! The crate holds the decisions only: which button a byte stands for, how a
//! key of the on-screen keyboard becomes cursor moves, what is queued, and
//! which line is driven when. Sockets, timers and pins belong to the caller,
//! which performs the actions that the state machines here hand out.
//!
//! - [`controller`]: the buttons and the bytes that name them.
//! - [`virtual_keyboard_matrix`]: the keys of the on-screen keyboard and
//!   their places in the grid.
//! - [`config`]: selector bytes, timings and network role.
//! - [`session`]: decoding one read into button events.
//! - [`queue`]: the bounded queue between decoder and actuator.
//! - [`actuator`]: one pulse at a time on the output lines.
//! - [`listener`]: one connection at a time, from accept to close.

pub mod actuator;
pub mod config;
pub mod controller;
pub mod listener;
pub mod queue;
pub mod session;
pub mod virtual_keyboard_matrix;
