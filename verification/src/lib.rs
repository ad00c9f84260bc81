//! Controller logic for a small task-display appliance: a debounced button
//! poller feeds an event loop that owns an ordered task list with a cursor,
//! renders the current task on a fixed-width display, and talks to a remote
//! task store.

pub mod api;
pub mod config;
pub mod controller;
pub mod debounce;
pub mod display;
pub mod error;
pub mod gpio;
pub mod hardware;
pub mod tasks;
