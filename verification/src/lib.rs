//! Decision logic of a trigger-key autoclicker: which key events hold the
//! trigger, when the clicker clicks and how long it waits, how the start and
//! stop commands change the shared state, and how each desktop platform turns
//! raw window-system answers into window titles, focus and cursor verdicts.
//! The window-system calls, the input hooks, the mouse and the timers live in
//! the application that drives this library.

pub mod text;
pub mod keys;
pub mod geometry;
pub mod clicker;
pub mod platform;
