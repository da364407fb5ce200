//! A Pomodoro timer: a typed state machine over work sessions, pauses and
//! breaks, and a reducer that applies commands and clock ticks to it.

pub mod timer;
pub mod dispatcher;
pub mod command;
pub mod view;
pub mod laws;
