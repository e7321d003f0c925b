//! Verified core of a terminal event multiplexer and of the small terminal
//! applications built on it.
//!
//! The multiplexer merges raw device input, two periodic timers and a
//! cancellation signal into one ordered stream of [`event::Event`] values.
//! Everything that decides something lives here and carries a contract;
//! waiting, drawing and terminal control are left to the program around it.

pub mod counter;
pub mod editor;
pub mod error;
pub mod event;
pub mod json;
pub mod ordering;
pub mod pairs;
pub mod rate;
pub mod runtime;
pub mod task;
pub mod terminal;
pub mod text;
pub mod timer;
pub mod tui;
pub mod view;
