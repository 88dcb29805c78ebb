//! A small creative-coding sketch library: the command bridge that carries work
//! to the thread owning the graphics context, the shared sketch state and its
//! window-event handling, and the state machine that drives a sketch.

pub mod bridge;
pub mod sketch;
pub mod command;
pub mod driver;
