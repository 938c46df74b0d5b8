//! Scheduling rules of a small timer daemon: timer definitions and how they
//! are read, the dispatch bracket around a command, and the event loop's
//! decisions, each as a function from plain values to plain values.

pub mod span;
pub mod definition;
pub mod dispatch;
pub mod loader;
pub mod scheduler;
pub mod unit;
