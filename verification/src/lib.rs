//! Decision logic of a supervisor for an OpenOCD debug daemon.
//!
//! The supervisor keeps one OpenOCD child process alive. It reads what the
//! child prints, line by line, recognises a handful of diagnostic messages
//! and reacts to each: it terminates a stale instance that holds a port,
//! restarts the child when it refuses further connections, and gives up when
//! the probe or the configuration is missing.
//!
//! Everything in this crate is a function from plain values to plain values.
//! Spawning, reading pipes, printing and killing are left to the program
//! that drives it: that program performs the [`supervisor::Action`] it is
//! handed and reports the outcome back as a [`supervisor::Event`].

pub mod kill;
pub mod launch;
pub mod line_handling;
pub mod notice;
pub mod pattern;
pub mod state;
pub mod supervisor;
