//! An interactive terminal counter: a single numeric display that advances
//! once per second, in one of three modes — a free-running stopwatch, a
//! countdown timer, and a pomodoro cycle alternating work and break phases.
//!
//! This crate holds the verified core: the per-mode time-tracking state
//! machines and the decision logic of the render/input event loop. Terminal
//! handling, argument parsing, formatting and the audible alert live outside,
//! and hand the core plain values.

pub mod command;
pub mod ui;
pub mod stopwatch;
pub mod timer;
pub mod pomodoro;
