//! Orchestration core of a fork-and-forward relay.
//!
//! A relay mirrors a live chain into a local, short-lived fork and replays
//! every `Swap` log that the live chain emits against that fork. This crate
//! holds the decisions of such a relay as plain, verified functions: which
//! endpoints to use, which filter to install, what to do next after each
//! reply of the outside world, and when to stop retrying a log. It performs
//! no I/O itself; a shell around it launches the fork, talks to the nodes and
//! reports back what happened.

pub mod config;
pub mod endpoint;
pub mod event;
pub mod filter;
pub mod report;
pub mod retry;
pub mod simulation;
pub mod trace;
