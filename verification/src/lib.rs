//! Decision core of a desktop supervisor for one external proxy worker.
//!
//! The crate holds the rules only: which servers are configured and which one
//! is selected, how a configuration becomes the worker's argument vector, how
//! the process census is read, in which order a start or a stop proceeds, and
//! what is written to the operating system's proxy settings. Spawning,
//! waiting, registry access and persistence are left to the caller, who
//! performs each requested action and reports back what happened.

pub mod autostart;
pub mod census;
pub mod cleanup;
pub mod config;
pub mod fleet;
pub mod output;
pub mod reconcile;
pub mod start;
pub mod stop;
pub mod supervisor;
pub mod sysproxy;
pub mod text;
pub mod worker;
