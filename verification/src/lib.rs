//! Waiting for a child process without blocking it: the two output streams
//! of the child are drained side by side, each under its own policy, while
//! the exit status is waited for, and the three outcomes are joined into one
//! result. The crate decides and keeps the bytes; reading, echoing and
//! waiting are left to the driver that reports to it.
//!
//! Around that core stand the small decisions of the runtime that launches
//! such children: how a script is run, how headers and tables are turned into
//! one another, and how terrain material colours are read and set.

pub mod text;
pub mod policy;
pub mod error;
pub mod status;
pub mod tee;
pub mod drainer;
pub mod coordinator;
pub mod pipes;
pub mod simulation;
pub mod run;
pub mod user_agent;
pub mod headers;
pub mod tables;
pub mod terrain;
