//! Core of a game-management launcher: an ordered queue of installable
//! tasks, a single-slot active task, and the driver logic that sequences
//! resolution, polling and lifecycle events.
//!
//! The long-running operations themselves (downloading, diffing, prefix
//! creation) are external capabilities: the driver is given their answers
//! as plain values and decides, with verified logic, how the queue state
//! advances and which events the presentation layer receives.

pub mod active;
pub mod adapter;
pub mod card;
pub mod driver;
pub mod progress;
pub mod queue;
pub mod status;
pub mod task;
