//! Supervision logic for a long-running streaming pipeline: the stall
//! heuristic, the watcher's state machine, the reasons it announces when it
//! ends, and the channel operations it performs.

pub mod reason;
pub mod signal;
pub mod stall;
pub mod watcher;
