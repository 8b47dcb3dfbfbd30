//! Robot kinds known to the supervisor.

pub mod pipuck;
pub mod ssh;
