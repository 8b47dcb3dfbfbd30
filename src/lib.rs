//! Supervisor core for a heterogeneous robot swarm: discovery of robots on a
//! subnet, a multiplexed request/response transport to the robots' companion
//! agents, and the arena that owns the fleet and the experiment lifecycle.
//!
//! Everything that decides lives here and is verified; the asynchronous
//! plumbing that performs I/O drives these state machines from outside.

pub mod arena;
pub mod ids;
pub mod journal;
pub mod network;
pub mod robot;
pub mod robots;
pub mod text;
pub mod webui;
