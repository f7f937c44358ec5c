//! The decision logic of a judger client: what a machine that runs test jobs
//! for a coordinator registers with, fetches, sends and cleans up.
//!
//! Nothing here touches the network, the disk or the clock. Each longer task is
//! a machine that names the next action to perform and is told how it went;
//! each short one is a function from plain values to plain values.

pub mod client;
pub mod config;
pub mod judge;
pub mod text;
