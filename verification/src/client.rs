//! The judger's side of the conversation with its coordinator.

pub mod cancel;
pub mod connect;
pub mod error;
pub mod forward;
pub mod handles;
pub mod job;
pub mod job_laws;
pub mod model;
pub mod plan;
pub mod register;
pub mod report;
pub mod serve;
pub mod status;
pub mod suite;
pub mod suite_laws;
