//! The parts of a plain judge description.

use vstd::prelude::*;

verus! {

/// The head of a judge description.
#[derive(Debug, Clone)]
pub struct JudgeToml {
    pub id: String,
}

/// Settings of the judge itself; there are none so far.
#[derive(Debug, Clone)]
pub struct JudgeConfig {}

/// Where the image that tests run in comes from.
#[derive(Debug, Clone)]
pub enum ImageConfig {
    Remote(String),
    Dockerfile(String),
}

/// The limits and commands of one job.
#[derive(Debug, Clone)]
pub struct JobConfig {
    pub time_limit: usize,
    pub mem_limit: usize,
    pub before_exec: Vec<Vec<String>>,
    pub exec_cmd: Vec<String>,
}

} // verus!
