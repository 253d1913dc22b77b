//! What the job loop does with a job that arrived.
use vstd::prelude::*;
use crate::pubsub::{JobEvent, JobType};

verus! {

/// What the job loop does with a job.
#[derive(Debug, Clone, Copy, PartialEq, Eq, Structural)]
pub enum JobAction {
    /// Run a collection over all targets.
    RunCrawler,
    /// The job is of a kind the crawler does not handle.
    Unsupported,
}

/// Chooses the action for a job: the crawler job runs a collection, every
/// other job is one that the crawler does not handle.
pub fn job_action(job: &JobEvent) -> (r: JobAction)
    ensures
        r == (match job.job_type {
            JobType::Crawler => JobAction::RunCrawler,
            JobType::Other(_) => JobAction::Unsupported,
        }),
{
    match &job.job_type {
        JobType::Crawler => JobAction::RunCrawler,
        JobType::Other(_) => JobAction::Unsupported,
    }
}

} // verus!
