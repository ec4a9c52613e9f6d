//! The job, as callers see it.
use vstd::prelude::*;

verus! {

/// A handle to one remote instance, as the cloud account reports it.
#[derive(Debug, Clone, PartialEq, Eq)]
pub struct Job {
    pub id: String,
    pub ipv4: String,
    pub name: Option<String>,
}

/// What a `Job` holds, as plain text.
pub struct JobView {
    pub id: Seq<char>,
    pub ipv4: Seq<char>,
    pub name: Option<Seq<char>>,
}

impl View for Job {
    type V = JobView;

    open spec fn view(&self) -> JobView {
        JobView {
            id: self.id@,
            ipv4: self.ipv4@,
            name: match self.name {
                Some(n) => Some(n@),
                None => None,
            },
        }
    }
}

impl Job {
    /// Whether the two jobs are one remote instance: a job is known by its
    /// identifier alone.
    pub fn same_resource(&self, other: &Job) -> (same: bool)
        ensures
            same == (self.id@ == other.id@),
    {
        self.id == other.id
    }
}

/// The views of a list of jobs, in order.
pub open spec fn jobs_view(jobs: Seq<Job>) -> Seq<JobView> {
    jobs.map_values(|j: Job| j@)
}

} // verus!
