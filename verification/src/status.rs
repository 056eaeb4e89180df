//! The five job statuses and their stored names.

use vstd::prelude::*;
use crate::text::same_text;

verus! {

/// Lifecycle state of a job.
#[derive(Clone, Copy, Debug, PartialEq, Eq, Structural)]
pub enum JobStatus {
    /// Rest state: no work requested, or the job was dismissed.
    Idle,
    /// Accepted, not yet claimed by a worker.
    Pending,
    /// A worker owns the job.
    Processing,
    /// Finished with a result.
    Completed,
    /// Finished with an error.
    Failed,
}

impl JobStatus {
    /// `Completed` and `Failed`: left only by an explicit request.
    pub open spec fn is_terminal(self) -> bool {
        self is Completed || self is Failed
    }

    /// `Pending` and `Processing`: work is in flight.
    pub open spec fn is_active(self) -> bool {
        self is Pending || self is Processing
    }

    /// The statuses an operator is shown: `Pending`, `Processing`, `Failed`.
    pub open spec fn needs_attention(self) -> bool {
        self is Pending || self is Processing || self is Failed
    }

    /// The name under which a status is stored.
    pub open spec fn name_spec(self) -> Seq<char> {
        match self {
            JobStatus::Idle => "idle"@,
            JobStatus::Pending => "queued"@,
            JobStatus::Processing => "processing"@,
            JobStatus::Completed => "completed"@,
            JobStatus::Failed => "failed"@,
        }
    }

    pub fn terminal(self) -> (r: bool)
        ensures
            r == self.is_terminal(),
    {
        match self {
            JobStatus::Completed | JobStatus::Failed => true,
            _ => false,
        }
    }

    pub fn name(self) -> (s: &'static str)
        ensures
            s@ == self.name_spec(),
    {
        match self {
            JobStatus::Idle => "idle",
            JobStatus::Pending => "queued",
            JobStatus::Processing => "processing",
            JobStatus::Completed => "completed",
            JobStatus::Failed => "failed",
        }
    }

    pub fn parse(s: &str) -> (r: Option<JobStatus>)
        ensures
            match r {
                Some(st) => st.name_spec() == s@,
                None => forall|st: JobStatus| st.name_spec() != s@,
            },
    {
        if same_text(s, "idle") {
            Some(JobStatus::Idle)
        } else if same_text(s, "queued") {
            Some(JobStatus::Pending)
        } else if same_text(s, "processing") {
            Some(JobStatus::Processing)
        } else if same_text(s, "completed") {
            Some(JobStatus::Completed)
        } else if same_text(s, "failed") {
            Some(JobStatus::Failed)
        } else {
            None
        }
    }
}

/// No two statuses share a stored name, so the name read back by `parse`
/// is the status that was written.
pub proof fn names_are_distinct(a: JobStatus, b: JobStatus)
    ensures
        a.name_spec() == b.name_spec() <==> a == b,
{
    reveal_strlit("idle");
    reveal_strlit("queued");
    reveal_strlit("processing");
    reveal_strlit("completed");
    reveal_strlit("failed");
    if a != b {
        assert(a.name_spec().len() != b.name_spec().len() || a.name_spec()[0] != b.name_spec()[0]);
    }
}

} // verus!
