//! Job records, the artifacts they produce, and their mathematical views.

use vstd::prelude::*;
use crate::status::JobStatus;

verus! {

/// Identity of the entity a job belongs to. It is also the job's key:
/// there is at most one job per entity.
pub type EntityId = u128;

/// Identity of a job: that of its entity.
pub type JobId = EntityId;

/// One timed piece of a transcription, in milliseconds from the start.
#[derive(Debug)]
pub struct Segment {
    pub start_ms: u64,
    pub end_ms: u64,
    pub text: String,
}

pub struct SegmentView {
    pub start_ms: u64,
    pub end_ms: u64,
    pub text: Seq<char>,
}

impl View for Segment {
    type V = SegmentView;

    open spec fn view(&self) -> SegmentView {
        SegmentView { start_ms: self.start_ms, end_ms: self.end_ms, text: self.text@ }
    }
}

impl Clone for Segment {
    fn clone(&self) -> (r: Self)
        ensures
            r@ == self@,
    {
        Segment { start_ms: self.start_ms, end_ms: self.end_ms, text: self.text.clone() }
    }
}

/// What the transcription provider returns: the full text and its segments.
#[derive(Debug)]
pub struct Transcription {
    pub text: String,
    pub segments: Vec<Segment>,
}

pub struct TranscriptionView {
    pub text: Seq<char>,
    pub segments: Seq<SegmentView>,
}

impl View for Transcription {
    type V = TranscriptionView;

    open spec fn view(&self) -> TranscriptionView {
        TranscriptionView {
            text: self.text@,
            segments: self.segments@.map_values(|s: Segment| s@),
        }
    }
}

impl Clone for Transcription {
    fn clone(&self) -> (r: Self)
        ensures
            r@ == self@,
    {
        let mut segments: Vec<Segment> = Vec::new();
        let mut i: usize = 0;
        while i < self.segments.len()
            invariant
                i <= self.segments.len(),
                segments@.len() == i,
                forall|k: int| 0 <= k < i ==> (#[trigger] segments@[k])@ == self.segments@[k]@,
            decreases self.segments.len() - i,
        {
            segments.push(self.segments[i].clone());
            i += 1;
        }
        let r = Transcription { text: self.text.clone(), segments };
        assert(r@.segments =~= self@.segments);
        r
    }
}

/// The stored product of a finished job: the transcription, and the summary
/// when the enrichment step produced one.
#[derive(Debug)]
pub struct Artifact {
    pub transcription: Transcription,
    pub summary: Option<String>,
}

pub struct ArtifactView {
    pub transcription: TranscriptionView,
    pub summary: Option<Seq<char>>,
}

/// The view of an optional string.
pub open spec fn text_view(t: Option<String>) -> Option<Seq<char>> {
    match t {
        Some(s) => Some(s@),
        None => None,
    }
}

/// Copies an optional string.
pub fn clone_text(t: &Option<String>) -> (r: Option<String>)
    ensures
        text_view(r) == text_view(*t),
{
    match t {
        Some(s) => Some(s.clone()),
        None => None,
    }
}

impl View for Artifact {
    type V = ArtifactView;

    open spec fn view(&self) -> ArtifactView {
        ArtifactView { transcription: self.transcription@, summary: text_view(self.summary) }
    }
}

impl Clone for Artifact {
    fn clone(&self) -> (r: Self)
        ensures
            r@ == self@,
    {
        Artifact { transcription: self.transcription.clone(), summary: clone_text(&self.summary) }
    }
}

/// How a worker's run ended.
#[derive(Debug)]
pub enum Outcome {
    /// The primary step succeeded; the artifact is to be stored.
    Completed(Artifact),
    /// The run failed with this message.
    Failed(String),
}

pub enum OutcomeView {
    Completed(ArtifactView),
    Failed(Seq<char>),
}

impl View for Outcome {
    type V = OutcomeView;

    open spec fn view(&self) -> OutcomeView {
        match self {
            Outcome::Completed(a) => OutcomeView::Completed(a@),
            Outcome::Failed(m) => OutcomeView::Failed(m@),
        }
    }
}

/// One job record.
#[derive(Debug)]
pub struct Job {
    pub id: EntityId,
    pub status: JobStatus,
    /// How many times the job entered `Processing`.
    pub attempt_count: u64,
    /// The message of the last failure, until a run completes.
    pub last_error: Option<String>,
    /// The artifact of the last completed run.
    pub result_ref: Option<Artifact>,
    /// Time of the last status transition, in milliseconds.
    pub updated_at: u64,
}

pub struct JobView {
    pub id: EntityId,
    pub status: JobStatus,
    pub attempt_count: u64,
    pub last_error: Option<Seq<char>>,
    pub result_ref: Option<ArtifactView>,
    pub updated_at: u64,
}

/// The view of an optional artifact.
pub open spec fn artifact_view(a: Option<Artifact>) -> Option<ArtifactView> {
    match a {
        Some(x) => Some(x@),
        None => None,
    }
}

impl View for Job {
    type V = JobView;

    open spec fn view(&self) -> JobView {
        JobView {
            id: self.id,
            status: self.status,
            attempt_count: self.attempt_count,
            last_error: text_view(self.last_error),
            result_ref: artifact_view(self.result_ref),
            updated_at: self.updated_at,
        }
    }
}

/// The views of a list of records.
pub open spec fn job_views(jobs: Seq<Job>) -> Seq<JobView> {
    jobs.map_values(|j: Job| j@)
}

/// What an operator is shown of a job.
#[derive(Clone, Copy, Debug, PartialEq, Eq, Structural)]
pub struct JobSummary {
    pub id: EntityId,
    pub status: JobStatus,
    pub attempt_count: u64,
    pub updated_at: u64,
}

impl JobView {
    /// What an operator is shown of this record.
    pub open spec fn summary(self) -> JobSummary {
        JobSummary {
            id: self.id,
            status: self.status,
            attempt_count: self.attempt_count,
            updated_at: self.updated_at,
        }
    }
}

impl Job {
    /// What an operator is shown of this record.
    pub fn summary(&self) -> (r: JobSummary)
        ensures
            r == self@.summary(),
    {
        JobSummary {
            id: self.id,
            status: self.status,
            attempt_count: self.attempt_count,
            updated_at: self.updated_at,
        }
    }
}

} // verus!
