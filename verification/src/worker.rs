//! The worker: one job's pipeline as a state machine.
//!
//! A worker exists only for a job that its maker has claimed. It never
//! performs outside work itself: each step takes the event that reports
//! how the last piece of outside work went, and answers with the next
//! piece to perform. The last answer carries the outcome to hand to
//! `JobStore::finalize`.

use vstd::prelude::*;
use vstd::string::StringExecFns;
use crate::job::{
    Artifact, ArtifactView, EntityId, Outcome, OutcomeView, Transcription, TranscriptionView,
};
use crate::store::JobStore;
use crate::model::{after_claim, can_claim};

verus! {

/// Where a worker stands in its pipeline.
#[derive(Debug)]
pub enum Phase {
    /// The job is claimed; nothing has been asked for yet.
    Claimed,
    /// Waiting for the source artifact to be located.
    Resolving,
    /// Waiting for the provider's transcription.
    Transcribing,
    /// Waiting for the transcription to be stored with the entity.
    Persisting(Transcription),
    /// Waiting for the provider's summary.
    Summarizing(Transcription),
    /// The outcome has been handed out.
    Finished,
}

pub enum PhaseView {
    Claimed,
    Resolving,
    Transcribing,
    Persisting(TranscriptionView),
    Summarizing(TranscriptionView),
    Finished,
}

impl View for Phase {
    type V = PhaseView;

    open spec fn view(&self) -> PhaseView {
        match self {
            Phase::Claimed => PhaseView::Claimed,
            Phase::Resolving => PhaseView::Resolving,
            Phase::Transcribing => PhaseView::Transcribing,
            Phase::Persisting(t) => PhaseView::Persisting(t@),
            Phase::Summarizing(t) => PhaseView::Summarizing(t@),
            Phase::Finished => PhaseView::Finished,
        }
    }
}

/// How a piece of outside work went.
#[derive(Debug)]
pub enum Event {
    /// The worker's task has started.
    Started,
    /// The source artifact was located.
    SourceResolved,
    /// The source artifact is missing or unreadable.
    SourceUnavailable,
    /// The provider returned a transcription.
    Transcribed(Transcription),
    /// The provider call failed: network, status, or malformed response.
    TranscriptionFailed(String),
    /// The transcription was stored with the entity.
    Persisted,
    /// The transcription could not be stored.
    PersistFailed(String),
    /// The provider returned a summary.
    Summarized(String),
    /// The summary call failed.
    SummaryFailed(String),
}

pub enum EventView {
    Started,
    SourceResolved,
    SourceUnavailable,
    Transcribed(TranscriptionView),
    TranscriptionFailed(Seq<char>),
    Persisted,
    PersistFailed(Seq<char>),
    Summarized(Seq<char>),
    SummaryFailed(Seq<char>),
}

impl View for Event {
    type V = EventView;

    open spec fn view(&self) -> EventView {
        match self {
            Event::Started => EventView::Started,
            Event::SourceResolved => EventView::SourceResolved,
            Event::SourceUnavailable => EventView::SourceUnavailable,
            Event::Transcribed(t) => EventView::Transcribed(t@),
            Event::TranscriptionFailed(m) => EventView::TranscriptionFailed(m@),
            Event::Persisted => EventView::Persisted,
            Event::PersistFailed(m) => EventView::PersistFailed(m@),
            Event::Summarized(s) => EventView::Summarized(s@),
            Event::SummaryFailed(m) => EventView::SummaryFailed(m@),
        }
    }
}

/// The next piece of outside work.
#[derive(Debug)]
pub enum Action {
    /// Locate the entity's source artifact.
    ResolveSource,
    /// Send the artifact to the provider for transcription.
    Transcribe,
    /// Store the worker's transcription with the entity.
    Persist,
    /// Send the transcription's text to the provider for a summary.
    Summarize,
    /// Hand the outcome to the store; the run is over.
    Finalize(Outcome),
    /// The event did not fit the worker's phase; nothing is to be done.
    Ignore,
}

pub enum ActionView {
    ResolveSource,
    Transcribe,
    Persist,
    Summarize,
    Finalize(OutcomeView),
    Ignore,
}

impl View for Action {
    type V = ActionView;

    open spec fn view(&self) -> ActionView {
        match self {
            Action::ResolveSource => ActionView::ResolveSource,
            Action::Transcribe => ActionView::Transcribe,
            Action::Persist => ActionView::Persist,
            Action::Summarize => ActionView::Summarize,
            Action::Finalize(o) => ActionView::Finalize(o@),
            Action::Ignore => ActionView::Ignore,
        }
    }
}

/// The message of a job whose source artifact could not be located.
pub open spec fn source_unavailable() -> Seq<char> {
    "source unavailable"@
}

/// The outcome of a run whose primary step succeeded.
pub open spec fn completed(t: TranscriptionView, summary: Option<Seq<char>>) -> OutcomeView {
    OutcomeView::Completed(ArtifactView { transcription: t, summary })
}

/// The transition: the phase and the action that follow an event.
///
/// A failure of any step up to and including storing the transcription
/// ends the run as `Failed`. A failure of the summary does not: the run
/// ends as `Completed`, without a summary. The summary is asked for only
/// when the transcription's text is not empty.
pub open spec fn next(p: PhaseView, e: EventView) -> (PhaseView, ActionView) {
    match (p, e) {
        (PhaseView::Claimed, EventView::Started) => (
            PhaseView::Resolving,
            ActionView::ResolveSource,
        ),
        (PhaseView::Resolving, EventView::SourceResolved) => (
            PhaseView::Transcribing,
            ActionView::Transcribe,
        ),
        (PhaseView::Resolving, EventView::SourceUnavailable) => (
            PhaseView::Finished,
            ActionView::Finalize(OutcomeView::Failed(source_unavailable())),
        ),
        (PhaseView::Transcribing, EventView::Transcribed(t)) => (
            PhaseView::Persisting(t),
            ActionView::Persist,
        ),
        (PhaseView::Transcribing, EventView::TranscriptionFailed(m)) => (
            PhaseView::Finished,
            ActionView::Finalize(OutcomeView::Failed(m)),
        ),
        (PhaseView::Persisting(t), EventView::Persisted) => if t.text.len() > 0 {
            (PhaseView::Summarizing(t), ActionView::Summarize)
        } else {
            (PhaseView::Finished, ActionView::Finalize(completed(t, None)))
        },
        (PhaseView::Persisting(t), EventView::PersistFailed(m)) => (
            PhaseView::Finished,
            ActionView::Finalize(OutcomeView::Failed(m)),
        ),
        (PhaseView::Summarizing(t), EventView::Summarized(s)) => (
            PhaseView::Finished,
            ActionView::Finalize(completed(t, Some(s))),
        ),
        (PhaseView::Summarizing(t), EventView::SummaryFailed(m)) => (
            PhaseView::Finished,
            ActionView::Finalize(completed(t, None)),
        ),
        _ => (p, ActionView::Ignore),
    }
}

/// What the outside world answers during one run: whether the source is
/// found, and how each call that is made ends.
pub struct Script {
    pub source_found: bool,
    pub transcription: Result<TranscriptionView, Seq<char>>,
    pub persisted: Result<(), Seq<char>>,
    pub summary: Result<Seq<char>, Seq<char>>,
}

/// The outcome that a run must report when the outside world answers as the
/// script says: `Failed` with the message of the first primary step that
/// fails; else `Completed` with the transcription, and with the summary if
/// one was asked for and came.
pub open spec fn outcome_of(script: Script) -> OutcomeView {
    if !script.source_found {
        OutcomeView::Failed(source_unavailable())
    } else {
        match script.transcription {
            Err(m) => OutcomeView::Failed(m),
            Ok(t) => match script.persisted {
                Err(m) => OutcomeView::Failed(m),
                Ok(_) => if t.text.len() == 0 {
                    completed(t, None)
                } else {
                    match script.summary {
                        Ok(s) => completed(t, Some(s)),
                        Err(_) => completed(t, None),
                    }
                },
            },
        }
    }
}

/// The event with which the outside world answers an action.
pub open spec fn answer(script: Script, a: ActionView) -> EventView {
    match a {
        ActionView::ResolveSource => if script.source_found {
            EventView::SourceResolved
        } else {
            EventView::SourceUnavailable
        },
        ActionView::Transcribe => match script.transcription {
            Ok(t) => EventView::Transcribed(t),
            Err(m) => EventView::TranscriptionFailed(m),
        },
        ActionView::Persist => match script.persisted {
            Ok(_) => EventView::Persisted,
            Err(m) => EventView::PersistFailed(m),
        },
        ActionView::Summarize => match script.summary {
            Ok(s) => EventView::Summarized(s),
            Err(m) => EventView::SummaryFailed(m),
        },
        _ => EventView::Started,
    }
}

/// The action that a run arrives at when each action is performed and its
/// answer handed back, at most `steps` times, until the outcome is out.
pub open spec fn drive(p: PhaseView, a: ActionView, script: Script, steps: nat) -> ActionView
    decreases steps,
{
    if steps == 0 || a is Finalize || a is Ignore {
        a
    } else {
        let (q, b) = next(p, answer(script, a));
        drive(q, b, script, (steps - 1) as nat)
    }
}

/// A run implements the pipeline: started on a claimed job and driven by
/// the outside world's answers, it hands out the outcome that the script
/// calls for, after at most four pieces of outside work.
pub proof fn run_reports_the_outcome(script: Script)
    ensures
        ({
            let (p, a) = next(PhaseView::Claimed, EventView::Started);
            drive(p, a, script, 4) == ActionView::Finalize(outcome_of(script))
        }),
{
    reveal_with_fuel(drive, 5);
}

/// Once the outcome is out, the worker ignores every event: no run reports
/// twice.
pub proof fn finished_worker_ignores_events(e: EventView)
    ensures
        next(PhaseView::Finished, e) == (PhaseView::Finished, ActionView::Ignore),
{
}

/// One job's run.
#[derive(Debug)]
pub struct Worker {
    job: EntityId,
    phase: Phase,
}

pub struct WorkerView {
    pub job: EntityId,
    pub phase: PhaseView,
}

impl View for Worker {
    type V = WorkerView;

    closed spec fn view(&self) -> WorkerView {
        WorkerView { job: self.job, phase: self.phase@ }
    }
}

impl Worker {
    /// A worker for a job that the caller has just claimed.
    pub(crate) fn for_claimed(job: EntityId) -> (w: Worker)
        ensures
            w@ == (WorkerView { job, phase: PhaseView::Claimed }),
    {
        Worker { job, phase: Phase::Claimed }
    }

    /// Claims the entity's job and makes its worker. Where the job is not
    /// `Pending`, somebody else owns it or nothing was asked for: there is
    /// no worker then, and the store is unchanged.
    pub fn start(store: &mut JobStore, id: EntityId, now: u64) -> (w: Option<Worker>)
        requires
            old(store).wf(),
        ensures
            final(store).wf(),
            final(store)@ == after_claim(old(store)@, id, now),
            match w {
                Some(x) => can_claim(old(store)@, id) && x@ == (WorkerView {
                    job: id,
                    phase: PhaseView::Claimed,
                }),
                None => !can_claim(old(store)@, id),
            },
    {
        if store.claim(id, now) {
            Some(Worker::for_claimed(id))
        } else {
            None
        }
    }

    /// The entity whose job the worker runs.
    pub fn job(&self) -> (id: EntityId)
        ensures
            id == self@.job,
    {
        self.job
    }

    /// The worker's phase.
    pub fn phase(&self) -> (p: &Phase)
        ensures
            p@ == self@.phase,
    {
        &self.phase
    }

    /// The transcription that the worker holds: the one to store while
    /// `Persisting`, the one to summarize while `Summarizing`.
    pub fn transcription(&self) -> (t: Option<&Transcription>)
        ensures
            match self@.phase {
                PhaseView::Persisting(x) => t matches Some(y) && y@ == x,
                PhaseView::Summarizing(x) => t matches Some(y) && y@ == x,
                _ => t is None,
            },
    {
        match &self.phase {
            Phase::Persisting(t) => Some(t),
            Phase::Summarizing(t) => Some(t),
            _ => None,
        }
    }

    /// Whether the run is over.
    pub fn is_finished(&self) -> (r: bool)
        ensures
            r == (self@.phase is Finished),
    {
        match &self.phase {
            Phase::Finished => true,
            _ => false,
        }
    }

    /// Takes the event that reports the last piece of outside work and
    /// answers with the worker in its next phase and the next action.
    pub fn step(self, event: Event) -> (r: (Worker, Action))
        ensures
            r.0@.job == self@.job,
            (r.0@.phase, r.1@) == next(self@.phase, event@),
    {
        let job = self.job;
        match (self.phase, event) {
            (Phase::Claimed, Event::Started) => (
                Worker { job, phase: Phase::Resolving },
                Action::ResolveSource,
            ),
            (Phase::Resolving, Event::SourceResolved) => (
                Worker { job, phase: Phase::Transcribing },
                Action::Transcribe,
            ),
            (Phase::Resolving, Event::SourceUnavailable) => (
                Worker { job, phase: Phase::Finished },
                Action::Finalize(Outcome::Failed(String::from_str("source unavailable"))),
            ),
            (Phase::Transcribing, Event::Transcribed(t)) => (
                Worker { job, phase: Phase::Persisting(t) },
                Action::Persist,
            ),
            (Phase::Transcribing, Event::TranscriptionFailed(m)) => (
                Worker { job, phase: Phase::Finished },
                Action::Finalize(Outcome::Failed(m)),
            ),
            (Phase::Persisting(t), Event::Persisted) => {
                if t.text.as_str().is_empty() {
                    (
                        Worker { job, phase: Phase::Finished },
                        Action::Finalize(
                            Outcome::Completed(Artifact { transcription: t, summary: None }),
                        ),
                    )
                } else {
                    (Worker { job, phase: Phase::Summarizing(t) }, Action::Summarize)
                }
            },
            (Phase::Persisting(_), Event::PersistFailed(m)) => (
                Worker { job, phase: Phase::Finished },
                Action::Finalize(Outcome::Failed(m)),
            ),
            (Phase::Summarizing(t), Event::Summarized(s)) => (
                Worker { job, phase: Phase::Finished },
                Action::Finalize(
                    Outcome::Completed(Artifact { transcription: t, summary: Some(s) }),
                ),
            ),
            (Phase::Summarizing(t), Event::SummaryFailed(_)) => (
                Worker { job, phase: Phase::Finished },
                Action::Finalize(Outcome::Completed(Artifact { transcription: t, summary: None })),
            ),
            (phase, _) => (Worker { job, phase }, Action::Ignore),
        }
    }
}

} // verus!
