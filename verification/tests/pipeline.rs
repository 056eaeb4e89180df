use job_queue::dispatch::{request_processing, tick, DispatcherConfig, Receipt};
use job_queue::job::{Job, Outcome, Segment, Transcription};
use job_queue::model::RetryError;
use job_queue::provider::{summary_event, transcription_event, RawTranscript, Reply};
use job_queue::status::JobStatus;
use job_queue::store::JobStore;
use job_queue::worker::{Action, Event, Phase, Worker};

fn hello() -> Transcription {
    Transcription {
        text: "hello".to_string(),
        segments: vec![Segment { start_ms: 0, end_ms: 1000, text: "hello".to_string() }],
    }
}

fn started(store: &mut JobStore, id: u128, now: u64) -> Worker {
    let worker = Worker::start(store, id, now).unwrap();
    let (worker, action) = worker.step(Event::Started);
    assert!(matches!(action, Action::ResolveSource));
    worker
}

fn finalize(store: &mut JobStore, worker: &Worker, action: Action, now: u64) -> bool {
    match action {
        Action::Finalize(outcome) => store.finalize(worker.job(), outcome, now),
        other => panic!("expected the outcome, got {:?}", other),
    }
}

#[test]
fn start_claims_the_job_or_yields_no_worker() {
    let mut store = JobStore::new();
    assert!(Worker::start(&mut store, 1, 1).is_none());
    store.enqueue(1, 1).unwrap();
    let worker = Worker::start(&mut store, 1, 2).unwrap();
    assert_eq!(worker.job(), 1);
    assert!(matches!(worker.phase(), Phase::Claimed));
    assert!(!worker.is_finished());
    assert_eq!(store.status(1), Some(JobStatus::Processing));
    assert!(Worker::start(&mut store, 1, 3).is_none());
}

#[test]
fn fast_path_and_sweep_run_a_job_once() {
    let mut store = JobStore::new();
    assert_eq!(request_processing(&mut store, 1, 1), Receipt::Started(1));
    let swept = tick(&mut store, &DispatcherConfig::default(), 2);
    assert_eq!(swept.len(), 1);
    assert!(Worker::start(&mut store, 1, 3).is_none());
    assert_eq!(store.get(1).unwrap().attempt_count, 1);
}

#[test]
fn successful_run_completes_with_summary() {
    let mut store = JobStore::new();
    store.enqueue(1, 1).unwrap();
    let worker = started(&mut store, 1, 2);
    let (worker, action) = worker.step(Event::SourceResolved);
    assert!(matches!(action, Action::Transcribe));
    let (worker, action) = worker.step(Event::Transcribed(hello()));
    assert!(matches!(action, Action::Persist));
    assert_eq!(worker.transcription().unwrap().text, "hello");
    let (worker, action) = worker.step(Event::Persisted);
    assert!(matches!(action, Action::Summarize));
    assert_eq!(worker.transcription().unwrap().text, "hello");
    let (worker, action) = worker.step(Event::Summarized("a greeting".to_string()));
    assert!(worker.is_finished());
    assert!(worker.transcription().is_none());
    assert!(finalize(&mut store, &worker, action, 9));
    let job = store.get(1).unwrap();
    assert_eq!(job.status, JobStatus::Completed);
    let artifact = job.result_ref.as_ref().unwrap();
    assert_eq!(artifact.transcription.text, "hello");
    assert_eq!(artifact.summary, Some("a greeting".to_string()));
}

#[test]
fn summary_failure_still_completes_without_summary() {
    let mut store = JobStore::new();
    store.enqueue(1, 1).unwrap();
    let worker = started(&mut store, 1, 2);
    let (worker, _) = worker.step(Event::SourceResolved);
    let (worker, _) = worker.step(Event::Transcribed(hello()));
    let (worker, _) = worker.step(Event::Persisted);
    let (worker, action) = worker.step(Event::SummaryFailed("timeout".to_string()));
    assert!(finalize(&mut store, &worker, action, 9));
    let job = store.get(1).unwrap();
    assert_eq!(job.status, JobStatus::Completed);
    assert_eq!(job.last_error, None);
    let artifact = job.result_ref.as_ref().unwrap();
    assert_eq!(artifact.transcription.text, "hello");
    assert_eq!(artifact.transcription.segments.len(), 1);
    assert_eq!(artifact.summary, None);
}

#[test]
fn empty_text_is_not_summarized() {
    let mut store = JobStore::new();
    store.enqueue(1, 1).unwrap();
    let worker = started(&mut store, 1, 2);
    let (worker, _) = worker.step(Event::SourceResolved);
    let silent = Transcription { text: String::new(), segments: vec![] };
    let (worker, _) = worker.step(Event::Transcribed(silent));
    let (worker, action) = worker.step(Event::Persisted);
    assert!(worker.is_finished());
    match action {
        Action::Finalize(Outcome::Completed(artifact)) => {
            assert_eq!(artifact.transcription.text, "");
            assert_eq!(artifact.summary, None);
        }
        other => panic!("unexpected {:?}", other),
    }
}

#[test]
fn missing_source_fails_the_job() {
    let mut store = JobStore::new();
    store.enqueue(1, 1).unwrap();
    let worker = started(&mut store, 1, 2);
    let (worker, action) = worker.step(Event::SourceUnavailable);
    assert!(worker.is_finished());
    assert!(finalize(&mut store, &worker, action, 3));
    let job = store.get(1).unwrap();
    assert_eq!(job.status, JobStatus::Failed);
    assert_eq!(job.last_error, Some("source unavailable".to_string()));
}

#[test]
fn failed_transcription_fails_the_job() {
    let mut store = JobStore::new();
    store.enqueue(1, 1).unwrap();
    let worker = started(&mut store, 1, 2);
    let (worker, _) = worker.step(Event::SourceResolved);
    let (worker, action) = worker.step(Event::TranscriptionFailed("bad gateway".to_string()));
    assert!(finalize(&mut store, &worker, action, 3));
    assert_eq!(store.status(1), Some(JobStatus::Failed));
    assert_eq!(store.get(1).unwrap().last_error, Some("bad gateway".to_string()));
}

#[test]
fn failed_persistence_fails_the_job() {
    let mut store = JobStore::new();
    store.enqueue(1, 1).unwrap();
    let worker = started(&mut store, 1, 2);
    let (worker, _) = worker.step(Event::SourceResolved);
    let (worker, _) = worker.step(Event::Transcribed(hello()));
    let (worker, action) = worker.step(Event::PersistFailed("disk full".to_string()));
    assert!(finalize(&mut store, &worker, action, 3));
    let job = store.get(1).unwrap();
    assert_eq!(job.status, JobStatus::Failed);
    assert_eq!(job.last_error, Some("disk full".to_string()));
    assert!(job.result_ref.is_none());
}

#[test]
fn events_out_of_turn_are_ignored() {
    let mut store = JobStore::new();
    store.enqueue(1, 1).unwrap();
    let worker = Worker::start(&mut store, 1, 2).unwrap();
    let (worker, action) = worker.step(Event::Persisted);
    assert!(matches!(action, Action::Ignore));
    assert!(matches!(worker.phase(), Phase::Claimed));
    let (worker, _) = worker.step(Event::Started);
    let (worker, action) = worker.step(Event::Summarized("x".to_string()));
    assert!(matches!(action, Action::Ignore));
    assert!(matches!(worker.phase(), Phase::Resolving));
    let (worker, _) = worker.step(Event::SourceUnavailable);
    let (worker, action) = worker.step(Event::SourceResolved);
    assert!(matches!(action, Action::Ignore));
    assert!(worker.is_finished());
}

#[test]
fn scenario_completed_job_cannot_be_retried() {
    let mut store = JobStore::new();
    assert_eq!(request_processing(&mut store, 0xE1, 1), Receipt::Started(0xE1));
    let worker = started(&mut store, 0xE1, 2);
    let (worker, _) = worker.step(Event::SourceResolved);
    let reply = Reply::Body(RawTranscript {
        text: Some("hello".to_string()),
        segments: Some(vec![Segment { start_ms: 0, end_ms: 1000, text: "hello".to_string() }]),
    });
    let (worker, _) = worker.step(transcription_event(reply));
    let (worker, _) = worker.step(Event::Persisted);
    let (worker, action) =
        worker.step(summary_event(Reply::Body(Some(" a greeting \n".to_string()))));
    assert!(finalize(&mut store, &worker, action, 3));
    let job = store.get(0xE1).unwrap();
    assert_eq!(job.status, JobStatus::Completed);
    let artifact = job.result_ref.as_ref().unwrap();
    assert_eq!(artifact.transcription.segments.len(), 1);
    assert_eq!(artifact.transcription.segments[0].start_ms, 0);
    assert_eq!(artifact.transcription.segments[0].end_ms, 1000);
    assert_eq!(artifact.transcription.segments[0].text, "hello");
    assert_eq!(artifact.summary, Some("a greeting".to_string()));
    assert_eq!(store.retry(0xE1, 4), Err(RetryError::NotRetryable));
    assert_eq!(store.status(0xE1), Some(JobStatus::Completed));
    assert_eq!(store.get(0xE1).unwrap().updated_at, 3);
}

#[test]
fn scenario_failed_job_is_listed_retried_and_completed() {
    let mut store = JobStore::new();
    assert_eq!(request_processing(&mut store, 0xE2, 1), Receipt::Started(0xE2));
    let worker = started(&mut store, 0xE2, 2);
    let (worker, _) = worker.step(Event::SourceResolved);
    let reply: Reply<RawTranscript> = Reply::Rejected("internal server error".to_string());
    let (worker, action) = worker.step(transcription_event(reply));
    assert!(finalize(&mut store, &worker, action, 3));
    let job = store.get(0xE2).unwrap();
    assert_eq!(job.status, JobStatus::Failed);
    assert!(!job.last_error.as_ref().unwrap().is_empty());
    assert!(store.list_active().iter().any(|s| s.id == 0xE2));
    assert_eq!(store.retry(0xE2, 4), Ok(0xE2));
    assert_eq!(store.status(0xE2), Some(JobStatus::Pending));
    let mut workers = tick(&mut store, &DispatcherConfig::default(), 5);
    assert_eq!(workers.len(), 1);
    let worker = workers.pop().unwrap();
    let (worker, _) = worker.step(Event::Started);
    let (worker, _) = worker.step(Event::SourceResolved);
    let (worker, _) = worker.step(Event::Transcribed(hello()));
    let (worker, _) = worker.step(Event::Persisted);
    let (worker, action) = worker.step(Event::Summarized("s".to_string()));
    assert!(finalize(&mut store, &worker, action, 6));
    let job = store.get(0xE2).unwrap();
    assert_eq!(job.status, JobStatus::Completed);
    assert_eq!(job.attempt_count, 2);
    assert_eq!(job.last_error, None);
    assert!(store.list_active().is_empty());
}

#[test]
fn a_job_accepted_before_a_crash_is_completed_after_it() {
    let mut store = JobStore::new();
    assert_eq!(request_processing(&mut store, 7, 1), Receipt::Started(7));
    let written: Vec<Job> = store
        .records()
        .iter()
        .map(|j| Job {
            id: j.id,
            status: j.status,
            attempt_count: j.attempt_count,
            last_error: j.last_error.clone(),
            result_ref: j.result_ref.clone(),
            updated_at: j.updated_at,
        })
        .collect();
    drop(store);
    let mut store = JobStore::restore(written).unwrap();
    assert_eq!(store.status(7), Some(JobStatus::Pending));
    let mut workers = tick(&mut store, &DispatcherConfig::default(), 6);
    assert_eq!(workers.len(), 1);
    let worker = workers.pop().unwrap();
    assert_eq!(worker.job(), 7);
    let (worker, _) = worker.step(Event::Started);
    let (worker, _) = worker.step(Event::SourceResolved);
    let (worker, _) = worker.step(Event::Transcribed(hello()));
    let (worker, _) = worker.step(Event::Persisted);
    let (worker, action) = worker.step(Event::Summarized("s".to_string()));
    assert!(finalize(&mut store, &worker, action, 7));
    let job = store.get(7).unwrap();
    assert_eq!(job.status, JobStatus::Completed);
    assert_eq!(job.attempt_count, 1);
    assert_eq!(job.updated_at, 7);
}
