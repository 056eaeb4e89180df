use job_queue::job::Outcome;
use job_queue::status::JobStatus;
use job_queue::store::JobStore;
use job_queue::tasks::{
    cancel_task, get_background_tasks, retry_task, trigger_transcription_external, LessonInfo,
    ACCEPTED, CONFLICT, NOT_FOUND, NO_CONTENT, OK,
};
use job_queue::job::{Artifact, Transcription};

fn lesson(id: u128, title: &str, course: Option<&str>) -> LessonInfo {
    LessonInfo { id, title: title.to_string(), course_title: course.map(|c| c.to_string()) }
}

#[test]
fn status_codes_have_their_usual_values() {
    assert_eq!(OK, 200);
    assert_eq!(ACCEPTED, 202);
    assert_eq!(NO_CONTENT, 204);
    assert_eq!(NOT_FOUND, 404);
    assert_eq!(CONFLICT, 409);
}

#[test]
fn trigger_accepts_once_and_then_joins() {
    let mut store = JobStore::new();
    assert_eq!(trigger_transcription_external(&mut store, true, 1, 1), Ok(202));
    assert_eq!(trigger_transcription_external(&mut store, true, 1, 2), Ok(200));
    assert_eq!(store.len(), 1);
    assert_eq!(store.get(1).unwrap().updated_at, 1);
}

#[test]
fn trigger_for_unknown_lesson_is_not_found() {
    let mut store = JobStore::new();
    assert_eq!(trigger_transcription_external(&mut store, false, 1, 1), Err(404));
    assert_eq!(store.len(), 0);
}

#[test]
fn retry_task_answers_accepted_not_found_or_conflict() {
    let mut store = JobStore::new();
    assert_eq!(retry_task(&mut store, 1, 1), Err((404, "Task (Lesson) not found".to_string())));
    store.enqueue(1, 1).unwrap();
    assert!(store.claim(1, 2));
    assert!(store.finalize(1, Outcome::Failed("x".to_string()), 3));
    assert_eq!(retry_task(&mut store, 1, 4), Ok(202));
    assert_eq!(store.status(1), Some(JobStatus::Pending));
    assert!(store.claim(1, 5));
    let done = Outcome::Completed(Artifact {
        transcription: Transcription { text: "t".to_string(), segments: vec![] },
        summary: None,
    });
    assert!(store.finalize(1, done, 6));
    assert_eq!(retry_task(&mut store, 1, 7), Err((409, "Task is completed".to_string())));
    assert_eq!(store.status(1), Some(JobStatus::Completed));
}

#[test]
fn cancel_task_answers_no_content_or_not_found() {
    let mut store = JobStore::new();
    assert_eq!(cancel_task(&mut store, 1, 1), Err((404, "Task (Lesson) not found".to_string())));
    store.enqueue(1, 1).unwrap();
    assert_eq!(cancel_task(&mut store, 1, 2), Ok(204));
    assert_eq!(store.status(1), Some(JobStatus::Idle));
    assert_eq!(cancel_task(&mut store, 1, 3), Ok(204));
}

#[test]
fn background_tasks_join_jobs_with_their_lessons() {
    let mut store = JobStore::new();
    store.enqueue(1, 10).unwrap();
    store.enqueue(2, 20).unwrap();
    store.enqueue(3, 30).unwrap();
    assert!(store.claim(2, 40));
    let lessons = vec![
        lesson(2, "Intro", Some("Rust")),
        lesson(1, "Setup", None),
        lesson(2, "Shadowed", Some("Other")),
    ];
    let tasks = get_background_tasks(&store, &lessons);
    assert_eq!(tasks.len(), 2);
    assert_eq!(tasks[0].id, 2);
    assert_eq!(tasks[0].title, "Intro");
    assert_eq!(tasks[0].course_title, Some("Rust".to_string()));
    assert_eq!(tasks[0].transcription_status, Some("processing".to_string()));
    assert_eq!(tasks[0].updated_at, 40);
    assert_eq!(tasks[1].id, 1);
    assert_eq!(tasks[1].title, "Setup");
    assert_eq!(tasks[1].course_title, None);
    assert_eq!(tasks[1].transcription_status, Some("queued".to_string()));
    assert_eq!(tasks[1].updated_at, 10);
}

#[test]
fn background_tasks_leave_out_idle_and_completed() {
    let mut store = JobStore::new();
    store.enqueue(1, 1).unwrap();
    store.enqueue(2, 1).unwrap();
    assert_eq!(store.cancel(1, 2), Ok(1));
    assert!(store.claim(2, 2));
    let done = Outcome::Completed(Artifact {
        transcription: Transcription { text: "t".to_string(), segments: vec![] },
        summary: None,
    });
    assert!(store.finalize(2, done, 3));
    let lessons = vec![lesson(1, "a", None), lesson(2, "b", None)];
    assert!(get_background_tasks(&store, &lessons).is_empty());
}
