//! The endpoints over the queue: what each request does to the store and
//! which status it is answered with.
//!
//! A caller that gets `ACCEPTED` launches a worker for the job with
//! `Worker::start`, without waiting for it.

use vstd::prelude::*;
use vstd::string::StringExecFns;
use crate::dispatch::{request_processing, Receipt};
use crate::job::{clone_text, text_view, EntityId, JobSummary};
use crate::model::{
    after_cancel, after_enqueue, after_retry, attention_list, has_job, is_active, retry_verdict,
    RetryError,
};
use crate::store::JobStore;

verus! {

/// The request joined a job that is already in flight.
pub const OK: u16 = 200;

/// The job was accepted and will run.
pub const ACCEPTED: u16 = 202;

/// The job was dismissed.
pub const NO_CONTENT: u16 = 204;

/// There is no such lesson, or no job for it.
pub const NOT_FOUND: u16 = 404;

/// The job is completed and cannot be retried.
pub const CONFLICT: u16 = 409;

/// What the content layer knows of a lesson that a job belongs to.
#[derive(Debug)]
pub struct LessonInfo {
    pub id: EntityId,
    pub title: String,
    pub course_title: Option<String>,
}

pub struct LessonInfoView {
    pub id: EntityId,
    pub title: Seq<char>,
    pub course_title: Option<Seq<char>>,
}

impl View for LessonInfo {
    type V = LessonInfoView;

    open spec fn view(&self) -> LessonInfoView {
        LessonInfoView {
            id: self.id,
            title: self.title@,
            course_title: text_view(self.course_title),
        }
    }
}

/// A job as the operator sees it: the lesson, its course, the status under
/// its stored name, and the time of the last transition.
#[derive(Debug)]
pub struct BackgroundTask {
    pub id: EntityId,
    pub title: String,
    pub course_title: Option<String>,
    pub transcription_status: Option<String>,
    pub updated_at: u64,
}

pub struct BackgroundTaskView {
    pub id: EntityId,
    pub title: Seq<char>,
    pub course_title: Option<Seq<char>>,
    pub transcription_status: Option<Seq<char>>,
    pub updated_at: u64,
}

impl View for BackgroundTask {
    type V = BackgroundTaskView;

    open spec fn view(&self) -> BackgroundTaskView {
        BackgroundTaskView {
            id: self.id,
            title: self.title@,
            course_title: text_view(self.course_title),
            transcription_status: text_view(self.transcription_status),
            updated_at: self.updated_at,
        }
    }
}

/// The views of a list of lessons.
pub open spec fn lessons_view(lessons: Seq<LessonInfo>) -> Seq<LessonInfoView> {
    lessons.map_values(|l: LessonInfo| l@)
}

/// The views of a list of tasks.
pub open spec fn tasks_view(tasks: Seq<BackgroundTask>) -> Seq<BackgroundTaskView> {
    tasks.map_values(|t: BackgroundTask| t@)
}

/// The first lesson of the list with this identity.
pub open spec fn lesson_of(lessons: Seq<LessonInfoView>, id: EntityId) -> Option<LessonInfoView>
    decreases lessons.len(),
{
    if lessons.len() == 0 {
        None
    } else if lessons.first().id == id {
        Some(lessons.first())
    } else {
        lesson_of(lessons.drop_first(), id)
    }
}

/// A job joined with its lesson.
pub open spec fn task_of(j: JobSummary, l: LessonInfoView) -> BackgroundTaskView {
    BackgroundTaskView {
        id: j.id,
        title: l.title,
        course_title: l.course_title,
        transcription_status: Some(j.status.name_spec()),
        updated_at: j.updated_at,
    }
}

/// The jobs of a list joined with their lessons, in the list's order; a job
/// whose lesson is not known is left out.
pub open spec fn tasks_of(list: Seq<JobSummary>, lessons: Seq<LessonInfoView>) -> Seq<
    BackgroundTaskView,
>
    decreases list.len(),
{
    if list.len() == 0 {
        Seq::empty()
    } else {
        let rest = tasks_of(list.drop_last(), lessons);
        match lesson_of(lessons, list.last().id) {
            Some(l) => rest.push(task_of(list.last(), l)),
            None => rest,
        }
    }
}

fn find_lesson(lessons: &Vec<LessonInfo>, id: EntityId) -> (r: Option<usize>)
    ensures
        match r {
            Some(i) => i < lessons@.len() && lesson_of(lessons_view(lessons@), id) == Some(
                lessons@[i as int]@,
            ),
            None => lesson_of(lessons_view(lessons@), id) is None,
        },
{
    let ghost all = lessons_view(lessons@);
    let mut i: usize = 0;
    proof {
        assert(all.skip(0) =~= all);
    }
    while i < lessons.len()
        invariant
            i <= lessons@.len(),
            all == lessons_view(lessons@),
            lesson_of(all, id) == lesson_of(all.skip(i as int), id),
        decreases lessons@.len() - i,
    {
        proof {
            assert(all.skip(i as int).first() == lessons@[i as int]@);
            assert(all.skip(i as int).drop_first() =~= all.skip(i + 1));
        }
        if lessons[i].id == id {
            return Some(i);
        }
        i += 1;
    }
    None
}

/// `GET /jobs`: the jobs that need attention, the most recently updated
/// first, each with its lesson's title and its course's.
pub fn get_background_tasks(store: &JobStore, lessons: &Vec<LessonInfo>) -> (tasks: Vec<
    BackgroundTask,
>)
    ensures
        tasks_view(tasks@) == tasks_of(attention_list(store@), lessons_view(lessons@)),
{
    let list = store.list_active();
    let mut tasks: Vec<BackgroundTask> = Vec::new();
    let mut i: usize = 0;
    proof {
        assert(list@.take(0) =~= Seq::<JobSummary>::empty());
        assert(tasks_view(tasks@) =~= Seq::<BackgroundTaskView>::empty());
    }
    while i < list.len()
        invariant
            i <= list@.len(),
            tasks_view(tasks@) == tasks_of(list@.take(i as int), lessons_view(lessons@)),
        decreases list@.len() - i,
    {
        proof {
            assert(list@.take(i + 1).drop_last() =~= list@.take(i as int));
            assert(list@.take(i + 1).last() == list@[i as int]);
        }
        let job = list[i];
        match find_lesson(lessons, job.id) {
            Some(k) => {
                let lesson = &lessons[k];
                let task = BackgroundTask {
                    id: job.id,
                    title: lesson.title.clone(),
                    course_title: clone_text(&lesson.course_title),
                    transcription_status: Some(String::from_str(job.status.name())),
                    updated_at: job.updated_at,
                };
                let ghost before = tasks@;
                tasks.push(task);
                proof {
                    assert(tasks_view(tasks@) =~= tasks_view(before).push(task@));
                }
            },
            None => {},
        }
        i += 1;
    }
    proof {
        assert(list@.take(i as int) =~= list@);
    }
    tasks
}

/// `POST /jobs/{entity_id}`: asks for the lesson to be processed. For a
/// lesson that does not exist the answer is `NOT_FOUND` and nothing
/// changes. Else the job is accepted (`ACCEPTED`), or the request joins
/// the job that is already in flight (`OK`).
pub fn trigger_transcription_external(
    store: &mut JobStore,
    lesson_exists: bool,
    id: EntityId,
    now: u64,
) -> (r: Result<u16, u16>)
    requires
        old(store).wf(),
    ensures
        final(store).wf(),
        !lesson_exists ==> r == Err::<u16, u16>(NOT_FOUND) && final(store)@ == old(store)@,
        lesson_exists ==> final(store)@ == after_enqueue(old(store)@, id, now) && r == Ok::<
            u16,
            u16,
        >(if is_active(old(store)@, id) {
            OK
        } else {
            ACCEPTED
        }),
{
    if !lesson_exists {
        return Err(NOT_FOUND);
    }
    match request_processing(store, id, now) {
        Receipt::Started(_) => Ok(ACCEPTED),
        Receipt::AlreadyInProgress => Ok(OK),
    }
}

/// The message that goes with a refused retry.
pub open spec fn retry_refusal(e: RetryError) -> (u16, Seq<char>) {
    match e {
        RetryError::NotFound => (NOT_FOUND, "Task (Lesson) not found"@),
        RetryError::NotRetryable => (CONFLICT, "Task is completed"@),
    }
}

/// `POST /jobs/{entity_id}/retry`: puts a failed or stuck job back in the
/// queue (`ACCEPTED`). An entity without a job, or with a dismissed one, is
/// `NOT_FOUND`; a completed job is refused with `CONFLICT`. A refused
/// retry changes nothing.
pub fn retry_task(store: &mut JobStore, id: EntityId, now: u64) -> (r: Result<u16, (u16, String)>)
    requires
        old(store).wf(),
    ensures
        final(store).wf(),
        final(store)@ == after_retry(old(store)@, id, now),
        match retry_verdict(old(store)@, id) {
            Ok(_) => r == Ok::<u16, (u16, String)>(ACCEPTED),
            Err(e) => r matches Err(x) && (x.0, x.1@) == retry_refusal(e),
        },
{
    match store.retry(id, now) {
        Ok(_) => Ok(ACCEPTED),
        Err(RetryError::NotFound) => Err((NOT_FOUND, String::from_str("Task (Lesson) not found"))),
        Err(RetryError::NotRetryable) => Err((CONFLICT, String::from_str("Task is completed"))),
    }
}

/// `DELETE /jobs/{entity_id}`: dismisses the job (`NO_CONTENT`), or answers
/// `NOT_FOUND` for an entity without one.
pub fn cancel_task(store: &mut JobStore, id: EntityId, now: u64) -> (r: Result<u16, (u16, String)>)
    requires
        old(store).wf(),
    ensures
        final(store).wf(),
        final(store)@ == after_cancel(old(store)@, id, now),
        if has_job(old(store)@, id) {
            r == Ok::<u16, (u16, String)>(NO_CONTENT)
        } else {
            r matches Err(x) && x.0 == NOT_FOUND && x.1@ == "Task (Lesson) not found"@
        },
{
    match store.cancel(id, now) {
        Ok(_) => Ok(NO_CONTENT),
        Err(_) => Err((NOT_FOUND, String::from_str("Task (Lesson) not found"))),
    }
}

} // verus!
