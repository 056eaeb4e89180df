//! The job store: the single source of truth for job records.
//!
//! Every operation takes the store by `&mut`, so two callers are always
//! serialized; the conditional transition from `Pending` to `Processing`
//! is what keeps two of them from running the same job.

use vstd::prelude::*;
use crate::job::{job_views, EntityId, Job, JobId, JobSummary, JobView, Outcome};
use crate::lemmas::{
    lemma_ahead_monotone, lemma_move_unique, lemma_pending_prefix, lemma_pending_step,
    lemma_placed_at, lemma_position, lemma_push_unique, lemma_update_unique,
};
use crate::model::{
    after_cancel, after_claim, after_claim_batch, after_enqueue, after_finalize, after_retry,
    attention_list, batch_ids, can_claim, can_finalize, claimed, dismissed, finalized, fresh_job,
    has_job, in_batch, is_active, job_of, moved_to_back, pending_ids, position, requeued,
    retry_verdict, status_of, unique_ids, RetryError,
};
use crate::status::JobStatus;

verus! {

/// Returned by `enqueue` when work for the entity is already in flight.
#[derive(Clone, Copy, Debug, PartialEq, Eq, Structural)]
pub struct AlreadyActive;

/// Returned by `cancel` when the entity has no job.
#[derive(Clone, Copy, Debug, PartialEq, Eq, Structural)]
pub struct NotFound;

/// Job records in queue order.
pub struct JobStore {
    jobs: Vec<Job>,
}

impl View for JobStore {
    type V = Seq<JobView>;

    closed spec fn view(&self) -> Seq<JobView> {
        job_views(self.jobs@)
    }
}

impl JobStore {
    /// The store's invariant: at most one job per entity.
    pub open spec fn wf(&self) -> bool {
        unique_ids(self@)
    }

    /// An empty store.
    pub fn new() -> (r: Self)
        ensures
            r.wf(),
            r@ == Seq::<JobView>::empty(),
    {
        let r = JobStore { jobs: Vec::new() };
        assert(r@ =~= Seq::<JobView>::empty());
        r
    }

    /// The store that holds the given records, in their order: what was
    /// written down of a store is read back with this. Records of which two
    /// belong to one entity are no store.
    pub fn restore(jobs: Vec<Job>) -> (r: Option<JobStore>)
        ensures
            match r {
                Some(s) => s.wf() && s@ == job_views(jobs@),
                None => !unique_ids(job_views(jobs@)),
            },
    {
        let n = jobs.len();
        let mut i: usize = 0;
        while i < n
            invariant
                i <= n,
                n == jobs@.len(),
                forall|a: int, b: int| 0 <= a < i && a < b < n ==> jobs@[a].id != jobs@[b].id,
            decreases n - i,
        {
            let mut k: usize = i + 1;
            while k < n
                invariant
                    i < k <= n,
                    n == jobs@.len(),
                    forall|b: int| i < b < k ==> jobs@[i as int].id != jobs@[b].id,
                decreases n - k,
            {
                if jobs[i].id == jobs[k].id {
                    proof {
                        let v = job_views(jobs@);
                        assert(v[i as int].id == v[k as int].id);
                    }
                    return None;
                }
                k += 1;
            }
            i += 1;
        }
        Some(JobStore { jobs })
    }

    /// The records, in queue order: what is to be written down of the
    /// store.
    pub fn records(&self) -> (r: &Vec<Job>)
        ensures
            job_views(r@) == self@,
    {
        &self.jobs
    }

    /// The number of records.
    pub fn len(&self) -> (n: usize)
        ensures
            n == self@.len(),
    {
        self.jobs.len()
    }

    fn find(&self, id: EntityId) -> (r: Option<usize>)
        ensures
            match r {
                Some(i) => i < self.jobs@.len() && self.jobs@[i as int].id == id,
                None => !has_job(self@, id),
            },
            self.wf() ==> match r {
                Some(i) => has_job(self@, id) && position(self@, id) == i,
                None => true,
            },
    {
        let mut i: usize = 0;
        while i < self.jobs.len()
            invariant
                i <= self.jobs@.len(),
                forall|k: int| 0 <= k < i ==> self.jobs@[k].id != id,
            decreases self.jobs@.len() - i,
        {
            if self.jobs[i].id == id {
                proof {
                    if self.wf() {
                        lemma_position(self@, id, i as int);
                    }
                }
                return Some(i);
            }
            i += 1;
        }
        None
    }

    /// The entity's record, if it has one.
    pub fn get(&self, id: EntityId) -> (r: Option<&Job>)
        requires
            self.wf(),
        ensures
            match r {
                Some(j) => job_of(self@, id) == Some(j@),
                None => job_of(self@, id) is None,
            },
    {
        match self.find(id) {
            Some(i) => Some(&self.jobs[i]),
            None => None,
        }
    }

    /// The status of the entity's job, if it has one.
    pub fn status(&self, id: EntityId) -> (r: Option<JobStatus>)
        requires
            self.wf(),
        ensures
            r == status_of(self@, id),
    {
        match self.find(id) {
            Some(i) => Some(self.jobs[i].status),
            None => None,
        }
    }

    /// Accepts work for the entity. The job becomes `Pending` and goes to
    /// the back of the queue, unless work for the entity is already in
    /// flight: then nothing changes.
    pub fn enqueue(&mut self, entity_id: EntityId, now: u64) -> (r: Result<JobId, AlreadyActive>)
        requires
            old(self).wf(),
        ensures
            final(self).wf(),
            final(self)@ == after_enqueue(old(self)@, entity_id, now),
            r == if is_active(old(self)@, entity_id) {
                Err::<JobId, AlreadyActive>(AlreadyActive)
            } else {
                Ok(entity_id)
            },
    {
        match self.find(entity_id) {
            None => {
                self.jobs.push(
                    Job {
                        id: entity_id,
                        status: JobStatus::Pending,
                        attempt_count: 0,
                        last_error: None,
                        result_ref: None,
                        updated_at: now,
                    },
                );
                proof {
                    assert(final(self)@ =~= old(self)@.push(fresh_job(entity_id, now)));
                    lemma_push_unique(old(self)@, fresh_job(entity_id, now));
                }
                Ok(entity_id)
            },
            Some(i) => {
                match self.jobs[i].status {
                    JobStatus::Pending | JobStatus::Processing => Err(AlreadyActive),
                    _ => {
                        self.requeue(i, now);
                        Ok(entity_id)
                    },
                }
            },
        }
    }

    /// Moves the record at `i` to the back of the queue as `Pending`.
    fn requeue(&mut self, i: usize, now: u64)
        requires
            old(self).wf(),
            i < old(self)@.len(),
        ensures
            final(self).wf(),
            final(self)@ == moved_to_back(old(self)@, old(self)@[i as int].id, now),
    {
        proof {
            lemma_position(self@, self@[i as int].id, i as int);
        }
        let mut job = self.jobs.remove(i);
        job.status = JobStatus::Pending;
        job.updated_at = now;
        self.jobs.push(job);
        proof {
            let s = old(self)@;
            assert(final(self)@ =~= s.remove(i as int).push(requeued(s[i as int], now)));
            lemma_move_unique(s, i as int, requeued(s[i as int], now));
        }
    }

    /// Marks the record at `i` as claimed.
    fn mark_claimed(&mut self, i: usize, now: u64)
        requires
            old(self).wf(),
            i < old(self)@.len(),
        ensures
            final(self).wf(),
            final(self)@ == old(self)@.update(i as int, claimed(old(self)@[i as int], now)),
    {
        let job = &mut self.jobs[i];
        job.status = JobStatus::Processing;
        if job.attempt_count < u64::MAX {
            job.attempt_count = job.attempt_count + 1;
        }
        job.updated_at = now;
        proof {
            let s = old(self)@;
            assert(final(self)@ =~= s.update(i as int, claimed(s[i as int], now)));
            lemma_update_unique(s, i as int, claimed(s[i as int], now));
        }
    }

    /// Claims the entity's job for one worker: the transition from `Pending`
    /// to `Processing`, made only if the job is `Pending`. A caller that gets
    /// `false` does not own the job and must not run it.
    pub fn claim(&mut self, id: JobId, now: u64) -> (won: bool)
        requires
            old(self).wf(),
        ensures
            final(self).wf(),
            won == can_claim(old(self)@, id),
            final(self)@ == after_claim(old(self)@, id, now),
    {
        match self.find(id) {
            Some(i) => {
                match self.jobs[i].status {
                    JobStatus::Pending => {
                        self.mark_claimed(i, now);
                        true
                    },
                    _ => false,
                }
            },
            None => false,
        }
    }

    /// Claims up to `limit` `Pending` jobs, the longest waiting first, and
    /// returns their entities. Each claimed job is `Processing` afterwards
    /// and has one more attempt counted.
    pub fn claim_batch(&mut self, limit: usize, now: u64) -> (ids: Vec<JobId>)
        requires
            old(self).wf(),
        ensures
            final(self).wf(),
            ids@ == batch_ids(old(self)@, limit as nat),
            final(self)@ == after_claim_batch(old(self)@, limit as nat, now),
    {
        let ghost s0 = self@;
        let n = self.jobs.len();
        let mut ids: Vec<JobId> = Vec::new();
        let mut i: usize = 0;
        proof {
            assert(s0.take(0) =~= Seq::<JobView>::empty());
        }
        while i < n && ids.len() < limit
            invariant
                i <= n,
                n == s0.len(),
                self@.len() == n,
                self.wf(),
                unique_ids(s0),
                ids@ == pending_ids(s0.take(i as int)),
                ids@.len() <= limit,
                forall|k: int| 0 <= k < i ==> self@[k] == if in_batch(s0, limit as nat, k) {
                    claimed(s0[k], now)
                } else {
                    s0[k]
                },
                forall|k: int| i <= k < n ==> self@[k] == s0[k],
            decreases n - i,
        {
            proof {
                lemma_pending_step(s0, i as int);
            }
            let pending = match self.jobs[i].status {
                JobStatus::Pending => true,
                _ => false,
            };
            if pending {
                let id = self.jobs[i].id;
                self.mark_claimed(i, now);
                ids.push(id);
            }
            i += 1;
        }
        proof {
            let lim = limit as nat;
            lemma_pending_prefix(s0, i as int);
            if i == n {
                assert(s0.take(i as int) =~= s0);
            }
            assert(ids@ == batch_ids(s0, lim));
            assert forall|k: int| i <= k < n implies !in_batch(s0, lim, k) by {
                if i < n {
                    lemma_pending_prefix(s0, k);
                    lemma_ahead_monotone(s0, i as int, k);
                }
            }
            assert(self@ =~= after_claim_batch(s0, lim, now));
        }
        ids
    }

    /// Records the outcome of the entity's job, if the job is `Processing`:
    /// `Completed` with its artifact, or `Failed` with its message. For a job
    /// in any other status the call changes nothing and returns `false`: a
    /// worker that finishes after its job was dismissed reports to nobody.
    pub fn finalize(&mut self, id: JobId, outcome: Outcome, now: u64) -> (applied: bool)
        requires
            old(self).wf(),
        ensures
            final(self).wf(),
            applied == can_finalize(old(self)@, id),
            final(self)@ == after_finalize(old(self)@, id, outcome@, now),
    {
        match self.find(id) {
            Some(i) => {
                match self.jobs[i].status {
                    JobStatus::Processing => {
                        let job = &mut self.jobs[i];
                        match outcome {
                            Outcome::Completed(artifact) => {
                                job.status = JobStatus::Completed;
                                job.last_error = None;
                                job.result_ref = Some(artifact);
                            },
                            Outcome::Failed(message) => {
                                job.status = JobStatus::Failed;
                                job.last_error = Some(message);
                            },
                        }
                        job.updated_at = now;
                        proof {
                            let s = old(self)@;
                            let j = finalized(s[i as int], outcome@, now);
                            assert(final(self)@ =~= s.update(i as int, j));
                            lemma_update_unique(s, i as int, j);
                        }
                        true
                    },
                    _ => false,
                }
            },
            None => false,
        }
    }

    /// Dismisses the entity's job: it becomes `Idle`, whatever it was. A
    /// worker that is running the job is not interrupted; its outcome will
    /// be ignored.
    pub fn cancel(&mut self, id: EntityId, now: u64) -> (r: Result<JobId, NotFound>)
        requires
            old(self).wf(),
        ensures
            final(self).wf(),
            final(self)@ == after_cancel(old(self)@, id, now),
            r == if has_job(old(self)@, id) {
                Ok::<JobId, NotFound>(id)
            } else {
                Err(NotFound)
            },
    {
        match self.find(id) {
            Some(i) => {
                let job = &mut self.jobs[i];
                job.status = JobStatus::Idle;
                job.updated_at = now;
                proof {
                    let s = old(self)@;
                    let j = dismissed(s[i as int], now);
                    assert(final(self)@ =~= s.update(i as int, j));
                    lemma_update_unique(s, i as int, j);
                }
                Ok(id)
            },
            None => Err(NotFound),
        }
    }

    /// Puts a `Failed` job, or one stuck in `Pending` or `Processing`, back
    /// in the queue as `Pending`, by the same path as `enqueue`. A
    /// `Completed` job is not retried, and an entity without a job, or with
    /// an `Idle` one, is not found.
    pub fn retry(&mut self, id: EntityId, now: u64) -> (r: Result<JobId, RetryError>)
        requires
            old(self).wf(),
        ensures
            final(self).wf(),
            r == retry_verdict(old(self)@, id),
            final(self)@ == after_retry(old(self)@, id, now),
    {
        match self.find(id) {
            Some(i) => {
                match self.jobs[i].status {
                    JobStatus::Idle => Err(RetryError::NotFound),
                    JobStatus::Completed => Err(RetryError::NotRetryable),
                    _ => {
                        self.requeue(i, now);
                        Ok(id)
                    },
                }
            },
            None => Err(RetryError::NotFound),
        }
    }

    /// The jobs that need attention (`Pending`, `Processing`, `Failed`),
    /// the most recently updated first.
    pub fn list_active(&self) -> (r: Vec<JobSummary>)
        ensures
            r@ == attention_list(self@),
    {
        let mut out: Vec<JobSummary> = Vec::new();
        let mut i: usize = 0;
        proof {
            assert(self@.take(0) =~= Seq::<JobView>::empty());
        }
        while i < self.jobs.len()
            invariant
                i <= self.jobs@.len(),
                self@.len() == self.jobs@.len(),
                out@ == attention_list(self@.take(i as int)),
            decreases self.jobs@.len() - i,
        {
            proof {
                assert(self@.take(i + 1).drop_last() =~= self@.take(i as int));
                assert(self@.take(i + 1).last() == self@[i as int]);
            }
            let shown = match self.jobs[i].status {
                JobStatus::Pending | JobStatus::Processing | JobStatus::Failed => true,
                _ => false,
            };
            if shown {
                let x = self.jobs[i].summary();
                let mut p: usize = out.len();
                while p > 0 && out[p - 1].updated_at < x.updated_at
                    invariant
                        p <= out@.len(),
                        forall|k: int| p <= k < out@.len() ==> out@[k].updated_at < x.updated_at,
                    decreases p,
                {
                    p -= 1;
                }
                proof {
                    lemma_placed_at(out@, x, p as int);
                }
                out.insert(p, x);
            }
            i += 1;
        }
        proof {
            assert(self@.take(i as int) =~= self@);
        }
        out
    }
}

} // verus!
