//! The queue as a mathematical object: a sequence of job records in queue
//! order, and the transitions that the store performs on it.
//!
//! A job that becomes `Pending` moves to the back of the sequence, so the
//! `Pending` records stand in the order in which they were accepted.

use vstd::prelude::*;
use crate::job::{EntityId, JobSummary, JobView, OutcomeView};
use crate::status::JobStatus;

verus! {

/// No two records belong to the same entity.
pub open spec fn unique_ids(s: Seq<JobView>) -> bool {
    forall|i: int, j: int| 0 <= i < j < s.len() ==> s[i].id != s[j].id
}

/// Whether the entity has a record.
pub open spec fn has_job(s: Seq<JobView>, id: EntityId) -> bool {
    exists|i: int| 0 <= i < s.len() && s[i].id == id
}

/// Where the entity's record stands.
pub open spec fn position(s: Seq<JobView>, id: EntityId) -> int {
    choose|i: int| 0 <= i < s.len() && s[i].id == id
}

/// The entity's record, if it has one.
pub open spec fn job_of(s: Seq<JobView>, id: EntityId) -> Option<JobView> {
    if has_job(s, id) {
        Some(s[position(s, id)])
    } else {
        None
    }
}

/// The status of the entity's job, if it has one.
pub open spec fn status_of(s: Seq<JobView>, id: EntityId) -> Option<JobStatus> {
    match job_of(s, id) {
        Some(j) => Some(j.status),
        None => None,
    }
}

/// Work for the entity is in flight: its job is `Pending` or `Processing`.
pub open spec fn is_active(s: Seq<JobView>, id: EntityId) -> bool {
    has_job(s, id) && s[position(s, id)].status.is_active()
}

/// The record of an entity that requests processing for the first time.
pub open spec fn fresh_job(id: EntityId, now: u64) -> JobView {
    JobView {
        id,
        status: JobStatus::Pending,
        attempt_count: 0,
        last_error: None,
        result_ref: None,
        updated_at: now,
    }
}

/// The record after it has been accepted again.
pub open spec fn requeued(j: JobView, now: u64) -> JobView {
    JobView { status: JobStatus::Pending, updated_at: now, ..j }
}

/// The queue with the entity's record moved to the back as `Pending`.
pub open spec fn moved_to_back(s: Seq<JobView>, id: EntityId, now: u64) -> Seq<JobView> {
    s.remove(position(s, id)).push(requeued(s[position(s, id)], now))
}

/// The queue after `enqueue`.
pub open spec fn after_enqueue(s: Seq<JobView>, id: EntityId, now: u64) -> Seq<JobView> {
    if !has_job(s, id) {
        s.push(fresh_job(id, now))
    } else if is_active(s, id) {
        s
    } else {
        moved_to_back(s, id, now)
    }
}

/// The attempt counter after one more attempt; it stops at the largest value.
pub open spec fn next_attempt(n: u64) -> u64 {
    if n < u64::MAX {
        (n + 1) as u64
    } else {
        n
    }
}

/// The record after a worker has claimed it.
pub open spec fn claimed(j: JobView, now: u64) -> JobView {
    JobView {
        status: JobStatus::Processing,
        attempt_count: next_attempt(j.attempt_count),
        updated_at: now,
        ..j
    }
}

/// The entity's job can be claimed: it exists and is `Pending`.
pub open spec fn can_claim(s: Seq<JobView>, id: EntityId) -> bool {
    has_job(s, id) && s[position(s, id)].status is Pending
}

/// The queue after a claim of one job.
pub open spec fn after_claim(s: Seq<JobView>, id: EntityId, now: u64) -> Seq<JobView> {
    if can_claim(s, id) {
        s.update(position(s, id), claimed(s[position(s, id)], now))
    } else {
        s
    }
}

/// The entities whose jobs are `Pending`, in queue order.
pub open spec fn pending_ids(s: Seq<JobView>) -> Seq<EntityId>
    decreases s.len(),
{
    if s.len() == 0 {
        Seq::empty()
    } else if s.last().status is Pending {
        pending_ids(s.drop_last()).push(s.last().id)
    } else {
        pending_ids(s.drop_last())
    }
}

/// How many `Pending` jobs stand before position `i`.
pub open spec fn ahead(s: Seq<JobView>, i: int) -> nat {
    pending_ids(s.take(i)).len()
}

/// The record at `i` is among the first `limit` `Pending` ones.
pub open spec fn in_batch(s: Seq<JobView>, limit: nat, i: int) -> bool {
    0 <= i < s.len() && s[i].status is Pending && ahead(s, i) < limit
}

/// The entities that a batch claim of at most `limit` jobs returns: the
/// first `limit` `Pending` ones in queue order, or all of them if there are
/// fewer.
pub open spec fn batch_ids(s: Seq<JobView>, limit: nat) -> Seq<EntityId> {
    let p = pending_ids(s);
    if limit < p.len() {
        p.take(limit as int)
    } else {
        p
    }
}

/// The queue after a batch claim of at most `limit` jobs.
pub open spec fn after_claim_batch(s: Seq<JobView>, limit: nat, now: u64) -> Seq<JobView> {
    Seq::new(
        s.len(),
        |i: int|
            if in_batch(s, limit, i) {
                claimed(s[i], now)
            } else {
                s[i]
            },
    )
}

/// The record after its worker has reported the outcome.
pub open spec fn finalized(j: JobView, outcome: OutcomeView, now: u64) -> JobView {
    match outcome {
        OutcomeView::Completed(a) => JobView {
            status: JobStatus::Completed,
            last_error: None,
            result_ref: Some(a),
            updated_at: now,
            ..j
        },
        OutcomeView::Failed(m) => JobView {
            status: JobStatus::Failed,
            last_error: Some(m),
            updated_at: now,
            ..j
        },
    }
}

/// An outcome is accepted only for a job that is `Processing`.
pub open spec fn can_finalize(s: Seq<JobView>, id: EntityId) -> bool {
    has_job(s, id) && s[position(s, id)].status is Processing
}

/// The queue after `finalize`.
pub open spec fn after_finalize(
    s: Seq<JobView>,
    id: EntityId,
    outcome: OutcomeView,
    now: u64,
) -> Seq<JobView> {
    if can_finalize(s, id) {
        s.update(position(s, id), finalized(s[position(s, id)], outcome, now))
    } else {
        s
    }
}

/// The record after it has been dismissed.
pub open spec fn dismissed(j: JobView, now: u64) -> JobView {
    JobView { status: JobStatus::Idle, updated_at: now, ..j }
}

/// The queue after `cancel`.
pub open spec fn after_cancel(s: Seq<JobView>, id: EntityId, now: u64) -> Seq<JobView> {
    if has_job(s, id) {
        s.update(position(s, id), dismissed(s[position(s, id)], now))
    } else {
        s
    }
}

/// Why a retry was refused.
#[derive(Clone, Copy, Debug, PartialEq, Eq, Structural)]
pub enum RetryError {
    /// The entity has no job, or its job is `Idle`.
    NotFound,
    /// The job is `Completed`: there is nothing to retry.
    NotRetryable,
}

/// Whether a retry of the entity's job goes ahead.
pub open spec fn retry_verdict(s: Seq<JobView>, id: EntityId) -> Result<EntityId, RetryError> {
    match status_of(s, id) {
        None => Err(RetryError::NotFound),
        Some(JobStatus::Idle) => Err(RetryError::NotFound),
        Some(JobStatus::Completed) => Err(RetryError::NotRetryable),
        Some(_) => Ok(id),
    }
}

/// The queue after `retry`.
pub open spec fn after_retry(s: Seq<JobView>, id: EntityId, now: u64) -> Seq<JobView> {
    if retry_verdict(s, id) is Ok {
        moved_to_back(s, id, now)
    } else {
        s
    }
}

/// A list ordered by recency with one more summary: it stands behind every
/// summary that is at least as recent.
pub open spec fn placed(sorted: Seq<JobSummary>, x: JobSummary) -> Seq<JobSummary>
    decreases sorted.len(),
{
    if sorted.len() == 0 {
        seq![x]
    } else if sorted.last().updated_at >= x.updated_at {
        sorted.push(x)
    } else {
        placed(sorted.drop_last(), x).push(sorted.last())
    }
}

/// The jobs that need attention (`Pending`, `Processing`, `Failed`), the
/// most recently updated first; among equally recent ones, queue order.
pub open spec fn attention_list(s: Seq<JobView>) -> Seq<JobSummary>
    decreases s.len(),
{
    if s.len() == 0 {
        Seq::empty()
    } else if s.last().status.needs_attention() {
        placed(attention_list(s.drop_last()), s.last().summary())
    } else {
        attention_list(s.drop_last())
    }
}

/// One operation on the queue.
pub enum Op {
    /// `enqueue` for an entity, at a time.
    Enqueue(EntityId, u64),
    /// A claim of one entity's job.
    Claim(EntityId, u64),
    /// A batch claim of at most so many jobs.
    ClaimBatch(nat, u64),
    /// `finalize` of an entity's job with an outcome.
    Finalize(EntityId, OutcomeView, u64),
    /// `cancel` of an entity's job.
    Cancel(EntityId, u64),
    /// `retry` of an entity's job.
    Retry(EntityId, u64),
}

/// The queue after an operation.
pub open spec fn apply(s: Seq<JobView>, op: Op) -> Seq<JobView> {
    match op {
        Op::Enqueue(id, now) => after_enqueue(s, id, now),
        Op::Claim(id, now) => after_claim(s, id, now),
        Op::ClaimBatch(limit, now) => after_claim_batch(s, limit, now),
        Op::Finalize(id, outcome, now) => after_finalize(s, id, outcome, now),
        Op::Cancel(id, now) => after_cancel(s, id, now),
        Op::Retry(id, now) => after_retry(s, id, now),
    }
}

/// What an operation makes of one entity's job, given the job before it.
pub open spec fn job_after(s: Seq<JobView>, op: Op, id: EntityId) -> Option<JobView> {
    let before = job_of(s, id);
    match op {
        Op::Enqueue(e, now) => if e != id {
            before
        } else {
            match before {
                None => Some(fresh_job(id, now)),
                Some(j) => if j.status.is_active() {
                    before
                } else {
                    Some(requeued(j, now))
                },
            }
        },
        Op::Claim(e, now) => match before {
            Some(j) => if e == id && j.status is Pending {
                Some(claimed(j, now))
            } else {
                before
            },
            None => None,
        },
        Op::ClaimBatch(limit, now) => match before {
            Some(j) => if batch_ids(s, limit).contains(id) {
                Some(claimed(j, now))
            } else {
                before
            },
            None => None,
        },
        Op::Finalize(e, outcome, now) => match before {
            Some(j) => if e == id && j.status is Processing {
                Some(finalized(j, outcome, now))
            } else {
                before
            },
            None => None,
        },
        Op::Cancel(e, now) => match before {
            Some(j) => if e == id {
                Some(dismissed(j, now))
            } else {
                before
            },
            None => None,
        },
        Op::Retry(e, now) => match before {
            Some(j) => if e == id && !(j.status is Idle) && !(j.status is Completed) {
                Some(requeued(j, now))
            } else {
                before
            },
            None => None,
        },
    }
}

/// The operation asks for something of this very entity.
pub open spec fn names(op: Op, id: EntityId) -> bool {
    match op {
        Op::Enqueue(e, _) => e == id,
        Op::Claim(e, _) => e == id,
        Op::ClaimBatch(_, _) => false,
        Op::Finalize(e, _, _) => e == id,
        Op::Cancel(e, _) => e == id,
        Op::Retry(e, _) => e == id,
    }
}

/// The queue after one batch claim at each of the given times, in turn.
pub open spec fn after_ticks(s: Seq<JobView>, limit: nat, times: Seq<u64>) -> Seq<JobView>
    decreases times.len(),
{
    if times.len() == 0 {
        s
    } else {
        after_ticks(after_claim_batch(s, limit, times.first()), limit, times.drop_first())
    }
}

/// How many `Pending` jobs wait before the entity's job.
pub open spec fn waiting_ahead(s: Seq<JobView>, id: EntityId) -> nat {
    ahead(s, position(s, id))
}

/// The queue after a run of operations, one after the other.
pub open spec fn after_all(s: Seq<JobView>, ops: Seq<Op>) -> Seq<JobView>
    decreases ops.len(),
{
    if ops.len() == 0 {
        s
    } else {
        after_all(apply(s, ops.first()), ops.drop_first())
    }
}

/// How many operations of a run are batch claims of at least `limit` jobs.
pub open spec fn sweeps(ops: Seq<Op>, limit: nat) -> nat
    decreases ops.len(),
{
    if ops.len() == 0 {
        0
    } else {
        sweeps(ops.drop_first(), limit) + if ops.first() matches Op::ClaimBatch(l, _) && l
            >= limit {
            1nat
        } else {
            0nat
        }
    }
}

/// The most recently updated stand first.
pub open spec fn recency_ordered(list: Seq<JobSummary>) -> bool {
    forall|a: int, b: int| 0 <= a < b < list.len() ==> list[a].updated_at >= list[b].updated_at
}

} // verus!
