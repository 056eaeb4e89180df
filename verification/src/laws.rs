//! What holds of the queue whatever is asked of it.

use vstd::prelude::*;
use crate::dispatch::{receipt_of, Receipt};
use crate::job::{ArtifactView, EntityId, JobSummary, JobView, OutcomeView, TranscriptionView};
use crate::lemmas::{
    lemma_ahead_after_move, lemma_ahead_after_update, lemma_batch_member, lemma_job_after_batch,
    lemma_job_after_move, lemma_job_after_push, lemma_job_after_update, lemma_move_unique,
    lemma_pending_after_batch, lemma_pending_unique, lemma_placed_ordered, lemma_position,
    lemma_push_unique, lemma_update_unique,
};
use crate::model::{
    after_all, after_claim, after_claim_batch, after_enqueue, after_finalize, after_ticks, ahead,
    apply, attention_list, batch_ids, can_claim, claimed, dismissed, finalized, fresh_job,
    has_job, is_active, job_after, job_of, names, pending_ids, position, recency_ordered, requeued,
    status_of,
    sweeps, unique_ids, waiting_ahead, Op,
};
use crate::status::JobStatus;
use crate::worker::{
    completed, drive, next, outcome_of, run_reports_the_outcome, ActionView, EventView, PhaseView,
    Script,
};

verus! {

/// Every operation keeps the queue at one job per entity, and changes each
/// entity's job exactly as `job_after` says: the job it names (or, for a
/// batch claim, the jobs in the batch), and no other.
pub proof fn effect_of_an_operation(s: Seq<JobView>, op: Op, id: EntityId)
    requires
        unique_ids(s),
    ensures
        unique_ids(apply(s, op)),
        job_of(apply(s, op), id) == job_after(s, op, id),
{
    match op {
        Op::Enqueue(e, now) => {
            if !has_job(s, e) {
                lemma_push_unique(s, fresh_job(e, now));
                lemma_job_after_push(s, fresh_job(e, now), id);
            } else if !is_active(s, e) {
                let p = position(s, e);
                lemma_move_unique(s, p, requeued(s[p], now));
                lemma_job_after_move(s, p, requeued(s[p], now), id);
            }
        },
        Op::Claim(e, now) => {
            if can_claim(s, e) {
                let p = position(s, e);
                lemma_update_unique(s, p, claimed(s[p], now));
                lemma_job_after_update(s, p, claimed(s[p], now), id);
            }
        },
        Op::ClaimBatch(limit, now) => {
            lemma_job_after_batch(s, limit, now, id);
        },
        Op::Finalize(e, outcome, now) => {
            if has_job(s, e) && s[position(s, e)].status is Processing {
                let p = position(s, e);
                lemma_update_unique(s, p, finalized(s[p], outcome, now));
                lemma_job_after_update(s, p, finalized(s[p], outcome, now), id);
            }
        },
        Op::Cancel(e, now) => {
            if has_job(s, e) {
                let p = position(s, e);
                lemma_update_unique(s, p, dismissed(s[p], now));
                lemma_job_after_update(s, p, dismissed(s[p], now), id);
            }
        },
        Op::Retry(e, now) => {
            if has_job(s, e) && !(s[position(s, e)].status is Idle) && !(s[position(
                s,
                e,
            )].status is Completed) {
                let p = position(s, e);
                lemma_move_unique(s, p, requeued(s[p], now));
                lemma_job_after_move(s, p, requeued(s[p], now), id);
            }
        },
    }
}

/// A `Completed` job stays as it is, record and all, under every operation
/// but two that name its entity: a new `enqueue`, which makes it `Pending`,
/// and a `cancel`, which makes it `Idle`. A retry of it is refused, and no
/// claim or late outcome touches it.
pub proof fn completed_is_stable(s: Seq<JobView>, op: Op, id: EntityId)
    requires
        unique_ids(s),
        status_of(s, id) == Some(JobStatus::Completed),
        !(op matches Op::Enqueue(e, _) && e == id),
        !(op matches Op::Cancel(e, _) && e == id),
    ensures
        job_of(apply(s, op), id) == job_of(s, id),
{
    effect_of_an_operation(s, op, id);
    if op is ClaimBatch {
        lemma_batch_member(s, op->ClaimBatch_0, id);
    }
}

/// A `Failed` job stays as it is under every operation but an `enqueue`,
/// a `retry` or a `cancel` that names its entity.
pub proof fn failed_is_stable(s: Seq<JobView>, op: Op, id: EntityId)
    requires
        unique_ids(s),
        status_of(s, id) == Some(JobStatus::Failed),
        !(op matches Op::Enqueue(e, _) && e == id),
        !(op matches Op::Retry(e, _) && e == id),
        !(op matches Op::Cancel(e, _) && e == id),
    ensures
        job_of(apply(s, op), id) == job_of(s, id),
{
    effect_of_an_operation(s, op, id);
    if op is ClaimBatch {
        lemma_batch_member(s, op->ClaimBatch_0, id);
    }
}

/// A job becomes `Processing` only by a claim, and only from `Pending`;
/// each such step counts one attempt. In particular no job goes from
/// `Completed` or `Failed` straight to `Processing`.
pub proof fn processing_is_entered_by_claim(s: Seq<JobView>, op: Op, id: EntityId)
    requires
        unique_ids(s),
        status_of(apply(s, op), id) == Some(JobStatus::Processing),
        status_of(s, id) != Some(JobStatus::Processing),
    ensures
        status_of(s, id) == Some(JobStatus::Pending),
        op is Claim || op is ClaimBatch,
        job_of(apply(s, op), id) == Some(claimed(job_of(s, id)->Some_0, op_time(op))),
{
    effect_of_an_operation(s, op, id);
    if op is ClaimBatch {
        lemma_batch_member(s, op->ClaimBatch_0, id);
    }
}

/// The time an operation carries.
pub open spec fn op_time(op: Op) -> u64 {
    match op {
        Op::Enqueue(_, now) => now,
        Op::Claim(_, now) => now,
        Op::ClaimBatch(_, now) => now,
        Op::Finalize(_, _, now) => now,
        Op::Cancel(_, now) => now,
        Op::Retry(_, now) => now,
    }
}

/// An operation that does not name an entity, and is no batch claim that
/// holds it, leaves the entity's job alone.
pub proof fn other_jobs_are_untouched(s: Seq<JobView>, op: Op, id: EntityId)
    requires
        unique_ids(s),
        !names(op, id),
        op matches Op::ClaimBatch(limit, _) ==> !batch_ids(s, limit).contains(id),
    ensures
        job_of(apply(s, op), id) == job_of(s, id),
{
    effect_of_an_operation(s, op, id);
}

/// After an `enqueue` the entity has exactly one job, and it is in flight;
/// a second `enqueue`, made while the job is still `Pending` or after it
/// was claimed, is refused and changes nothing.
pub proof fn enqueue_is_idempotent(
    s: Seq<JobView>,
    id: EntityId,
    first: u64,
    claim: u64,
    second: u64,
)
    requires
        unique_ids(s),
    ensures
        ({
            let s1 = after_enqueue(s, id, first);
            let s2 = after_claim(s1, id, claim);
            &&& unique_ids(s1)
            &&& is_active(s1, id)
            &&& receipt_of(s1, id) == Receipt::AlreadyInProgress
            &&& after_enqueue(s1, id, second) == s1
            &&& is_active(s2, id)
            &&& receipt_of(s2, id) == Receipt::AlreadyInProgress
            &&& after_enqueue(s2, id, second) == s2
        }),
{
    let s1 = after_enqueue(s, id, first);
    effect_of_an_operation(s, Op::Enqueue(id, first), id);
    effect_of_an_operation(s1, Op::Claim(id, claim), id);
}

/// Two batch claims, one after the other, never return the same entity,
/// and no batch holds an entity twice. Nor can a job of the first batch be
/// claimed on its own afterwards.
pub proof fn claims_never_overlap(s: Seq<JobView>, limit1: nat, t1: u64, limit2: nat, id: EntityId)
    requires
        unique_ids(s),
        batch_ids(s, limit1).contains(id),
    ensures
        batch_ids(s, limit1).no_duplicates(),
        !batch_ids(after_claim_batch(s, limit1, t1), limit2).contains(id),
        !can_claim(after_claim_batch(s, limit1, t1), id),
        status_of(after_claim_batch(s, limit1, t1), id) == Some(JobStatus::Processing),
{
    let t = after_claim_batch(s, limit1, t1);
    lemma_pending_unique(s);
    lemma_job_after_batch(s, limit1, t1, id);
    lemma_batch_member(s, limit1, id);
    lemma_batch_member(t, limit2, id);
}

/// A job that was claimed on its own is in no batch afterwards, and cannot
/// be claimed again.
pub proof fn claimed_job_is_in_no_batch(s: Seq<JobView>, id: EntityId, t1: u64, limit: nat)
    requires
        unique_ids(s),
        can_claim(s, id),
    ensures
        !batch_ids(after_claim(s, id, t1), limit).contains(id),
        !can_claim(after_claim(s, id, t1), id),
{
    let t = after_claim(s, id, t1);
    effect_of_an_operation(s, Op::Claim(id, t1), id);
    lemma_batch_member(t, limit, id);
}

/// Batch claims leave a job that is not `Pending` as it is.
pub proof fn ticks_pass_by(s: Seq<JobView>, id: EntityId, limit: nat, times: Seq<u64>)
    requires
        unique_ids(s),
        !can_claim(s, id),
    ensures
        unique_ids(after_ticks(s, limit, times)),
        job_of(after_ticks(s, limit, times), id) == job_of(s, id),
    decreases times.len(),
{
    if times.len() > 0 {
        let s1 = after_claim_batch(s, limit, times.first());
        lemma_job_after_batch(s, limit, times.first(), id);
        lemma_batch_member(s, limit, id);
        ticks_pass_by(s1, id, limit, times.drop_first());
    }
}

/// No accepted job is lost: a `Pending` job is claimed by the periodic
/// batch claims alone, whatever else has stopped. With `ahead` `Pending`
/// jobs waiting before it and batches of `limit`, it is claimed once the
/// number of ticks times `limit` exceeds `ahead`: it is then `Processing`,
/// with one more attempt counted and the time of the tick that took it,
/// and the ticks that follow leave it alone.
pub proof fn no_lost_work(s: Seq<JobView>, id: EntityId, limit: nat, times: Seq<u64>)
    requires
        unique_ids(s),
        can_claim(s, id),
        waiting_ahead(s, id) < times.len() * limit,
    ensures
        exists|k: int|
            0 <= k < times.len() && job_of(after_ticks(s, limit, times), id) == Some(
                claimed(s[position(s, id)], #[trigger] times[k]),
            ),
    decreases times.len(),
{
    let p = position(s, id);
    lemma_position(s, id, p);
    if times.len() == 0 {
        assert(times.len() * limit == 0) by (nonlinear_arith)
            requires
                times.len() == 0,
        ;
    } else {
        let now = times.first();
        let rest = times.drop_first();
        let s1 = after_claim_batch(s, limit, now);
        lemma_job_after_batch(s, limit, now, id);
        lemma_batch_member(s, limit, id);
        lemma_position(s1, id, p);
        if ahead(s, p) < limit {
            ticks_pass_by(s1, id, limit, rest);
            assert(times[0] == now);
        } else {
            lemma_pending_after_batch(s, limit, now, p);
            assert(waiting_ahead(s1, id) == waiting_ahead(s, id) - limit);
            assert((times.len() - 1) * limit == times.len() * limit - limit) by (nonlinear_arith);
            no_lost_work(s1, id, limit, rest);
            let k = choose|k: int|
                0 <= k < rest.len() && job_of(after_ticks(s1, limit, rest), id) == Some(
                    claimed(s1[position(s1, id)], #[trigger] rest[k]),
                );
            assert(times[k + 1] == rest[k]);
        }
    }
}

/// A waiting job's place in line never worsens. Under an operation that
/// does not name its entity, a `Pending` job either is claimed (by a batch
/// claim that reaches it) or stays `Pending`, unchanged, with no more
/// `Pending` jobs before it than it had; a batch claim that does not reach
/// it takes `limit` of them away.
pub proof fn place_in_line_never_worsens(s: Seq<JobView>, op: Op, id: EntityId)
    requires
        unique_ids(s),
        can_claim(s, id),
        !names(op, id),
    ensures
        unique_ids(apply(s, op)),
        ({
            let t = apply(s, op);
            match op {
                Op::ClaimBatch(limit, now) => if waiting_ahead(s, id) < limit {
                    job_of(t, id) == Some(claimed(s[position(s, id)], now))
                } else {
                    &&& can_claim(t, id)
                    &&& job_of(t, id) == job_of(s, id)
                    &&& waiting_ahead(t, id) == waiting_ahead(s, id) - limit
                },
                _ => {
                    &&& can_claim(t, id)
                    &&& job_of(t, id) == job_of(s, id)
                    &&& waiting_ahead(t, id) <= waiting_ahead(s, id)
                },
            }
        }),
{
    let p = position(s, id);
    let t = apply(s, op);
    lemma_position(s, id, p);
    effect_of_an_operation(s, op, id);
    match op {
        Op::Enqueue(e, now) => {
            if !has_job(s, e) {
                assert(t[p] == s[p]);
                lemma_position(t, id, p);
                assert(t.take(p) =~= s.take(p));
            } else if !is_active(s, e) {
                let q = position(s, e);
                lemma_ahead_after_move(s, q, requeued(s[q], now), p);
                lemma_position(t, id, if q < p { p - 1 } else { p });
            }
        },
        Op::Claim(e, now) => {
            if can_claim(s, e) {
                let q = position(s, e);
                lemma_ahead_after_update(s, q, claimed(s[q], now), p);
                assert(t[p] == s[p]);
                lemma_position(t, id, p);
            }
        },
        Op::ClaimBatch(limit, now) => {
            lemma_job_after_batch(s, limit, now, id);
            lemma_batch_member(s, limit, id);
            lemma_position(t, id, p);
            lemma_pending_after_batch(s, limit, now, p);
        },
        Op::Finalize(e, outcome, now) => {
            if has_job(s, e) && s[position(s, e)].status is Processing {
                let q = position(s, e);
                lemma_ahead_after_update(s, q, finalized(s[q], outcome, now), p);
                assert(t[p] == s[p]);
                lemma_position(t, id, p);
            }
        },
        Op::Cancel(e, now) => {
            if has_job(s, e) {
                let q = position(s, e);
                lemma_ahead_after_update(s, q, dismissed(s[q], now), p);
                assert(t[p] == s[p]);
                lemma_position(t, id, p);
            }
        },
        Op::Retry(e, now) => {
            if has_job(s, e) && !(s[position(s, e)].status is Idle) && !(s[position(
                s,
                e,
            )].status is Completed) {
                let q = position(s, e);
                lemma_ahead_after_move(s, q, requeued(s[q], now), p);
                lemma_position(t, id, if q < p { p - 1 } else { p });
            }
        },
    }
}

/// Operations that do not name a claimed job's entity leave the job as it
/// is: until its worker reports, it is `Processing`.
pub proof fn claimed_job_waits_for_its_worker(s: Seq<JobView>, ops: Seq<Op>, id: EntityId)
    requires
        unique_ids(s),
        status_of(s, id) == Some(JobStatus::Processing),
        forall|k: int| 0 <= k < ops.len() ==> !names(#[trigger] ops[k], id),
    ensures
        unique_ids(after_all(s, ops)),
        job_of(after_all(s, ops), id) == job_of(s, id),
    decreases ops.len(),
{
    if ops.len() > 0 {
        let op = ops.first();
        assert(!names(ops[0], id));
        effect_of_an_operation(s, op, id);
        if op is ClaimBatch {
            lemma_batch_member(s, op->ClaimBatch_0, id);
        }
        assert forall|k: int| 0 <= k < ops.drop_first().len() implies !names(
            #[trigger] ops.drop_first()[k],
            id,
        ) by {
            assert(!names(ops[k + 1], id));
        }
        claimed_job_waits_for_its_worker(apply(s, op), ops.drop_first(), id);
    }
}

/// No accepted job is lost, whatever else goes on. Take a `Pending` job
/// with `ahead` `Pending` jobs before it, and any run of operations that do
/// not name its entity: requests, claims, outcomes, retries and dismissals
/// of other jobs, and batch claims. If the batch claims of at least `limit`
/// jobs among them number more than `ahead` divided by `limit`, the job is
/// `Processing` at the end, claimed once: one more attempt is counted, and
/// nothing else of it has changed but the time.
pub proof fn no_lost_work_under_load(s: Seq<JobView>, ops: Seq<Op>, id: EntityId, limit: nat)
    requires
        unique_ids(s),
        can_claim(s, id),
        forall|k: int| 0 <= k < ops.len() ==> !names(#[trigger] ops[k], id),
        waiting_ahead(s, id) < sweeps(ops, limit) * limit,
    ensures
        job_of(after_all(s, ops), id) matches Some(j) && j == claimed(
            s[position(s, id)],
            j.updated_at,
        ),
    decreases ops.len(),
{
    let n = sweeps(ops, limit);
    if ops.len() == 0 {
        assert(n * limit == 0) by (nonlinear_arith)
            requires
                n == 0,
        ;
    } else {
        let op = ops.first();
        let rest = ops.drop_first();
        let s1 = apply(s, op);
        let p = position(s, id);
        lemma_position(s, id, p);
        assert(!names(ops[0], id));
        place_in_line_never_worsens(s, op, id);
        assert forall|k: int| 0 <= k < rest.len() implies !names(#[trigger] rest[k], id) by {
            assert(!names(ops[k + 1], id));
        }
        if op is ClaimBatch && waiting_ahead(s, id) < op->ClaimBatch_0 {
            claimed_job_waits_for_its_worker(s1, rest, id);
        } else {
            let m = sweeps(rest, limit);
            let place = position(s1, id);
            lemma_position(s1, id, place);
            assert(s1[place] == s[p]);
            if op matches Op::ClaimBatch(l, _) && l >= limit {
                assert(m == n - 1);
                assert(m * limit == n * limit - limit) by (nonlinear_arith)
                    requires
                        m == n - 1,
                ;
            }
            no_lost_work_under_load(s1, rest, id, limit);
        }
    }
}

/// The list that an operator is shown holds the jobs that need attention
/// and no others, and the most recently updated stand first.
pub proof fn attention_list_is_ordered_and_complete(s: Seq<JobView>)
    ensures
        recency_ordered(attention_list(s)),
        forall|x: JobSummary|
            attention_list(s).contains(x) <==> exists|i: int|
                0 <= i < s.len() && s[i].status.needs_attention() && x == (
                #[trigger] s[i]).summary(),
    decreases s.len(),
{
    let list = attention_list(s);
    if s.len() == 0 {
        assert forall|x: JobSummary| !list.contains(x) by {}
    } else {
        let front = s.drop_last();
        let last = s.last();
        attention_list_is_ordered_and_complete(front);
        let inner = attention_list(front);
        if last.status.needs_attention() {
            lemma_placed_ordered(inner, last.summary());
        }
        assert forall|x: JobSummary|
            list.contains(x) <==> exists|i: int|
                0 <= i < s.len() && s[i].status.needs_attention() && x == (
                #[trigger] s[i]).summary() by {
            if list.contains(x) {
                if inner.contains(x) {
                    let i = choose|i: int|
                        0 <= i < front.len() && front[i].status.needs_attention() && x
                            == (#[trigger] front[i]).summary();
                    assert(s[i] == front[i]);
                } else {
                    assert(x == s[s.len() - 1].summary());
                }
            }
            if exists|i: int|
                0 <= i < s.len() && s[i].status.needs_attention() && x == (
                #[trigger] s[i]).summary() {
                let i = choose|i: int|
                    0 <= i < s.len() && s[i].status.needs_attention() && x == (
                #[trigger] s[i]).summary();
                if i < front.len() {
                    assert(front[i] == s[i]);
                    assert(inner.contains(x));
                }
            }
        }
    }
}

/// The summary is an enrichment, and its failure rolls nothing back. If
/// the source is found, the transcription comes and is stored, and the
/// summary call fails, then the run of a claimed job ends with an outcome
/// that makes the job `Completed`, with the transcription as its artifact,
/// without a summary and without an error.
pub proof fn soft_fail_enrichment(
    s: Seq<JobView>,
    id: EntityId,
    script: Script,
    t: TranscriptionView,
    now: u64,
)
    requires
        unique_ids(s),
        status_of(s, id) == Some(JobStatus::Processing),
        script.source_found,
        script.transcription == Ok::<TranscriptionView, Seq<char>>(t),
        script.persisted is Ok,
        script.summary is Err,
    ensures
        ({
            let (p, a) = next(PhaseView::Claimed, EventView::Started);
            let outcome = completed(t, None);
            let after = job_of(after_finalize(s, id, outcome, now), id);
            &&& drive(p, a, script, 4) == ActionView::Finalize(outcome)
            &&& after matches Some(j) && j.status is Completed && j.result_ref == Some(
                ArtifactView { transcription: t, summary: None },
            ) && j.last_error is None
        }),
{
    run_reports_the_outcome(script);
    effect_of_an_operation(s, Op::Finalize(id, completed(t, None), now), id);
}

/// A run whose primary steps succeed completes the job it was started for,
/// and a run in which one of them fails leaves the job `Failed` with that
/// step's message: the job is never left `Processing` by a run that ends.
pub proof fn run_settles_the_job(s: Seq<JobView>, id: EntityId, script: Script, now: u64)
    requires
        unique_ids(s),
        status_of(s, id) == Some(JobStatus::Processing),
    ensures
        ({
            let after = job_of(after_finalize(s, id, outcome_of(script), now), id);
            match outcome_of(script) {
                OutcomeView::Completed(a) => after matches Some(j) && j.status is Completed
                    && j.result_ref == Some(a),
                OutcomeView::Failed(m) => after matches Some(j) && j.status is Failed
                    && j.last_error == Some(m),
            }
        }),
{
    effect_of_an_operation(s, Op::Finalize(id, outcome_of(script), now), id);
}

/// At most one claim is active for a job. Once a batch claim has returned
/// an entity, no later claim returns it, whatever happens in between to
/// other jobs: not a batch claim, and not a claim of the job on its own.
/// Only after the job itself was finalized, retried or dismissed and
/// accepted again can it be claimed once more.
pub proof fn claimed_job_is_not_claimed_again(
    s: Seq<JobView>,
    limit1: nat,
    t1: u64,
    ops: Seq<Op>,
    limit2: nat,
    id: EntityId,
)
    requires
        unique_ids(s),
        batch_ids(s, limit1).contains(id),
        forall|k: int| 0 <= k < ops.len() ==> !names(#[trigger] ops[k], id),
    ensures
        ({
            let later = after_all(after_claim_batch(s, limit1, t1), ops);
            &&& !batch_ids(later, limit2).contains(id)
            &&& !can_claim(later, id)
        }),
{
    let s1 = after_claim_batch(s, limit1, t1);
    claims_never_overlap(s, limit1, t1, limit2, id);
    lemma_job_after_batch(s, limit1, t1, id);
    claimed_job_waits_for_its_worker(s1, ops, id);
    lemma_batch_member(after_all(s1, ops), limit2, id);
}

/// A sweep never claims more than its batch size, and claims that many
/// whenever so many jobs are waiting: batch size and cadence bound the load
/// that sweeps put on the provider.
pub proof fn sweep_is_bounded(s: Seq<JobView>, limit: nat)
    ensures
        batch_ids(s, limit).len() <= limit,
        batch_ids(s, limit).len() == if limit < pending_ids(s).len() {
            limit
        } else {
            pending_ids(s).len()
        },
{
}

} // verus!
