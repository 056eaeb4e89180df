//! The two ways in which a job gets a worker: the request that accepts it,
//! and the periodic sweep.
//!
//! The sweep is also the recovery path. A job whose process died after the
//! job was accepted is still `Pending` in the store, and the next sweep of
//! any live process claims it.

use vstd::prelude::*;
use crate::job::EntityId;
use crate::model::{after_claim_batch, after_enqueue, batch_ids, is_active};
use crate::store::JobStore;
use crate::worker::{PhaseView, Worker, WorkerView};

verus! {

/// What a request for processing is told.
#[derive(Clone, Copy, Debug, PartialEq, Eq, Structural)]
pub enum Receipt {
    /// The job was accepted; a worker should be started for it at once.
    Started(EntityId),
    /// Work for the entity is already in flight; the request joins it.
    AlreadyInProgress,
}

/// What a request for an entity is told on a given queue.
pub open spec fn receipt_of(s: Seq<crate::job::JobView>, id: EntityId) -> Receipt {
    if is_active(s, id) {
        Receipt::AlreadyInProgress
    } else {
        Receipt::Started(id)
    }
}

/// Accepts a request to process the entity. The caller never waits for the
/// pipeline: it learns only whether the job was started or was already in
/// progress. For a started job the caller launches a worker with
/// `Worker::start`; should the sweep claim the job first, that launch
/// yields no worker, and nothing runs twice.
pub fn request_processing(store: &mut JobStore, entity_id: EntityId, now: u64) -> (r: Receipt)
    requires
        old(store).wf(),
    ensures
        final(store).wf(),
        final(store)@ == after_enqueue(old(store)@, entity_id, now),
        r == receipt_of(old(store)@, entity_id),
{
    match store.enqueue(entity_id, now) {
        Ok(id) => Receipt::Started(id),
        Err(_) => Receipt::AlreadyInProgress,
    }
}

/// How often the sweep runs and how many jobs it claims at once. Together
/// they bound the load on the provider.
#[derive(Clone, Copy, Debug, PartialEq, Eq, Structural)]
pub struct DispatcherConfig {
    /// Seconds from one sweep to the next.
    pub interval_secs: u64,
    /// The most jobs that one sweep claims.
    pub batch_size: usize,
}

impl Default for DispatcherConfig {
    /// A sweep every 5 seconds, of at most 5 jobs.
    fn default() -> (r: Self)
        ensures
            r.interval_secs == 5,
            r.batch_size == 5,
    {
        DispatcherConfig { interval_secs: 5, batch_size: 5 }
    }
}

/// One sweep: claims up to `batch_size` `Pending` jobs, the longest waiting
/// first, and makes a worker for each, in that order. The caller runs the
/// workers as independent tasks and sleeps `interval_secs` before the next
/// sweep, whether or not they have finished.
pub fn tick(store: &mut JobStore, config: &DispatcherConfig, now: u64) -> (workers: Vec<Worker>)
    requires
        old(store).wf(),
    ensures
        final(store).wf(),
        final(store)@ == after_claim_batch(old(store)@, config.batch_size as nat, now),
        workers@.len() == batch_ids(old(store)@, config.batch_size as nat).len(),
        forall|i: int|
            0 <= i < workers@.len() ==> (#[trigger] workers@[i])@ == (WorkerView {
                job: batch_ids(old(store)@, config.batch_size as nat)[i],
                phase: PhaseView::Claimed,
            }),
{
    let ids = store.claim_batch(config.batch_size, now);
    let mut workers: Vec<Worker> = Vec::new();
    let mut i: usize = 0;
    while i < ids.len()
        invariant
            i <= ids@.len(),
            workers@.len() == i,
            forall|k: int|
                0 <= k < i ==> (#[trigger] workers@[k])@ == (WorkerView {
                    job: ids@[k],
                    phase: PhaseView::Claimed,
                }),
        decreases ids@.len() - i,
    {
        workers.push(Worker::for_claimed(ids[i]));
        i += 1;
    }
    workers
}

} // verus!
