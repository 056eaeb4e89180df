//! Facts about the queue model that the store and the laws rest on.

use vstd::prelude::*;
use crate::job::{EntityId, JobSummary, JobView};
use crate::model::{
    after_claim_batch, ahead, batch_ids, claimed, has_job, in_batch, job_of, pending_ids, placed,
    position, recency_ordered, unique_ids,
};

verus! {

/// In a queue without duplicates, a record's entity determines its position.
pub proof fn lemma_position(s: Seq<JobView>, id: EntityId, i: int)
    requires
        unique_ids(s),
        0 <= i < s.len(),
        s[i].id == id,
    ensures
        has_job(s, id),
        position(s, id) == i,
        job_of(s, id) == Some(s[i]),
{
    let p = position(s, id);
    if p < i {
        assert(s[p].id != s[i].id);
    } else if i < p {
        assert(s[i].id != s[p].id);
    }
}

/// A record of an entity that has none yet keeps the queue free of duplicates.
pub proof fn lemma_push_unique(s: Seq<JobView>, j: JobView)
    requires
        unique_ids(s),
        !has_job(s, j.id),
    ensures
        unique_ids(s.push(j)),
{
    let t = s.push(j);
    assert forall|a: int, b: int| 0 <= a < b < t.len() implies t[a].id != t[b].id by {
        if b == s.len() {
            assert(s[a].id != j.id);
        } else {
            assert(s[a].id != s[b].id);
        }
    }
}

/// Taking a record out and putting one of the same entity at the back keeps
/// the queue free of duplicates.
pub proof fn lemma_move_unique(s: Seq<JobView>, i: int, j: JobView)
    requires
        unique_ids(s),
        0 <= i < s.len(),
        j.id == s[i].id,
    ensures
        unique_ids(s.remove(i).push(j)),
{
    let r = s.remove(i);
    let t = r.push(j);
    assert forall|a: int, b: int| 0 <= a < b < t.len() implies t[a].id != t[b].id by {
        let a0 = if a < i { a } else { a + 1 };
        assert(r[a] == s[a0]);
        if b == r.len() {
            if a0 < i {
                assert(s[a0].id != s[i].id);
            } else {
                assert(s[i].id != s[a0].id);
            }
        } else {
            let b0 = if b < i { b } else { b + 1 };
            assert(r[b] == s[b0]);
            assert(s[a0].id != s[b0].id);
        }
    }
}

/// Replacing a record by one of the same entity keeps the queue free of
/// duplicates, and keeps every entity where it was.
pub proof fn lemma_update_unique(s: Seq<JobView>, i: int, j: JobView)
    requires
        unique_ids(s),
        0 <= i < s.len(),
        j.id == s[i].id,
    ensures
        unique_ids(s.update(i, j)),
{
    let t = s.update(i, j);
    assert forall|a: int, b: int| 0 <= a < b < t.len() implies t[a].id != t[b].id by {
        assert(s[a].id != s[b].id);
    }
}

/// A queue with the same entities at the same positions is free of
/// duplicates too.
pub proof fn lemma_same_ids_unique(s: Seq<JobView>, t: Seq<JobView>)
    requires
        unique_ids(s),
        t.len() == s.len(),
        forall|k: int| 0 <= k < s.len() ==> t[k].id == s[k].id,
    ensures
        unique_ids(t),
{
    assert forall|a: int, b: int| 0 <= a < b < t.len() implies t[a].id != t[b].id by {
        assert(s[a].id != s[b].id);
    }
}

/// One more record at the back of a prefix: the `Pending` entities grow by
/// it if it is `Pending`, and stay as they are otherwise.
pub proof fn lemma_pending_step(s: Seq<JobView>, i: int)
    requires
        0 <= i < s.len(),
    ensures
        pending_ids(s.take(i + 1)) == if s[i].status is Pending {
            pending_ids(s.take(i)).push(s[i].id)
        } else {
            pending_ids(s.take(i))
        },
{
    assert(s.take(i + 1).drop_last() =~= s.take(i));
    assert(s.take(i + 1).last() == s[i]);
}

/// The `Pending` entities of a prefix are a prefix of the `Pending` entities.
pub proof fn lemma_pending_prefix(s: Seq<JobView>, i: int)
    requires
        0 <= i <= s.len(),
    ensures
        pending_ids(s.take(i)).len() <= pending_ids(s).len(),
        pending_ids(s.take(i)) == pending_ids(s).take(pending_ids(s.take(i)).len() as int),
    decreases s.len() - i,
{
    if i == s.len() {
        assert(s.take(i) =~= s);
        assert(pending_ids(s).take(pending_ids(s).len() as int) =~= pending_ids(s));
    } else {
        lemma_pending_prefix(s, i + 1);
        lemma_pending_step(s, i);
        let a = pending_ids(s.take(i));
        let b = pending_ids(s.take(i + 1));
        let p = pending_ids(s);
        assert(a =~= b.take(a.len() as int));
        assert(a =~= p.take(a.len() as int));
    }
}

/// Where a summary is put: behind the last one that is at least as recent.
pub proof fn lemma_placed_at(sorted: Seq<JobSummary>, x: JobSummary, p: int)
    requires
        0 <= p <= sorted.len(),
        p == 0 || sorted[p - 1].updated_at >= x.updated_at,
        forall|k: int| p <= k < sorted.len() ==> sorted[k].updated_at < x.updated_at,
    ensures
        placed(sorted, x) == sorted.insert(p, x),
    decreases sorted.len() - p,
{
    if sorted.len() == 0 {
        assert(sorted.insert(p, x) =~= seq![x]);
    } else if p == sorted.len() {
        assert(sorted.insert(p, x) =~= sorted.push(x));
    } else {
        let front = sorted.drop_last();
        lemma_placed_at(front, x, p);
        assert(front.insert(p, x).push(sorted.last()) =~= sorted.insert(p, x));
    }
}

/// Further back in the queue, no fewer `Pending` jobs stand ahead.
pub proof fn lemma_ahead_monotone(s: Seq<JobView>, i: int, k: int)
    requires
        0 <= i <= k <= s.len(),
    ensures
        ahead(s, i) <= ahead(s, k),
    decreases k - i,
{
    if i < k {
        lemma_pending_step(s, k - 1);
        lemma_ahead_monotone(s, i, k - 1);
    }
}

/// An entity that no record belongs to has no job.
pub proof fn lemma_absent(s: Seq<JobView>, id: EntityId)
    requires
        forall|k: int| 0 <= k < s.len() ==> s[k].id != id,
    ensures
        !has_job(s, id),
        job_of(s, id) is None,
{
}

/// Replacing a record changes the job of its entity and no other.
pub proof fn lemma_job_after_update(s: Seq<JobView>, i: int, j: JobView, id: EntityId)
    requires
        unique_ids(s),
        0 <= i < s.len(),
        j.id == s[i].id,
    ensures
        job_of(s.update(i, j), id) == if id == j.id {
            Some(j)
        } else {
            job_of(s, id)
        },
{
    let t = s.update(i, j);
    lemma_update_unique(s, i, j);
    if id == j.id {
        lemma_position(t, id, i);
    } else if has_job(s, id) {
        let p = position(s, id);
        assert(t[p] == s[p]);
        lemma_position(t, id, p);
    } else {
        assert forall|k: int| 0 <= k < t.len() implies t[k].id != id by {
            assert(s[k].id == t[k].id);
        }
        lemma_absent(t, id);
    }
}

/// Moving a record to the back changes the job of its entity and no other.
pub proof fn lemma_job_after_move(s: Seq<JobView>, i: int, j: JobView, id: EntityId)
    requires
        unique_ids(s),
        0 <= i < s.len(),
        j.id == s[i].id,
    ensures
        job_of(s.remove(i).push(j), id) == if id == j.id {
            Some(j)
        } else {
            job_of(s, id)
        },
{
    let r = s.remove(i);
    let t = r.push(j);
    lemma_move_unique(s, i, j);
    if id == j.id {
        lemma_position(t, id, t.len() - 1);
    } else if has_job(s, id) {
        let p = position(s, id);
        let q = if p < i { p } else { p - 1 };
        assert(t[q] == s[p]);
        lemma_position(t, id, q);
    } else {
        assert forall|k: int| 0 <= k < t.len() implies t[k].id != id by {
            if k < r.len() {
                let k0 = if k < i { k } else { k + 1 };
                assert(t[k] == s[k0]);
            }
        }
        lemma_absent(t, id);
    }
}

/// A record for an entity that had none adds that job and changes no other.
pub proof fn lemma_job_after_push(s: Seq<JobView>, j: JobView, id: EntityId)
    requires
        unique_ids(s),
        !has_job(s, j.id),
    ensures
        job_of(s.push(j), id) == if id == j.id {
            Some(j)
        } else {
            job_of(s, id)
        },
{
    let t = s.push(j);
    lemma_push_unique(s, j);
    if id == j.id {
        lemma_position(t, id, t.len() - 1);
    } else if has_job(s, id) {
        let p = position(s, id);
        assert(t[p] == s[p]);
        lemma_position(t, id, p);
    } else {
        assert forall|k: int| 0 <= k < t.len() implies t[k].id != id by {
            if k < s.len() {
                assert(t[k] == s[k]);
            }
        }
        lemma_absent(t, id);
    }
}

/// A `Pending` record's entity stands among the `Pending` entities at the
/// place that the number of `Pending` records before it gives.
pub proof fn lemma_pending_rank(s: Seq<JobView>, i: int)
    requires
        0 <= i < s.len(),
        s[i].status is Pending,
    ensures
        ahead(s, i) < pending_ids(s).len(),
        pending_ids(s)[ahead(s, i) as int] == s[i].id,
{
    lemma_pending_step(s, i);
    lemma_pending_prefix(s, i + 1);
    let a = pending_ids(s.take(i + 1));
    assert(a[ahead(s, i) as int] == s[i].id);
}

/// Each `Pending` entity comes from a `Pending` record, which has as many
/// `Pending` records before it as the entity has entities before it.
pub proof fn lemma_pending_source(s: Seq<JobView>, r: int) -> (i: int)
    requires
        0 <= r < pending_ids(s).len(),
    ensures
        0 <= i < s.len(),
        s[i].status is Pending,
        ahead(s, i) == r,
        s[i].id == pending_ids(s)[r],
    decreases s.len(),
{
    let n = s.len() as int;
    let d = s.drop_last();
    assert(s.take(n - 1) =~= d);
    if s.last().status is Pending && r == pending_ids(d).len() {
        n - 1
    } else {
        let i = lemma_pending_source(d, r);
        assert(d.take(i) =~= s.take(i));
        i
    }
}

/// In a queue without duplicates no entity is `Pending` twice.
pub proof fn lemma_pending_unique(s: Seq<JobView>)
    requires
        unique_ids(s),
    ensures
        pending_ids(s).no_duplicates(),
{
    let p = pending_ids(s);
    assert forall|a: int, b: int| 0 <= a < p.len() && 0 <= b < p.len() && a != b implies p[a]
        != p[b] by {
        let i = lemma_pending_source(s, a);
        let k = lemma_pending_source(s, b);
        if i < k {
            assert(s[i].id != s[k].id);
        } else if k < i {
            assert(s[k].id != s[i].id);
        }
    }
}

/// A batch holds exactly the entities of the records that are among the
/// first `limit` `Pending` ones.
pub proof fn lemma_batch_member(s: Seq<JobView>, limit: nat, id: EntityId)
    requires
        unique_ids(s),
    ensures
        batch_ids(s, limit).contains(id) <==> has_job(s, id) && in_batch(
            s,
            limit,
            position(s, id),
        ),
{
    let b = batch_ids(s, limit);
    if has_job(s, id) && in_batch(s, limit, position(s, id)) {
        let i = position(s, id);
        lemma_pending_rank(s, i);
        assert(b[ahead(s, i) as int] == id);
    }
    if b.contains(id) {
        let r = choose|r: int| 0 <= r < b.len() && b[r] == id;
        let i = lemma_pending_source(s, r);
        lemma_position(s, id, i);
    }
}

/// A batch claim changes the jobs of the batch's entities and no others.
pub proof fn lemma_job_after_batch(s: Seq<JobView>, limit: nat, now: u64, id: EntityId)
    requires
        unique_ids(s),
    ensures
        unique_ids(after_claim_batch(s, limit, now)),
        job_of(after_claim_batch(s, limit, now), id) == match job_of(s, id) {
            Some(j) => if batch_ids(s, limit).contains(id) {
                Some(claimed(j, now))
            } else {
                Some(j)
            },
            None => None,
        },
{
    let t = after_claim_batch(s, limit, now);
    lemma_same_ids_unique(s, t);
    lemma_batch_member(s, limit, id);
    if has_job(s, id) {
        let p = position(s, id);
        lemma_position(t, id, p);
    } else {
        assert forall|k: int| 0 <= k < t.len() implies t[k].id != id by {
            assert(s[k].id == t[k].id);
        }
        lemma_absent(t, id);
    }
}

/// After a batch claim the `Pending` entities of each prefix are those of
/// before, without the ones that the batch took.
pub proof fn lemma_pending_after_batch(s: Seq<JobView>, limit: nat, now: u64, i: int)
    requires
        0 <= i <= s.len(),
    ensures
        pending_ids(after_claim_batch(s, limit, now).take(i)) == pending_ids(s.take(i)).skip(
            if limit < ahead(s, i) {
                limit as int
            } else {
                ahead(s, i) as int
            },
        ),
    decreases i,
{
    let t = after_claim_batch(s, limit, now);
    if i == 0 {
        assert(t.take(0) =~= Seq::<JobView>::empty());
        assert(s.take(0) =~= Seq::<JobView>::empty());
        assert(pending_ids(s.take(0)).skip(0) =~= pending_ids(s.take(0)));
    } else {
        let k = i - 1;
        lemma_pending_after_batch(s, limit, now, k);
        lemma_pending_step(s, k);
        lemma_pending_step(t, k);
        let a = pending_ids(s.take(k));
        let b = pending_ids(s.take(i));
        let c = if limit < a.len() { limit as int } else { a.len() as int };
        let d = if limit < b.len() { limit as int } else { b.len() as int };
        if s[k].status is Pending {
            if a.len() < limit {
                assert(a.skip(c) =~= b.skip(d));
            } else {
                assert(a.skip(c).push(s[k].id) =~= b.skip(d));
            }
        }
    }
}

/// One if the record is `Pending`, else nothing.
pub open spec fn one_if_pending(j: JobView) -> int {
    if j.status is Pending {
        1
    } else {
        0
    }
}

/// Replacing a record changes the number of `Pending` entities by what the
/// old record and the new one count.
pub proof fn lemma_pending_count_update(x: Seq<JobView>, q: int, j: JobView)
    requires
        0 <= q < x.len(),
    ensures
        pending_ids(x.update(q, j)).len() == pending_ids(x).len() - one_if_pending(x[q])
            + one_if_pending(j),
    decreases x.len(),
{
    let y = x.update(q, j);
    if q == x.len() - 1 {
        assert(y.drop_last() =~= x.drop_last());
    } else {
        assert(y.drop_last() =~= x.drop_last().update(q, j));
        lemma_pending_count_update(x.drop_last(), q, j);
    }
}

/// Taking a record out lowers the number of `Pending` entities by what the
/// record counts.
pub proof fn lemma_pending_count_remove(x: Seq<JobView>, q: int)
    requires
        0 <= q < x.len(),
    ensures
        pending_ids(x.remove(q)).len() == pending_ids(x).len() - one_if_pending(x[q]),
    decreases x.len(),
{
    let y = x.remove(q);
    if q == x.len() - 1 {
        assert(y =~= x.drop_last());
    } else {
        assert(y.drop_last() =~= x.drop_last().remove(q));
        assert(y.last() == x.last());
        lemma_pending_count_remove(x.drop_last(), q);
    }
}

/// With a record replaced, no more `Pending` jobs stand before another
/// record than before, if the new record is `Pending` only where the old
/// one was.
pub proof fn lemma_ahead_after_update(s: Seq<JobView>, q: int, j: JobView, p: int)
    requires
        0 <= q < s.len(),
        0 <= p < s.len(),
        p != q,
        j.status is Pending ==> s[q].status is Pending,
    ensures
        ahead(s.update(q, j), p) <= ahead(s, p),
{
    let t = s.update(q, j);
    if q < p {
        assert(t.take(p) =~= s.take(p).update(q, j));
        lemma_pending_count_update(s.take(p), q, j);
    } else {
        assert(t.take(p) =~= s.take(p));
    }
}

/// With a record moved to the back, no more `Pending` jobs stand before
/// another record than before; the other record stands where it stood, or
/// one place further to the front.
pub proof fn lemma_ahead_after_move(s: Seq<JobView>, q: int, j: JobView, p: int)
    requires
        0 <= q < s.len(),
        0 <= p < s.len(),
        p != q,
    ensures
        ({
            let t = s.remove(q).push(j);
            let landed = if q < p {
                p - 1
            } else {
                p
            };
            &&& t[landed] == s[p]
            &&& ahead(t, landed) <= ahead(s, p)
        }),
{
    let t = s.remove(q).push(j);
    if q < p {
        assert(t.take(p - 1) =~= s.take(p).remove(q));
        lemma_pending_count_remove(s.take(p), q);
    } else {
        assert(t.take(p) =~= s.take(p));
    }
}

/// Where a summary goes into a list in which the most recent stand first.
pub proof fn lemma_placed_ordered(sorted: Seq<JobSummary>, x: JobSummary)
    requires
        recency_ordered(sorted),
    ensures
        recency_ordered(placed(sorted, x)),
        placed(sorted, x).len() == sorted.len() + 1,
        forall|y: JobSummary|
            #![trigger placed(sorted, x).contains(y)]
            #![trigger sorted.contains(y)]
            placed(sorted, x).contains(y) <==> sorted.contains(y) || y == x,
    decreases sorted.len(),
{
    let r = placed(sorted, x);
    if sorted.len() == 0 {
        assert(r[0] == x);
        assert forall|y: JobSummary| r.contains(y) <==> sorted.contains(y) || y == x by {}
    } else if sorted.last().updated_at >= x.updated_at {
        assert(r[sorted.len() as int] == x);
        assert forall|y: JobSummary| r.contains(y) <==> sorted.contains(y) || y == x by {
            if sorted.contains(y) {
                let k = choose|k: int| 0 <= k < sorted.len() && sorted[k] == y;
                assert(r[k] == y);
            }
        }
        assert forall|a: int, b: int| 0 <= a < b < r.len() implies r[a].updated_at
            >= r[b].updated_at by {
            if b == sorted.len() {
                if a < sorted.len() - 1 {
                    assert(sorted[a].updated_at >= sorted[sorted.len() - 1].updated_at);
                }
            }
        }
    } else {
        let front = sorted.drop_last();
        let last = sorted.last();
        lemma_placed_ordered(front, x);
        let inner = placed(front, x);
        assert(r == inner.push(last));
        assert forall|y: JobSummary| r.contains(y) <==> sorted.contains(y) || y == x by {
            if r.contains(y) {
                let k = choose|k: int| 0 <= k < r.len() && r[k] == y;
                if k < inner.len() {
                    assert(inner.contains(y));
                    if front.contains(y) {
                        let m = choose|m: int| 0 <= m < front.len() && front[m] == y;
                        assert(sorted[m] == y);
                    }
                } else {
                    assert(sorted[sorted.len() - 1] == y);
                }
            }
            if sorted.contains(y) {
                let k = choose|k: int| 0 <= k < sorted.len() && sorted[k] == y;
                if k < front.len() {
                    assert(front[k] == y);
                    assert(front.contains(y));
                    assert(inner.contains(y));
                    let m = choose|m: int| 0 <= m < inner.len() && inner[m] == y;
                    assert(r[m] == y);
                } else {
                    assert(r[inner.len() as int] == y);
                }
            }
            if y == x {
                assert(inner.contains(y));
                let m = choose|m: int| 0 <= m < inner.len() && inner[m] == y;
                assert(r[m] == y);
            }
        }
        assert forall|a: int, b: int| 0 <= a < b < r.len() implies r[a].updated_at
            >= r[b].updated_at by {
            if b == inner.len() {
                assert(inner.contains(inner[a]));
                if front.contains(inner[a]) {
                    let m = choose|m: int| 0 <= m < front.len() && front[m] == inner[a];
                    assert(sorted[m].updated_at >= sorted[sorted.len() - 1].updated_at);
                }
            }
        }
    }
}

} // verus!
