//! Laws of the download queue, stated over its mathematical content and
//! proved for every queue and every input.

use crate::download_queue::{has_id, started, JobView, QueueView};
use vstd::prelude::*;

verus! {

/// One step of a queue's history.
pub enum QueueOp {
    /// A job arrives.
    Enqueue(JobView),
    /// The dispatcher asks for the next job to start.
    StartNext,
    /// The running job with this id reaches a terminal outcome.
    Finish(i32),
}

/// The queue after one step.
pub open spec fn apply(q: QueueView, op: QueueOp) -> QueueView {
    match op {
        QueueOp::Enqueue(d) => q.enqueue(d),
        QueueOp::StartNext => q.start_next(),
        QueueOp::Finish(id) => q.finish(id),
    }
}

/// The queue after the steps `ops`, taken in order from `q`.
pub open spec fn run(q: QueueView, ops: Seq<QueueOp>) -> QueueView
    decreases ops.len(),
{
    if ops.len() == 0 {
        q
    } else {
        apply(run(q, ops.drop_last()), ops.last())
    }
}

/// The jobs that arrive during `ops`, in order.
pub open spec fn enqueued(ops: Seq<QueueOp>) -> Seq<JobView>
    decreases ops.len(),
{
    if ops.len() == 0 {
        Seq::empty()
    } else {
        match ops.last() {
            QueueOp::Enqueue(d) => enqueued(ops.drop_last()).push(d),
            _ => enqueued(ops.drop_last()),
        }
    }
}

/// How many of the steps `ops`, taken from `q`, handed a job out to start.
pub open spec fn started_count(q: QueueView, ops: Seq<QueueOp>) -> nat
    decreases ops.len(),
{
    if ops.len() == 0 {
        0
    } else {
        let before = started_count(q, ops.drop_last());
        if ops.last() is StartNext && run(q, ops.drop_last()).can_start() {
            before + 1
        } else {
            before
        }
    }
}

/// The jobs that the steps `ops`, taken from `q`, handed out to start, in order.
pub open spec fn started_jobs(q: QueueView, ops: Seq<QueueOp>) -> Seq<JobView>
    decreases ops.len(),
{
    if ops.len() == 0 {
        Seq::empty()
    } else {
        let before = started_jobs(q, ops.drop_last());
        if ops.last() is StartNext {
            match run(q, ops.drop_last()).next_started() {
                Some(job) => before.push(job),
                None => before,
            }
        } else {
            before
        }
    }
}

/// No two of the jobs share an id.
pub open spec fn distinct_ids(jobs: Seq<JobView>) -> bool {
    forall|i: int, j: int|
        0 <= i < j < jobs.len() ==> (#[trigger] jobs[i]).media_idx != (#[trigger] jobs[j]).media_idx
}

/// Every operation keeps a valid queue valid; in particular the limit never
/// falls below 1.
pub proof fn law_operations_keep_validity(q: QueueView, d: JobView, id: i32, max: nat)
    requires
        q.valid(),
    ensures
        QueueView::empty(max).valid(),
        q.enqueue(d).valid(),
        q.start_next().valid(),
        q.finish(id).valid(),
        q.cancel(id).valid(),
        q.cancel_all().valid(),
        q.set_max_concurrent(max).valid(),
        q.set_max_concurrent(max).max_concurrent >= 1,
{
    lemma_cancel_valid(q, id);
}

/// No operation makes more jobs run than the limit allows, but lowering
/// the limit below the number of jobs that run: those are left to finish.
pub proof fn law_capacity_is_kept(q: QueueView, d: JobView, id: i32, max: nat)
    requires
        q.valid(),
        q.within_capacity(),
    ensures
        QueueView::empty(max).within_capacity(),
        q.enqueue(d).within_capacity(),
        q.start_next().within_capacity(),
        q.finish(id).within_capacity(),
        q.cancel(id).within_capacity(),
        q.cancel_all().within_capacity(),
        max >= q.running.len() ==> q.set_max_concurrent(max).within_capacity(),
{
}

proof fn lemma_cancel_valid(q: QueueView, id: i32)
    requires
        q.valid(),
    ensures
        q.cancel(id).valid(),
        !q.cancel(id).tracks(id),
        forall|other: i32| other != id ==> (q.cancel(id).is_pending(other) <==> q.is_pending(other)),
        forall|other: i32| other != id ==> (q.cancel(id).is_running(other) <==> q.is_running(other)),
        q.is_pending(id) ==> q.cancel(id).pending.len() == q.pending.len() - 1 && q.cancel(
            id,
        ).running == q.running,
        !q.is_pending(id) ==> q.cancel(id).pending == q.pending,
{
    let pred = |d: JobView| d.media_idx != id;
    let r = q.cancel(id);
    if q.is_pending(id) {
        let pos = choose|i: int| 0 <= i < q.pending.len() && (#[trigger] q.pending[i]).media_idx == id;
        crate::download_queue::lemma_filter_removes_one(q.pending, pred, pos);
        assert forall|other: i32| other != id implies (r.is_pending(other) <==> q.is_pending(
            other,
        )) by {
            if q.is_pending(other) {
                let k = choose|k: int|
                    0 <= k < q.pending.len() && (#[trigger] q.pending[k]).media_idx == other;
                let i = if k < pos { k } else { k - 1 };
                assert(r.pending[i].media_idx == other);
            }
        }
    } else {
        crate::download_queue::lemma_filter_keeps_all(q.pending, pred);
    }
}

/// However jobs with distinct ids arrive, are started and finish, beginning
/// with an empty queue: the jobs started are the first arrivals, in arrival
/// order and marked as downloading; the pending jobs are the arrivals
/// without those already started, in arrival order; and no more jobs run
/// than the limit allows.
pub proof fn law_pending_is_enqueued_minus_started(max: nat, ops: Seq<QueueOp>)
    requires
        distinct_ids(enqueued(ops)),
    ensures
        ({
            let q = run(QueueView::empty(max), ops);
            let k = started_count(QueueView::empty(max), ops);
            &&& q.valid()
            &&& k <= enqueued(ops).len()
            &&& started_jobs(QueueView::empty(max), ops) == Seq::new(
                k,
                |i: int| started(enqueued(ops)[i]),
            )
            &&& q.pending == enqueued(ops).skip(k as int)
            &&& q.running.len() <= k
            &&& q.running.len() <= q.max_concurrent
            &&& forall|id: i32| #[trigger]
                q.is_running(id) ==> has_id(enqueued(ops).take(k as int), id)
        }),
    decreases ops.len(),
{
    let q0 = QueueView::empty(max);
    let q = run(q0, ops);
    let k = started_count(q0, ops);
    let enq = enqueued(ops);
    if ops.len() > 0 {
        let prev = ops.drop_last();
        let p = run(q0, prev);
        let pk = started_count(q0, prev);
        let penq = enqueued(prev);
        assert(distinct_ids(penq)) by {
            assert forall|i: int, j: int| 0 <= i < j < penq.len() implies (
            #[trigger] penq[i]).media_idx != (#[trigger] penq[j]).media_idx by {
                assert(enq[i] == penq[i]);
                assert(enq[j] == penq[j]);
            }
        }
        law_pending_is_enqueued_minus_started(max, prev);
        match ops.last() {
            QueueOp::Enqueue(d) => {
                let n = penq.len() as int;
                assert(enq[n] == d);
                assert(!p.is_pending(d.media_idx)) by {
                    if p.is_pending(d.media_idx) {
                        let i = choose|i: int|
                            0 <= i < p.pending.len() && (#[trigger] p.pending[i]).media_idx
                                == d.media_idx;
                        assert(enq[pk + i] == penq[pk + i]);
                    }
                }
                assert forall|id: i32| #[trigger] q.is_running(id) implies has_id(
                    enq.take(k as int),
                    id,
                ) by {
                    assert(p.is_running(id));
                    let i = choose|i: int|
                        0 <= i < penq.take(pk as int).len() && (#[trigger] penq.take(
                            pk as int,
                        )[i]).media_idx == id;
                    assert(enq.take(k as int)[i].media_idx == id);
                }
            },
            QueueOp::StartNext => {
                if p.can_start() {
                    assert forall|id: i32| #[trigger] q.is_running(id) implies has_id(
                        enq.take(k as int),
                        id,
                    ) by {
                        if id == p.pending[0].media_idx {
                            assert(enq.take(k as int)[pk as int].media_idx == id);
                        } else {
                            assert(p.is_running(id));
                        }
                    }
                }
            },
            QueueOp::Finish(id) => {
                assert forall|other: i32| #[trigger] q.is_running(other) implies has_id(
                    enq.take(k as int),
                    other,
                ) by {
                    assert(p.is_running(other));
                }
            },
        }
    }
}

/// Enqueuing an id that is already pending or running changes nothing, so
/// enqueuing the same job twice is the same as enqueuing it once.
pub proof fn law_enqueue_is_idempotent(q: QueueView, d: JobView)
    requires
        q.valid(),
    ensures
        q.tracks(d.media_idx) ==> q.enqueue(d) == q,
        q.enqueue(d).tracks(d.media_idx),
        q.enqueue(d).enqueue(d) == q.enqueue(d),
        q.enqueue(d).pending.len() == q.pending.len() + if q.tracks(d.media_idx) {
            0int
        } else {
            1int
        },
        q.enqueue(d).running == q.running,
{
    let r = q.enqueue(d);
    if !q.tracks(d.media_idx) {
        assert(r.pending[q.pending.len() as int].media_idx == d.media_idx);
    }
}

/// Jobs start in arrival order: with room for one job and nothing pending,
/// of two jobs enqueued one after the other the first is started first, and
/// the second stays at the head of the pending jobs.
pub proof fn law_first_in_first_out(q: QueueView, a: JobView, b: JobView)
    requires
        q.valid(),
        q.pending.len() == 0,
        q.running.len() < q.max_concurrent,
        !q.tracks(a.media_idx),
        !q.tracks(b.media_idx),
        a.media_idx != b.media_idx,
    ensures
        q.enqueue(a).enqueue(b).next_started() == Some(started(a)),
        q.enqueue(a).enqueue(b).start_next().pending == seq![b],
{
}

/// A job that was handed out to start is no longer pending and is running.
pub proof fn law_started_job_is_running(q: QueueView)
    requires
        q.valid(),
        q.can_start(),
    ensures
        ({
            let id = q.next_started()->0.media_idx;
            &&& !q.start_next().is_pending(id)
            &&& q.start_next().is_running(id)
            &&& q.start_next().running[id] == q.next_started()->0
        }),
{
}

/// A running job stays running, and stays out of the pending jobs, through
/// every operation but a terminal call for its own id or a cancellation of
/// everything.
pub proof fn law_running_until_terminal(
    q: QueueView,
    id: i32,
    d: JobView,
    other: i32,
    max: nat,
)
    requires
        q.valid(),
        q.is_running(id),
        other != id,
    ensures
        q.enqueue(d).is_running(id) && !q.enqueue(d).is_pending(id),
        q.start_next().is_running(id) && !q.start_next().is_pending(id),
        q.finish(other).is_running(id) && !q.finish(other).is_pending(id),
        q.cancel(other).is_running(id) && !q.cancel(other).is_pending(id),
        q.set_max_concurrent(max).is_running(id) && !q.set_max_concurrent(max).is_pending(id),
        !q.finish(id).tracks(id),
        !q.cancel(id).tracks(id),
        !q.cancel_all().tracks(id),
{
    lemma_cancel_valid(q, other);
}

/// Cancelling a pending id removes exactly that job and leaves the rest in
/// order; cancelling an id that is not tracked changes nothing.
pub proof fn law_cancel(q: QueueView, id: i32)
    requires
        q.valid(),
    ensures
        !q.cancel(id).tracks(id),
        q.is_pending(id) ==> q.cancel(id).pending.len() == q.pending.len() - 1 && q.cancel(
            id,
        ).running == q.running,
        !q.tracks(id) ==> q.cancel(id) == q,
        forall|other: i32| other != id ==> (q.cancel(id).tracks(other) <==> q.tracks(other)),
{
    lemma_cancel_valid(q, id);
    if !q.tracks(id) {
        assert(q.cancel(id).running =~= q.running);
    }
}

/// After everything is cancelled nothing is pending and nothing runs, and
/// the limit is what it was.
pub proof fn law_cancel_all_empties(q: QueueView)
    ensures
        q.cancel_all().pending.len() == 0,
        q.cancel_all().running.len() == 0,
        q.cancel_all().max_concurrent == q.max_concurrent,
        forall|id: i32| !q.cancel_all().tracks(id),
{
}

/// Raising the limit above the number of running jobs lets the next pending
/// job start, with no new arrival.
pub proof fn law_raised_limit_starts_pending(q: QueueView, max: nat)
    requires
        q.valid(),
        q.pending.len() > 0,
        max > q.running.len(),
    ensures
        q.set_max_concurrent(max).can_start(),
        q.set_max_concurrent(max).next_started() == Some(started(q.pending[0])),
        q.set_max_concurrent(max).start_next().running.len() == q.running.len() + 1,
{
}

} // verus!
