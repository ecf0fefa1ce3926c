//! What holds of the orchestrator's decisions taken together: the store and
//! the process table stay in step, destination keys are freed by a stop, and
//! a stop leaves nothing for a late timer or the reconciliation loop to undo.
use vstd::prelude::*;
use crate::manager::{
    JobState, ProcessEntry, Refusal, StoreOp, apply_op, apply_ops, dead_ops, failed_start_ops,
    finish_ops, key_clash, start_ops, start_refusal, stopping_ops,
};
use crate::scheduler::TimerState;
use crate::types::{Stream, StreamStatus};

verus! {

/// Every stored job is `Live` exactly when it has a live process.
pub open spec fn in_step<P>(m: Map<Seq<char>, JobState>, procs: Map<Seq<char>, ProcessEntry<P>>) -> bool {
    forall|id: Seq<char>| #[trigger] m.contains_key(id)
        ==> (m[id].status == StreamStatus::Live <==> procs.contains_key(id))
}

proof fn lemma_apply_first(m: Map<Seq<char>, JobState>, op: StoreOp, rest: Seq<StoreOp>)
    ensures
        apply_ops(m, seq![op] + rest) == apply_ops(apply_op(m, op), rest),
{
    let s = seq![op] + rest;
    assert(s[0] == op);
    assert(s.drop_first() =~= rest);
}

proof fn lemma_apply_concat(m: Map<Seq<char>, JobState>, a: Seq<StoreOp>, b: Seq<StoreOp>)
    ensures
        apply_ops(m, a + b) == apply_ops(apply_ops(m, a), b),
    decreases a.len(),
{
    if a.len() == 0 {
        assert(a + b =~= b);
    } else {
        assert((a + b)[0] == a[0]);
        assert((a + b).drop_first() =~= a.drop_first() + b);
        lemma_apply_concat(apply_op(m, a[0]), a.drop_first(), b);
    }
}

proof fn lemma_apply_two(m: Map<Seq<char>, JobState>, x: StoreOp, y: StoreOp)
    ensures
        apply_ops(m, seq![x, y]) == apply_op(apply_op(m, x), y),
{
    assert(seq![x, y] =~= seq![x] + seq![y]);
    lemma_apply_first(m, x, seq![y]);
    assert(seq![y] =~= seq![y] + Seq::<StoreOp>::empty());
    lemma_apply_first(apply_op(m, x), y, Seq::<StoreOp>::empty());
}

proof fn lemma_apply_three(m: Map<Seq<char>, JobState>, x: StoreOp, y: StoreOp, z: StoreOp)
    ensures
        apply_ops(m, seq![x, y, z]) == apply_op(apply_op(apply_op(m, x), y), z),
{
    assert(seq![x, y, z] =~= seq![x] + seq![y, z]);
    lemma_apply_first(m, x, seq![y, z]);
    lemma_apply_two(apply_op(m, x), y, z);
}

/// The writes that close a stop give the job `status` and, where a process
/// ran, its run length; the other jobs keep their state.
proof fn lemma_finish(m: Map<Seq<char>, JobState>, id: String, status: StreamStatus, elapsed: Option<u64>)
    ensures
        apply_ops(m, finish_ops(id, status, elapsed)).dom() == m.dom(),
        m.contains_key(id@) ==> apply_ops(m, finish_ops(id, status, elapsed))[id@].status == status,
        m.contains_key(id@) && elapsed is Some ==> apply_ops(m, finish_ops(id, status, elapsed))[id@].last_elapsed == elapsed,
        forall|k: Seq<char>| k != id@ && #[trigger] m.contains_key(k)
            ==> apply_ops(m, finish_ops(id, status, elapsed))[k] == m[k],
{
    let a = StoreOp::SetStatus(id, status);
    let b = StoreOp::MarkStopped(id);
    match elapsed {
        Some(e) => {
            assert(finish_ops(id, status, elapsed) =~= seq![a, b, StoreOp::SetLastElapsed(id, e)]);
            lemma_apply_three(m, a, b, StoreOp::SetLastElapsed(id, e));
        },
        None => {
            assert(finish_ops(id, status, elapsed) =~= seq![a, b]);
            lemma_apply_two(m, a, b);
        },
    }
    assert(apply_ops(m, finish_ops(id, status, elapsed)).dom() =~= m.dom());
}

/// A confirmed start keeps the store and the process table in step: the job
/// becomes `Live` as its process enters the table.
pub proof fn lemma_start_keeps_step<P>(
    m: Map<Seq<char>, JobState>,
    procs: Map<Seq<char>, ProcessEntry<P>>,
    id: String,
    entry: ProcessEntry<P>,
)
    requires
        in_step(m, procs),
        m.contains_key(id@),
        m[id@].status != StreamStatus::Live,
    ensures
        in_step(apply_ops(m, start_ops(id)), procs.insert(id@, entry)),
        apply_ops(m, start_ops(id))[id@].status == StreamStatus::Live,
{
    lemma_apply_two(m, StoreOp::SetStatus(id, StreamStatus::Live), StoreOp::MarkStarted(id));
    let m2 = apply_ops(m, start_ops(id));
    assert(m2.dom() =~= m.dom());
}

/// A start whose process died within the grace window keeps the two in
/// step: the process leaves the table and the job becomes `Error`.
pub proof fn lemma_failed_start_keeps_step<P>(
    m: Map<Seq<char>, JobState>,
    procs: Map<Seq<char>, ProcessEntry<P>>,
    id: String,
    entry: ProcessEntry<P>,
)
    requires
        in_step(m, procs),
        m.contains_key(id@),
        m[id@].status != StreamStatus::Live,
    ensures
        in_step(apply_ops(m, failed_start_ops(id)), procs.insert(id@, entry).remove(id@)),
        apply_ops(m, failed_start_ops(id))[id@].status == StreamStatus::Error,
{
    let op = StoreOp::SetStatus(id, StreamStatus::Error);
    assert(failed_start_ops(id) =~= seq![op] + Seq::<StoreOp>::empty());
    lemma_apply_first(m, op, Seq::<StoreOp>::empty());
    assert(!procs.contains_key(id@));
    let m2 = apply_ops(m, failed_start_ops(id));
    assert(m2.dom() =~= m.dom());
}

/// A requested stop keeps the two in step: once its writes are made the job
/// is `Completed`, with its run length where a process ran, and has no process.
pub proof fn lemma_stop_keeps_step<P>(
    m: Map<Seq<char>, JobState>,
    procs: Map<Seq<char>, ProcessEntry<P>>,
    id: String,
    elapsed: Option<u64>,
)
    requires
        in_step(m, procs),
    ensures
        in_step(apply_ops(m, stopping_ops(id) + finish_ops(id, StreamStatus::Completed, elapsed)), procs.remove(id@)),
        m.contains_key(id@) ==> apply_ops(m, stopping_ops(id) + finish_ops(id, StreamStatus::Completed, elapsed))[id@].status
            == StreamStatus::Completed,
{
    let op = StoreOp::SetStatus(id, StreamStatus::Stopping);
    assert(stopping_ops(id) =~= seq![op]);
    lemma_apply_first(m, op, finish_ops(id, StreamStatus::Completed, elapsed));
    let m1 = apply_op(m, op);
    assert(m1.dom() =~= m.dom());
    lemma_finish(m1, id, StreamStatus::Completed, elapsed);
}

/// A process that exited on its own, once reconciled, leaves the two in
/// step: the job becomes `Error` and its run length is recorded.
pub proof fn lemma_reap_keeps_step<P>(
    m: Map<Seq<char>, JobState>,
    procs: Map<Seq<char>, ProcessEntry<P>>,
    id: String,
    elapsed: u64,
)
    requires
        in_step(m, procs),
    ensures
        in_step(apply_ops(m, dead_ops(id, elapsed)), procs.remove(id@)),
        m.contains_key(id@) ==> apply_ops(m, dead_ops(id, elapsed))[id@].status == StreamStatus::Error,
        m.contains_key(id@) ==> apply_ops(m, dead_ops(id, elapsed))[id@].last_elapsed == Some(elapsed),
{
    assert(dead_ops(id, elapsed) =~= finish_ops(id, StreamStatus::Error, Some(elapsed)));
    lemma_finish(m, id, StreamStatus::Error, Some(elapsed));
}

/// Deleting a `Live` job stops it first: afterwards it has no process and
/// no record, and the two stay in step.
pub proof fn lemma_delete_live<P>(
    m: Map<Seq<char>, JobState>,
    procs: Map<Seq<char>, ProcessEntry<P>>,
    id: String,
    elapsed: Option<u64>,
)
    requires
        in_step(m, procs),
        m.contains_key(id@),
        m[id@].status == StreamStatus::Live,
    ensures
        procs.contains_key(id@),
        ({
            let ops = stopping_ops(id) + finish_ops(id, StreamStatus::Completed, elapsed) + seq![StoreOp::Delete(id)];
            &&& !apply_ops(m, ops).contains_key(id@)
            &&& !procs.remove(id@).contains_key(id@)
            &&& in_step(apply_ops(m, ops), procs.remove(id@))
        }),
{
    let stop = stopping_ops(id) + finish_ops(id, StreamStatus::Completed, elapsed);
    lemma_stop_keeps_step(m, procs, id, elapsed);
    lemma_apply_concat(m, stop, seq![StoreOp::Delete(id)]);
    let m1 = apply_ops(m, stop);
    assert(seq![StoreOp::Delete(id)] =~= seq![StoreOp::Delete(id)] + Seq::<StoreOp>::empty());
    lemma_apply_first(m1, StoreOp::Delete(id), Seq::<StoreOp>::empty());
}

/// While a job with destination key `key` has a live process, another job
/// with that key is refused; once the first has stopped and no other job
/// with the key is live, the start goes ahead.
pub proof fn lemma_key_freed_by_stop(first: Stream, second: Stream, all: Seq<Stream>, live: Set<Seq<char>>)
    requires
        first.id@ != second.id@,
        first.youtube_key@ == second.youtube_key@,
        all.contains(first),
        second.status != StreamStatus::Live,
        live.contains(first.id@),
        forall|i: int| 0 <= i < all.len() && all[i].id@ != first.id@ && all[i].id@ != second.id@
            && all[i].youtube_key@ == second.youtube_key@ ==> !(#[trigger] live.contains(all[i].id@)),
    ensures
        start_refusal(second.id@, Some(second), all, live) == Some(Refusal::DuplicateKey),
        start_refusal(second.id@, Some(second), all, live.remove(first.id@)) is None,
{
    let i = choose|i: int| 0 <= i < all.len() && all[i] == first;
    assert(live.contains(all[i].id@));
    assert(key_clash(second.id@, second.youtube_key@, all, live));
    if key_clash(second.id@, second.youtube_key@, all, live.remove(first.id@)) {
        let j = choose|j: int| 0 <= j < all.len() && all[j].id@ != second.id@
            && all[j].youtube_key@ == second.youtube_key@ && #[trigger] live.remove(first.id@).contains(all[j].id@);
        assert(live.contains(all[j].id@));
    }
}

/// After a requested stop of job `id`, its timer is gone and so is its
/// process: a timer firing late finds nothing to stop, and the job's status
/// is set once, to `Completed`.
pub proof fn lemma_stop_then_late_timer<P>(
    m: Map<Seq<char>, JobState>,
    procs: Map<Seq<char>, ProcessEntry<P>>,
    timers: Map<Seq<char>, TimerState>,
    id: String,
    elapsed: Option<u64>,
)
    requires
        in_step(m, procs),
    ensures
        !timers.remove(id@).contains_key(id@),
        !procs.remove(id@).contains_key(id@),
        m.contains_key(id@) ==> apply_ops(m, stopping_ops(id) + finish_ops(id, StreamStatus::Completed, elapsed))[id@].status
            == StreamStatus::Completed,
{
    lemma_stop_keeps_step(m, procs, id, elapsed);
}

} // verus!
