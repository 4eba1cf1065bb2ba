//! The bounded-concurrency download schedule: tasks are partitioned into
//! chunks of at most the concurrency limit, preserving their original order
//! across chunks. The surrounding program runs each chunk's tasks
//! concurrently and waits for the whole chunk before starting the next — a
//! hard barrier, so at most one chunk's worth of requests is ever in flight.
//! A failing task carries its own error and never disturbs its siblings; the
//! per-chunk results are glued back together in the original task order.

use vstd::prelude::*;
use crate::naming::DownloadTask;

verus! {

/// Why one download task failed. Per-item conditions: they are reported in
/// the aggregated result list and never escalate past it.
#[derive(Debug, Clone, Copy, PartialEq, Eq, Structural)]
pub enum DownloadError {
    RequestFailed,
    FileCreateFailed,
    BodyReadFailed,
}

/// The outcome of one download task.
pub type TaskResult = Result<(), DownloadError>;

/// The partition of `ts` into chunks of `limit` tasks, in order, the last
/// chunk holding the remainder.
pub open spec fn chunks_of(ts: Seq<DownloadTask>, limit: int) -> Seq<Seq<DownloadTask>>
    decreases ts.len()
        when limit >= 1
{
    if ts.len() == 0 {
        Seq::<Seq<DownloadTask>>::empty()
    } else if ts.len() <= limit {
        seq![ts]
    } else {
        seq![ts.subrange(0, limit)] + chunks_of(ts.subrange(limit, ts.len() as int), limit)
    }
}

/// Partitions the tasks into chunks of at most `limit`, preserving the
/// original order across chunks.
pub fn chunk_tasks(tasks: Vec<DownloadTask>, limit: usize) -> (r: Vec<Vec<DownloadTask>>)
    requires
        limit >= 1,
    ensures
        r@.map_values(|c: Vec<DownloadTask>| c@) == chunks_of(tasks@, limit as int),
{
    let ghost orig = tasks@;
    let mut rest = tasks;
    let mut out: Vec<Vec<DownloadTask>> = Vec::new();
    while rest.len() > 0
        invariant
            limit >= 1,
            orig == tasks@,
            chunks_of(orig, limit as int) == out@.map_values(|c: Vec<DownloadTask>| c@)
                + chunks_of(rest@, limit as int),
        decreases rest@.len(),
    {
        let ghost before = rest@;
        if rest.len() > limit {
            let tail = rest.split_off(limit);
            out.push(rest);
            proof {
                assert(out@.map_values(|c: Vec<DownloadTask>| c@)
                    =~= out@.drop_last().map_values(|c: Vec<DownloadTask>| c@).push(
                    before.subrange(0, limit as int),
                ));
                assert(out@.drop_last() =~= out@.subrange(0, out@.len() - 1));
                assert(chunks_of(before, limit as int) == seq![
                    before.subrange(0, limit as int),
                ] + chunks_of(tail@, limit as int));
                assert(out@.map_values(|c: Vec<DownloadTask>| c@) + chunks_of(tail@, limit as int)
                    =~= chunks_of(orig, limit as int));
            }
            rest = tail;
        } else {
            out.push(rest);
            proof {
                assert(chunks_of(before, limit as int) == seq![before]);
                assert(out@.map_values(|c: Vec<DownloadTask>| c@) =~= chunks_of(
                    orig,
                    limit as int,
                ));
            }
            rest = Vec::new();
        }
    }
    proof {
        assert(out@.map_values(|c: Vec<DownloadTask>| c@) + chunks_of(rest@, limit as int)
            =~= out@.map_values(|c: Vec<DownloadTask>| c@));
    }
    out
}

/// Bounded concurrency: the partition forms exactly the rounded-up quotient
/// of tasks over the limit as chunks; every chunk stays within the limit;
/// every chunk but the last is full; and re-concatenating the chunks gives
/// back exactly the original tasks in their original order — so results can
/// be reported positionally and at most `limit` tasks are in flight between
/// two barriers.
pub proof fn lemma_chunk_properties(ts: Seq<DownloadTask>, limit: int)
    requires
        limit >= 1,
    ensures
        chunks_of(ts, limit).len() == (ts.len() + limit - 1) / limit,
        forall|j: int|
            0 <= j < chunks_of(ts, limit).len() ==> (#[trigger] chunks_of(ts, limit)[j]).len()
                <= limit,
        forall|j: int|
            0 <= j < chunks_of(ts, limit).len() - 1 ==> (#[trigger] chunks_of(ts, limit)[j]).len()
                == limit,
        chunks_of(ts, limit).flatten() == ts,
    decreases ts.len(),
{
    if ts.len() == 0 {
        assert(chunks_of(ts, limit).flatten() =~= ts);
        assert((ts.len() + limit - 1) / limit == 0) by (nonlinear_arith)
            requires
                limit >= 1,
                ts.len() == 0,
        ;
    } else if ts.len() <= limit {
        assert((ts.len() + limit - 1) / limit == 1) by (nonlinear_arith)
            requires
                limit >= 1,
                1 <= ts.len() <= limit,
        ;
        assert(seq![ts].drop_first() =~= Seq::<Seq<DownloadTask>>::empty());
        assert(Seq::<Seq<DownloadTask>>::empty().flatten() == Seq::<DownloadTask>::empty());
        assert(chunks_of(ts, limit).flatten() =~= ts);
    } else {
        let head = ts.subrange(0, limit);
        let tail = ts.subrange(limit, ts.len() as int);
        lemma_chunk_properties(tail, limit);
        assert((ts.len() + limit - 1) / limit == (tail.len() + limit - 1) / limit + 1)
            by (nonlinear_arith)
            requires
                limit >= 1,
                ts.len() > limit,
                tail.len() == ts.len() - limit,
        ;
        let rec = chunks_of(tail, limit);
        assert(chunks_of(ts, limit).drop_first() =~= rec);
        assert(chunks_of(ts, limit).flatten() == head + rec.flatten());
        assert(head + tail =~= ts);
        assert(forall|j: int|
            0 <= j < chunks_of(ts, limit).len() - 1 ==> (#[trigger] chunks_of(ts, limit)[j]).len()
                == limit) by {
            assert(forall|j: int|
                1 <= j < chunks_of(ts, limit).len() ==> chunks_of(ts, limit)[j]
                    == #[trigger] rec[j - 1]);
        }
    }
}

/// Glues the per-chunk result lists back together, preserving the original
/// task order across chunks for caller-side diagnostics.
pub fn aggregate_results(chunk_results: Vec<Vec<TaskResult>>) -> (r: Vec<TaskResult>)
    ensures
        r@ == chunk_results@.map_values(|c: Vec<TaskResult>| c@).flatten(),
{
    let ghost orig = chunk_results@;
    let mut rest = chunk_results;
    let mut out: Vec<TaskResult> = Vec::new();
    while rest.len() > 0
        invariant
            orig == chunk_results@,
            orig.map_values(|c: Vec<TaskResult>| c@).flatten() == out@ + rest@.map_values(
                |c: Vec<TaskResult>| c@,
            ).flatten(),
        decreases rest@.len(),
    {
        let ghost before = rest@;
        let mut chunk = rest.remove(0);
        out.append(&mut chunk);
        proof {
            let mapped = before.map_values(|c: Vec<TaskResult>| c@);
            assert(mapped.drop_first() =~= before.remove(0).map_values(|c: Vec<TaskResult>| c@));
            assert(mapped.flatten() == mapped.first() + mapped.drop_first().flatten());
            assert(orig.map_values(|c: Vec<TaskResult>| c@).flatten() =~= out@ + rest@.map_values(
                |c: Vec<TaskResult>| c@,
            ).flatten());
        }
    }
    proof {
        assert(orig.map_values(|c: Vec<TaskResult>| c@).flatten() =~= out@);
    }
    out
}

} // verus!
