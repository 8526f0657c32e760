//! How a batch is divided among workers.
//!
//! The worker count is the larger of the hint and the number of jobs. The
//! chunk size is the number of jobs divided by the worker count, rounded up.
//! Worker `w` is given the `w`-th run of `chunk` consecutive jobs, cut off at
//! the end of the batch; a worker past the last run is given nothing.

use vstd::prelude::*;

verus! {

/// The effective worker count: the larger of the hint and the number of jobs.
///
/// A batch with more jobs than the hint raises the count to the number of
/// jobs; a smaller batch leaves it at the hint.
pub open spec fn worker_count_for(hint: nat, jobs: nat) -> nat {
    if hint >= jobs {
        hint
    } else {
        jobs
    }
}

/// The chunk size: `jobs / workers`, rounded up.
pub open spec fn chunk_size_for(jobs: nat, workers: nat) -> nat
    recommends
        workers > 0,
{
    ((jobs + workers - 1) / (workers as int)) as nat
}

/// Where the jobs of `worker` begin: `worker * chunk`, but never past the end
/// of the batch.
pub open spec fn chunk_start(jobs: nat, chunk: nat, worker: nat) -> nat {
    if worker * chunk <= jobs {
        worker * chunk
    } else {
        jobs
    }
}

/// Where the jobs of `worker` end: where those of the next worker begin.
pub open spec fn chunk_end(jobs: nat, chunk: nat, worker: nat) -> nat {
    chunk_start(jobs, chunk, worker + 1)
}

/// The jobs of `worker`: the part of the batch between its two bounds.
pub open spec fn assigned<T>(batch: Seq<T>, chunk: nat, worker: nat) -> Seq<T> {
    batch.subrange(
        chunk_start(batch.len(), chunk, worker) as int,
        chunk_end(batch.len(), chunk, worker) as int,
    )
}

/// The jobs of the first `workers` workers, one worker after the other.
pub open spec fn assigned_to_first<T>(batch: Seq<T>, chunk: nat, workers: nat) -> Seq<T>
    decreases workers,
{
    if workers == 0 {
        Seq::empty()
    } else {
        assigned_to_first(batch, chunk, (workers - 1) as nat) + assigned(
            batch,
            chunk,
            (workers - 1) as nat,
        )
    }
}

/// The chunk size is the ceiling of `jobs / workers`: the least count that,
/// given to every worker, covers the batch.
pub proof fn law_chunk_size_is_ceiling(jobs: nat, workers: nat)
    requires
        workers > 0,
    ensures
        (chunk_size_for(jobs, workers) - 1) * workers < jobs <= chunk_size_for(jobs, workers)
            * workers,
{
    let chunk = (jobs + workers - 1) / (workers as int);
    assert((chunk - 1) * workers < jobs <= chunk * workers) by (nonlinear_arith)
        requires
            workers > 0,
            jobs >= 0,
            chunk == (jobs + workers - 1) / (workers as int),
    ;
    assert(chunk >= 0) by (nonlinear_arith)
        requires
            workers > 0,
            (chunk - 1) * workers < jobs,
            chunk * workers >= jobs,
            jobs >= 0,
    ;
}

/// Under the worker-count rule no worker is given more than one job: the
/// chunk size is 1 for every batch that is not empty, and 0 for the empty one.
pub proof fn law_chunks_hold_one_job(hint: nat, jobs: nat)
    requires
        hint > 0,
    ensures
        chunk_size_for(jobs, worker_count_for(hint, jobs)) == (if jobs == 0 {
            0nat
        } else {
            1nat
        }),
{
    let workers = worker_count_for(hint, jobs);
    let chunk = chunk_size_for(jobs, workers);
    law_chunk_size_is_ceiling(jobs, workers);
    assert(chunk <= 1) by (nonlinear_arith)
        requires
            (chunk - 1) * workers < jobs,
            workers >= jobs,
            workers > 0,
    ;
    assert(jobs > 0 ==> chunk > 0) by (nonlinear_arith)
        requires
            jobs <= chunk * workers,
            workers > 0,
    ;
    assert(jobs == 0 ==> chunk == 0) by (nonlinear_arith)
        requires
            (chunk - 1) * workers < jobs,
            workers > 0,
            chunk >= 0,
    ;
}

/// The bounds of the workers never decrease from one worker to the next, and
/// never leave the batch.
pub proof fn lemma_bounds_ordered(jobs: nat, chunk: nat, worker: nat)
    ensures
        chunk_start(jobs, chunk, worker) <= chunk_end(jobs, chunk, worker) <= jobs,
{
    assert(worker * chunk <= (worker + 1) * chunk) by (nonlinear_arith);
}

/// The jobs of the first `workers` workers are the batch up to where the next
/// worker begins.
pub proof fn lemma_first_workers_take_prefix<T>(batch: Seq<T>, chunk: nat, workers: nat)
    ensures
        assigned_to_first(batch, chunk, workers) == batch.take(
            chunk_start(batch.len(), chunk, workers) as int,
        ),
    decreases workers,
{
    if workers == 0 {
        assert(0 * chunk == 0);
        assert(batch.take(0) =~= Seq::<T>::empty());
    } else {
        let before = (workers - 1) as nat;
        lemma_first_workers_take_prefix(batch, chunk, before);
        lemma_bounds_ordered(batch.len(), chunk, before);
        let start = chunk_start(batch.len(), chunk, before) as int;
        let end = chunk_end(batch.len(), chunk, before) as int;
        assert(batch.take(start) + batch.subrange(start, end) =~= batch.take(end));
    }
}

/// Partition completeness: whatever the batch and the worker count, the
/// slices of all workers, put one after the other, are the batch itself, so
/// no job is left out and none is given twice.
pub proof fn law_partition_complete<T>(batch: Seq<T>, workers: nat)
    requires
        workers > 0,
    ensures
        assigned_to_first(batch, chunk_size_for(batch.len(), workers), workers) == batch,
{
    let chunk = chunk_size_for(batch.len(), workers);
    law_chunk_size_is_ceiling(batch.len(), workers);
    lemma_first_workers_take_prefix(batch, chunk, workers);
    assert(workers * chunk == chunk * workers) by (nonlinear_arith);
    assert(batch.take(batch.len() as int) =~= batch);
}

/// Every job belongs to exactly one worker, the one whose number is the
/// job's position divided by the chunk size, and that worker exists.
pub proof fn law_each_job_has_one_worker(jobs: nat, workers: nat, job: nat)
    requires
        workers > 0,
        job < jobs,
    ensures
        chunk_size_for(jobs, workers) > 0,
        job / chunk_size_for(jobs, workers) < workers,
        forall|worker: nat|
            (#[trigger] chunk_start(jobs, chunk_size_for(jobs, workers), worker) <= job
                < chunk_end(jobs, chunk_size_for(jobs, workers), worker)) <==> worker == job
                / chunk_size_for(jobs, workers),
{
    let chunk = chunk_size_for(jobs, workers);
    law_chunk_size_is_ceiling(jobs, workers);
    assert(chunk > 0) by (nonlinear_arith)
        requires
            jobs <= chunk * workers,
            jobs > 0,
            workers > 0,
    ;
    let owner = job / chunk;
    assert(owner * chunk <= job < (owner + 1) * chunk) by (nonlinear_arith)
        requires
            chunk > 0,
            job >= 0,
            owner == job / chunk,
    ;
    assert(owner < workers) by (nonlinear_arith)
        requires
            owner * chunk <= job,
            job < jobs,
            jobs <= chunk * workers,
            chunk > 0,
    ;
    assert forall|worker: nat|
        (#[trigger] chunk_start(jobs, chunk, worker) <= job < chunk_end(jobs, chunk, worker))
            <==> worker == owner by {
        if worker < owner {
            assert((worker + 1) * chunk <= owner * chunk) by (nonlinear_arith)
                requires
                    worker + 1 <= owner,
                    chunk > 0,
            ;
        } else if worker > owner {
            assert((owner + 1) * chunk <= worker * chunk) by (nonlinear_arith)
                requires
                    owner + 1 <= worker,
                    chunk > 0,
            ;
        }
    }
}

/// Computes the effective worker count.
pub fn worker_count(hint: usize, jobs: usize) -> (workers: usize)
    ensures
        workers == worker_count_for(hint as nat, jobs as nat),
        workers >= hint,
        workers >= jobs,
{
    if hint >= jobs {
        hint
    } else {
        jobs
    }
}

/// Computes the chunk size for a batch of `jobs` jobs and `workers` workers.
pub fn chunk_size(jobs: usize, workers: usize) -> (chunk: usize)
    requires
        workers > 0,
    ensures
        chunk == chunk_size_for(jobs as nat, workers as nat),
        (chunk - 1) * workers < jobs <= chunk * workers,
{
    let whole = jobs / workers;
    let rest = jobs % workers;
    proof {
        law_chunk_size_is_ceiling(jobs as nat, workers as nat);
        let ceiling = chunk_size_for(jobs as nat, workers as nat);
        assert(rest == 0 ==> ceiling == whole) by (nonlinear_arith)
            requires
                workers > 0,
                whole == jobs / workers,
                rest == jobs % workers,
                (ceiling - 1) * workers < jobs <= ceiling * workers,
        ;
        assert(rest != 0 ==> ceiling == whole + 1) by (nonlinear_arith)
            requires
                workers > 0,
                whole == jobs / workers,
                rest == jobs % workers,
                (ceiling - 1) * workers < jobs <= ceiling * workers,
        ;
        assert(ceiling <= jobs) by (nonlinear_arith)
            requires
                workers > 0,
                (ceiling - 1) * workers < jobs,
                ceiling >= 0,
                jobs >= 0,
        ;
    }
    if rest == 0 {
        whole
    } else {
        whole + 1
    }
}

/// Computes the bounds of the jobs of `worker` in a batch of `jobs` jobs
/// divided into chunks of `chunk`.
pub fn chunk_bounds(jobs: usize, chunk: usize, worker: usize) -> (bounds: (usize, usize))
    ensures
        bounds.0 == chunk_start(jobs as nat, chunk as nat, worker as nat),
        bounds.1 == chunk_end(jobs as nat, chunk as nat, worker as nat),
        bounds.0 <= bounds.1 <= jobs,
{
    proof {
        lemma_bounds_ordered(jobs as nat, chunk as nat, worker as nat);
    }
    if chunk == 0 {
        assert(worker * chunk == 0 && (worker + 1) * chunk == 0) by (nonlinear_arith)
            requires
                chunk == 0,
        ;
        return (0, 0);
    }
    let full = jobs / chunk;
    if worker > full {
        assert(worker * chunk > jobs) by (nonlinear_arith)
            requires
                chunk > 0,
                full == jobs / chunk,
                worker > full,
        ;
        return (jobs, jobs);
    }
    assert(worker * chunk <= jobs) by (nonlinear_arith)
        requires
            chunk > 0,
            full == jobs / chunk,
            worker <= full,
            jobs >= 0,
    ;
    let start = worker * chunk;
    assert((worker + 1) * chunk == start + chunk) by (nonlinear_arith)
        requires
            start == worker * chunk,
    ;
    let end = if jobs - start >= chunk {
        start + chunk
    } else {
        jobs
    };
    (start, end)
}

} // verus!
