//! The dispatcher: it owns a batch, fixes how the batch is divided among the
//! workers, hands each worker its jobs, and reports the batch complete once
//! every worker has been joined.

use vstd::prelude::*;
use vstd::slice::slice_subrange;
use crate::config::DEFAULT_WORKER_HINT;
use crate::job::CompressTask;
use crate::partition::{
    assigned,
    assigned_to_first,
    chunk_bounds,
    chunk_size,
    chunk_size_for,
    law_chunks_hold_one_job,
    law_partition_complete,
    worker_count,
    worker_count_for,
};

verus! {

/// How one worker ended, as seen by whoever joined it.
#[derive(Debug, Clone, Copy, PartialEq, Eq, Structural)]
pub enum WorkerExit {
    /// The worker went through all of its jobs.
    Finished,
    /// The worker died before the end of its jobs.
    Panicked,
}

/// A worker died: the whole dispatch has failed.
#[derive(Debug, Clone, Copy, PartialEq, Eq, Structural)]
pub struct WorkerPanic {
    /// The number of the first worker found dead, in the order of joining.
    pub worker: usize,
}

/// The hint that is in force: the one given, or the default where none is.
pub open spec fn effective_hint(hint: Option<usize>) -> nat {
    match hint {
        Some(given) => given as nat,
        None => DEFAULT_WORKER_HINT as nat,
    }
}

/// Whether every worker of `exits` went through its jobs.
pub open spec fn all_finished(exits: Seq<WorkerExit>) -> bool {
    forall|worker: int| 0 <= worker < exits.len() ==> #[trigger] exits[worker] is Finished
}

/// Whether `worker` is the first of `exits` that died.
pub open spec fn first_panic(exits: Seq<WorkerExit>, worker: int) -> bool {
    &&& 0 <= worker < exits.len()
    &&& exits[worker] is Panicked
    &&& forall|earlier: int| 0 <= earlier < worker ==> #[trigger] exits[earlier] is Finished
}

/// A batch together with the way it is divided among the workers.
///
/// The batch is never changed after the dispatcher is made, so the workers
/// may all read it at once.
pub struct Dispatcher {
    jobs: Vec<CompressTask>,
    workers: usize,
    chunk: usize,
}

impl Dispatcher {
    /// There is at least one worker, there are at least as many workers as
    /// jobs, and the chunk size is the one that belongs to the two counts.
    #[verifier::type_invariant]
    pub closed spec fn well_formed(&self) -> bool {
        &&& self.workers > 0
        &&& self.workers >= self.jobs@.len()
        &&& self.chunk == chunk_size_for(self.jobs@.len(), self.workers as nat)
    }

    /// The batch, in the order it was submitted.
    pub closed spec fn batch(&self) -> Seq<CompressTask> {
        self.jobs@
    }

    /// The number of workers.
    pub closed spec fn workers(&self) -> nat {
        self.workers as nat
    }

    /// The number of consecutive jobs that make up one worker's share.
    pub closed spec fn chunk(&self) -> nat {
        self.chunk as nat
    }

    /// The jobs of `worker`.
    pub open spec fn assignment_of(&self, worker: nat) -> Seq<CompressTask> {
        assigned(self.batch(), self.chunk(), worker)
    }

    /// Partition completeness: the jobs of all workers, put one after the
    /// other in the order of the workers, are the batch itself. No job is left
    /// out, and none is given to two workers.
    pub proof fn law_assignments_cover_batch(&self)
        requires
            self.well_formed(),
        ensures
            assigned_to_first(self.batch(), self.chunk(), self.workers()) == self.batch(),
    {
        law_partition_complete(self.batch(), self.workers());
    }

    /// No worker of a dispatcher is given more than one job.
    pub proof fn law_assignments_hold_one_job(&self, worker: nat)
        requires
            self.well_formed(),
        ensures
            self.assignment_of(worker).len() <= 1,
    {
        law_chunks_hold_one_job(self.workers(), self.batch().len());
        assert(worker * self.chunk() + self.chunk() == (worker + 1) * self.chunk())
            by (nonlinear_arith);
    }

    /// Takes a batch and fixes its division among the workers.
    ///
    /// The worker count is the larger of the hint in force and the number of
    /// jobs; the chunk size follows from the two.
    pub fn new(jobs: Vec<CompressTask>, hint: Option<usize>) -> (dispatcher: Dispatcher)
        requires
            hint != Some(0usize),
        ensures
            dispatcher.well_formed(),
            dispatcher.batch() == jobs@,
            dispatcher.workers() == worker_count_for(effective_hint(hint), jobs@.len()),
            dispatcher.chunk() == chunk_size_for(jobs@.len(), dispatcher.workers()),
    {
        let hint = match hint {
            Some(given) => given,
            None => DEFAULT_WORKER_HINT,
        };
        let workers = worker_count(hint, jobs.len());
        let chunk = chunk_size(jobs.len(), workers);
        Dispatcher { jobs, workers, chunk }
    }

    /// The number of jobs in the batch.
    pub fn job_count(&self) -> (count: usize)
        ensures
            count == self.batch().len(),
    {
        self.jobs.len()
    }

    /// The number of workers to run.
    pub fn worker_count(&self) -> (count: usize)
        ensures
            count == self.workers(),
    {
        self.workers
    }

    /// The chunk size.
    pub fn chunk_size(&self) -> (size: usize)
        ensures
            size == self.chunk(),
    {
        self.chunk
    }

    /// The jobs of `worker`, in the order of the batch.
    ///
    /// A worker whose share would begin past the end of the batch is given
    /// the empty slice.
    pub fn assignment(&self, worker: usize) -> (jobs: &[CompressTask])
        ensures
            jobs@ == self.assignment_of(worker as nat),
    {
        let (start, end) = chunk_bounds(self.jobs.len(), self.chunk, worker);
        slice_subrange(self.jobs.as_slice(), start, end)
    }

    /// Concludes the dispatch from the way each worker ended, in the order
    /// of joining.
    ///
    /// When every worker finished, the result is the number of jobs in the
    /// batch, whatever became of the single files. When a worker died, the
    /// dispatch fails with the first such worker.
    pub fn join(&self, exits: &Vec<WorkerExit>) -> (result: Result<usize, WorkerPanic>)
        requires
            exits@.len() == self.workers(),
        ensures
            match result {
                Ok(count) => count == self.batch().len() && all_finished(exits@),
                Err(panic) => first_panic(exits@, panic.worker as int),
            },
    {
        let mut worker: usize = 0;
        while worker < exits.len()
            invariant
                worker <= exits@.len(),
                forall|earlier: int| 0 <= earlier < worker ==> #[trigger] exits@[earlier] is Finished,
            decreases exits@.len() - worker,
        {
            match exits[worker] {
                WorkerExit::Finished => {},
                WorkerExit::Panicked => {
                    return Err(WorkerPanic { worker });
                },
            }
            worker = worker + 1;
        }
        Ok(self.jobs.len())
    }
}

} // verus!
