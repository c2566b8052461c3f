//! The runtime topology selector: from the configured worker count to one of
//! three concurrency models, and from a model to the plan by which the
//! execution engine is constructed.
//!
//! A worker count above one provisions a real pool of exactly that many
//! worker threads. It is not advisory: `--num-threads 4` serves requests on
//! four threads in parallel, and only a worker count of one gives the single
//! cooperative worker.

use vstd::prelude::*;

verus! {

/// The concurrency model under which requests are served. It is chosen once,
/// before the listener is bound, and stays fixed for the life of the process.
#[derive(Clone, Copy, Debug, PartialEq, Eq, Structural)]
pub enum Topology {
    /// A pool of workers sized by the parallelism that the host offers. A
    /// connection may be handled on any of them.
    AutoMultiWorker,
    /// One thread serves all connections; handlers are interleaved at their
    /// I/O wait points and never run at the same time.
    SingleCooperative,
    /// A pool of exactly `workers` worker threads.
    FixedWorkers { workers: usize },
}

/// How the engine schedules handlers.
#[derive(Clone, Copy, Debug, PartialEq, Eq, Structural)]
pub enum Scheduler {
    /// Work is spread over several worker threads.
    MultiThread,
    /// All work runs on the thread that drives the engine.
    CurrentThread,
}

/// What the execution engine is built from.
#[derive(Clone, Copy, Debug, PartialEq, Eq, Structural)]
pub struct RuntimePlan {
    pub scheduler: Scheduler,
    /// Number of threads that run handlers.
    pub worker_threads: usize,
}

/// Why no execution engine can be had.
#[derive(Clone, Copy, Debug, PartialEq, Eq, Structural)]
pub enum RuntimeInitError {
    /// The topology asks for workers and there is none to be had: the host
    /// reports no usable execution unit, or the pool size is zero.
    NoExecutionUnits,
    /// The engine was asked for and could not be constructed.
    EngineUnavailable,
}

impl RuntimePlan {
    /// A plan can be carried out: it has at least one worker, and exactly one
    /// where all work runs on the current thread.
    pub open spec fn well_formed(self) -> bool {
        &&& self.worker_threads >= 1
        &&& self.scheduler == Scheduler::CurrentThread ==> self.worker_threads == 1
    }

    /// Whether the plan can be carried out.
    pub fn is_well_formed(&self) -> (b: bool)
        ensures
            b == self.well_formed(),
    {
        match self.scheduler {
            Scheduler::MultiThread => self.worker_threads >= 1,
            Scheduler::CurrentThread => self.worker_threads == 1,
        }
    }

    /// The plan has exactly one worker thread.
    pub open spec fn single_worker(self) -> bool {
        self.worker_threads == 1
    }

    /// Whether the plan has exactly one worker thread.
    pub fn is_single_worker(&self) -> (b: bool)
        ensures
            b == self.single_worker(),
    {
        self.worker_threads == 1
    }
}

/// The topology that a worker count stands for.
pub open spec fn topology_of(worker_count: usize) -> Topology {
    if worker_count == 0 {
        Topology::AutoMultiWorker
    } else if worker_count == 1 {
        Topology::SingleCooperative
    } else {
        Topology::FixedWorkers { workers: worker_count }
    }
}

/// The plan that realises `topology` on a host that offers
/// `available_parallelism` execution units (`0`: none).
///
/// Only the automatic pool looks at the host. A fixed pool of size one is a
/// pool, not the cooperative worker.
pub open spec fn planned(topology: Topology, available_parallelism: usize) -> Result<
    RuntimePlan,
    RuntimeInitError,
> {
    match topology {
        Topology::AutoMultiWorker => if available_parallelism == 0 {
            Err(RuntimeInitError::NoExecutionUnits)
        } else {
            Ok(
                RuntimePlan {
                    scheduler: Scheduler::MultiThread,
                    worker_threads: available_parallelism,
                },
            )
        },
        Topology::SingleCooperative => Ok(
            RuntimePlan { scheduler: Scheduler::CurrentThread, worker_threads: 1 },
        ),
        Topology::FixedWorkers { workers } => if workers == 0 {
            Err(RuntimeInitError::NoExecutionUnits)
        } else {
            Ok(RuntimePlan { scheduler: Scheduler::MultiThread, worker_threads: workers })
        },
    }
}

/// Interprets the worker count as the discriminator of the topology.
pub fn select_topology(worker_count: usize) -> (t: Topology)
    ensures
        t == topology_of(worker_count),
{
    match worker_count {
        0 => Topology::AutoMultiWorker,
        1 => Topology::SingleCooperative,
        n => Topology::FixedWorkers { workers: n },
    }
}

/// Lays out the execution engine for `topology`.
///
/// Fails exactly when the topology needs workers that cannot be had. Every
/// plan that is returned is well formed, so the engine is never asked for
/// zero workers.
pub fn plan_runtime(topology: Topology, available_parallelism: usize) -> (r: Result<
    RuntimePlan,
    RuntimeInitError,
>)
    ensures
        r == planned(topology, available_parallelism),
        r matches Ok(plan) ==> plan.well_formed(),
{
    match topology {
        Topology::AutoMultiWorker => {
            if available_parallelism == 0 {
                Err(RuntimeInitError::NoExecutionUnits)
            } else {
                Ok(
                    RuntimePlan {
                        scheduler: Scheduler::MultiThread,
                        worker_threads: available_parallelism,
                    },
                )
            }
        },
        Topology::SingleCooperative => Ok(
            RuntimePlan { scheduler: Scheduler::CurrentThread, worker_threads: 1 },
        ),
        Topology::FixedWorkers { workers } => {
            if workers == 0 {
                Err(RuntimeInitError::NoExecutionUnits)
            } else {
                Ok(RuntimePlan { scheduler: Scheduler::MultiThread, worker_threads: workers })
            }
        },
    }
}

/// With a worker count of one the plan is one worker thread on the current
/// thread, whatever the host offers. This is a statement on the plan; what
/// the engine built from it does at run time is tested, not proved.
pub proof fn lemma_count_one_plans_single_worker(available_parallelism: usize)
    ensures
        planned(topology_of(1), available_parallelism) == Ok::<RuntimePlan, RuntimeInitError>(
            RuntimePlan { scheduler: Scheduler::CurrentThread, worker_threads: 1 },
        ),
        planned(topology_of(1), available_parallelism)->Ok_0.single_worker(),
{
}

/// With a worker count of zero, on a host with several execution units, the
/// plan is a pool with one worker thread per unit, so with more than one.
/// This too is a statement on the plan.
pub proof fn lemma_count_zero_plans_worker_per_unit(available_parallelism: usize)
    requires
        available_parallelism >= 2,
    ensures
        planned(topology_of(0), available_parallelism) == Ok::<RuntimePlan, RuntimeInitError>(
            RuntimePlan { scheduler: Scheduler::MultiThread, worker_threads: available_parallelism },
        ),
        !planned(topology_of(0), available_parallelism)->Ok_0.single_worker(),
{
}

/// A worker count above one gives a pool of exactly that many workers,
/// whatever the host offers.
pub proof fn lemma_fixed_pool_is_exact(worker_count: usize, available_parallelism: usize)
    requires
        worker_count > 1,
    ensures
        planned(topology_of(worker_count), available_parallelism) == Ok::<
            RuntimePlan,
            RuntimeInitError,
        >(RuntimePlan { scheduler: Scheduler::MultiThread, worker_threads: worker_count }),
{
}

} // verus!
