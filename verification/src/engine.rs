//! From a runtime plan to a configured builder of the execution engine.
//!
//! The engine is tokio's runtime. This module chooses the scheduler and the
//! number of worker threads on tokio's builder; constructing the runtime from
//! the builder, which starts threads and opens the I/O driver, is left to the
//! program.
//!
//! Verus cannot look into a builder. Three names stand for the settings of a
//! builder that matter here, and the contracts of tokio's functions say how
//! each call sets them, as tokio's source shows it. On these rests what
//! `configure` states of the builder it returns.

use crate::topology::{planned, topology_of, RuntimePlan, Scheduler};
use tokio::runtime::Builder;
use vstd::prelude::*;

verus! {

/// tokio's runtime builder. Nothing of what it holds is visible here.
#[verifier::external_type_specification]
#[verifier::external_body]
pub struct ExBuilder(Builder);

/// Whether the multi-thread scheduler is selected on `builder`, and not the
/// current-thread one.
pub uninterp spec fn builder_is_pool(builder: Builder) -> bool;

/// The number of worker threads that was set on `builder`; `None` while none
/// was set.
pub uninterp spec fn builder_worker_threads(builder: Builder) -> Option<usize>;

/// Whether the I/O driver and the time driver are switched on in `builder`,
/// each as far as tokio was built with it.
pub uninterp spec fn builder_drivers_enabled(builder: Builder) -> bool;

/// `Builder::new_multi_thread` returns a builder with the multi-thread
/// scheduler selected and no number of worker threads set.
pub assume_specification[ Builder::new_multi_thread ]() -> (builder: Builder)
    ensures
        builder_is_pool(builder),
        builder_worker_threads(builder) is None,
;

/// `Builder::new_current_thread` returns a builder with the current-thread
/// scheduler selected and no number of worker threads set.
pub assume_specification[ Builder::new_current_thread ]() -> (builder: Builder)
    ensures
        !builder_is_pool(builder),
        builder_worker_threads(builder) is None,
;

/// `Builder::enable_all` switches on the I/O and time drivers, leaves the
/// scheduler and the number of worker threads as they are, and hands back
/// the reference it was given. The settings are stated of the builder as the
/// call leaves it, which is what `same` points to; what the builder is in the
/// end is whatever is left behind through `same`. It does not panic.
pub assume_specification[ Builder::enable_all ](builder: &mut Builder) -> (same: &mut Builder)
    ensures
        builder_drivers_enabled(*same),
        builder_is_pool(*same) == builder_is_pool(*old(builder)),
        builder_worker_threads(*same) == builder_worker_threads(*old(builder)),
        *final(builder) == *final(same),
;

/// `Builder::worker_threads` sets the number of worker threads to `val`,
/// leaves the scheduler and the drivers as they are, and hands back the
/// reference it was given. The settings are stated of the builder as the call
/// leaves it, which is what `same` points to; what the builder is in the end
/// is whatever is left behind through `same`. It panics when `val` is zero,
/// which the precondition rules out.
pub assume_specification[ Builder::worker_threads ](builder: &mut Builder, val: usize) -> (same:
    &mut Builder)
    requires
        val > 0,
    ensures
        builder_worker_threads(*same) == Some(val),
        builder_is_pool(*same) == builder_is_pool(*old(builder)),
        builder_drivers_enabled(*same) == builder_drivers_enabled(*old(builder)),
        *final(builder) == *final(same),
;

/// The number of worker threads that a builder for `plan` has set: the
/// planned number for a pool, and none for the current thread, where the
/// engine would ignore it.
pub open spec fn worker_threads_set_for(plan: RuntimePlan) -> Option<usize> {
    match plan.scheduler {
        Scheduler::MultiThread => Some(plan.worker_threads),
        Scheduler::CurrentThread => None,
    }
}

/// `builder` is configured as `plan` says: it has the scheduler of the plan,
/// all drivers switched on, and the number of worker threads set exactly
/// where the plan is a pool.
pub open spec fn configured_as(builder: Builder, plan: RuntimePlan) -> bool {
    &&& builder_is_pool(builder) == (plan.scheduler == Scheduler::MultiThread)
    &&& builder_worker_threads(builder) == worker_threads_set_for(plan)
    &&& builder_drivers_enabled(builder)
}

/// Configures the builder of the execution engine as `plan` says.
///
/// A builder is given exactly for the plans that can be carried out. A plan
/// without a worker, or one that puts several workers on the current thread,
/// gives `None`, and tokio is not called for it.
pub fn configure(plan: &RuntimePlan) -> (r: Option<Builder>)
    ensures
        r is Some <==> plan.well_formed(),
        r matches Some(builder) ==> configured_as(builder, *plan),
{
    if !plan.is_well_formed() {
        return None;
    }
    match plan.scheduler {
        Scheduler::MultiThread => {
            let mut builder = Builder::new_multi_thread();
            builder.enable_all();
            builder.worker_threads(plan.worker_threads);
            Some(builder)
        },
        Scheduler::CurrentThread => {
            let mut builder = Builder::new_current_thread();
            builder.enable_all();
            Some(builder)
        },
    }
}

/// The worker count decides the builder. A builder configured for the plan
/// of a worker count has all drivers switched on and is, for zero, a pool
/// with one worker thread set per execution unit of the host; for one, a
/// current-thread builder on which no number of worker threads is set; for
/// any larger count, a pool with exactly that number set.
pub proof fn lemma_worker_count_decides_builder(
    worker_count: usize,
    available_parallelism: usize,
    builder: Builder,
)
    requires
        planned(topology_of(worker_count), available_parallelism) matches Ok(plan)
            && configured_as(builder, plan),
    ensures
        builder_drivers_enabled(builder),
        worker_count == 0 ==> builder_is_pool(builder) && builder_worker_threads(builder) == Some(
            available_parallelism,
        ),
        worker_count == 1 ==> !builder_is_pool(builder) && builder_worker_threads(builder)
            is None,
        worker_count > 1 ==> builder_is_pool(builder) && builder_worker_threads(builder) == Some(
            worker_count,
        ),
{
}

} // verus!
