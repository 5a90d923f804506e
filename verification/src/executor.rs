//! Driving the `smol` executors that run the tasks behind spawned promises.
use vstd::prelude::*;

verus! {

/// A `smol` executor for `Send` tasks, carried opaquely.
#[verifier::external_type_specification]
#[verifier::external_body]
pub struct ExSmolExecutor<'a>(smol::Executor<'a>);

/// A `smol` executor for tasks that stay on one thread, carried opaquely.
#[verifier::external_type_specification]
#[verifier::external_body]
pub struct ExSmolLocalExecutor<'a>(smol::LocalExecutor<'a>);

/// A handle to a task spawned on a `smol` executor; dropping it cancels the
/// task. Carried opaquely.
#[verifier::external_type_specification]
#[verifier::external_body]
#[verifier::reject_recursive_types(T)]
#[verifier::reject_recursive_types(M)]
pub struct ExSmolTask<T, M>(smol::Task<T, M>);

/// Calls `smol::Executor::try_tick`, which polls one scheduled task once if
/// there is one and says whether there was. That depends on what other code
/// scheduled, so nothing is claimed of the result.
#[verifier::external_body]
fn executor_try_tick(executor: &smol::Executor<'_>) -> (ran_a_task: bool) {
    executor.try_tick()
}

/// Calls `smol::LocalExecutor::try_tick`; as for [`executor_try_tick`],
/// nothing is claimed of the result.
#[verifier::external_body]
fn local_executor_try_tick(executor: &smol::LocalExecutor<'_>) -> (ran_a_task: bool) {
    executor.try_tick()
}

/// Evidence that the shared executor was ticked once. Only
/// [`tick_shared`] makes one, so holding one shows that the shared
/// executor, and not a thread-local one, was ticked.
pub struct SharedTick {
    ran_a_task: bool,
}

/// Evidence that a thread-local executor was ticked once. Only
/// [`tick_thread_local`] makes one.
pub struct LocalTick {
    ran_a_task: bool,
}

/// Which executor a tick reached, with the evidence of it.
pub enum Ticked {
    /// The shared executor, which runs the tasks of type `Async`.
    Shared(SharedTick),
    /// The thread-local executor, which runs the tasks of type `Local`.
    Local(LocalTick),
    /// No executor: the task runs some other way.
    Nothing,
}

impl Ticked {
    /// Whether the tick ran a task.
    pub fn ran_a_task(&self) -> (ran_a_task: bool)
        ensures
            self is Nothing ==> !ran_a_task,
    {
        match self {
            Ticked::Shared(tick) => tick.ran_a_task,
            Ticked::Local(tick) => tick.ran_a_task,
            Ticked::Nothing => false,
        }
    }
}

/// Ticks the shared executor once, and gives the evidence of it.
pub(crate) fn tick_shared(executor: &smol::Executor<'_>) -> SharedTick {
    SharedTick { ran_a_task: executor_try_tick(executor) }
}

/// Ticks a thread-local executor once, and gives the evidence of it.
pub(crate) fn tick_thread_local(executor: &smol::LocalExecutor<'_>) -> LocalTick {
    LocalTick { ran_a_task: local_executor_try_tick(executor) }
}

/// 'Tick' the `smol` executor that runs the tasks of
/// [`crate::Promise`]s with [`crate::TaskType::Async`]: run one scheduled task
/// once, if there is one. Returns whether a task ran.
pub fn tick(executor: &smol::Executor<'_>) -> (ran_a_task: bool) {
    tick_shared(executor).ran_a_task
}

/// 'Tick' the `smol` thread-local executor that runs the tasks of
/// [`crate::Promise`]s with [`crate::TaskType::Local`]. Returns whether a
/// task ran.
pub fn tick_local(executor: &smol::LocalExecutor<'_>) -> (ran_a_task: bool) {
    tick_thread_local(executor).ran_a_task
}

} // verus!
