//! Stream executor: fans a user closure out across worker tasks.
//!
//! The executor owns the compute backend handle and a concurrency degree.
//! Each execution call creates its own channel pair, dispatches that many
//! worker tasks on a shared worker pool—each task with its own
//! [`ExecutorContext`]—and returns the consumer immediately, never blocking
//! for task completion.  A worker never
//! terminates the process on a closure error: it forwards the error as the
//! next stream item; if even that fails, the consumer is already gone and
//! nobody could observe the failure, so the worker swallows it and stops.

use std::sync::Arc;
use vstd::prelude::*;

use crate::context::ExecutorContext;
use crate::result::OCLStreamResult;
use crate::stream;
use crate::stream::{OCLStream, OCLStreamSender};

verus! {

/// Relies on rayon::spawn: fires the job off asynchronously on the
/// process-wide shared worker pool, which by default holds one thread per
/// logical CPU core and outlives every in-flight execution.  The caller
/// never blocks on the job.
#[verifier::external_body]
fn pool_spawn<F>(job: F) where F: FnOnce() + Send + 'static
    requires
        job.requires(()),
{
    rayon::spawn(job)
}

/// Relies on num_cpus::get: the number of logical CPUs available to the
/// process at the moment of the call, at least one.
#[verifier::external_body]
fn cpu_count() -> (r: usize)
    ensures
        r >= 1,
{
    num_cpus::get()
}

/// Relies on std's Arc::clone: the clone is a handle to the same value.
#[verifier::external_body]
pub(crate) fn arc_clone<T>(v: &Arc<T>) -> (res: Arc<T>)
    ensures
        res == *v,
{
    Arc::clone(v)
}

/// Resolves a requested concurrency degree to the worker count actually
/// dispatched: zero asks for the number of logical CPU cores, re-evaluated
/// at every call rather than cached; any other request is taken as it is.
pub fn resolve_concurrency(requested: usize) -> (r: usize)
    ensures
        requested != 0 ==> r == requested,
        r >= 1,
{
    if requested == 0 {
        cpu_count()
    } else {
        requested
    }
}

/// What one worker task does with its closure's outcome: success is
/// complete, and a failure is forwarded once, as the next stream item, so
/// the process never terminates on a closure error.  When even forwarding
/// fails, the consumer is already gone and nobody could observe the
/// failure, so it is swallowed and the worker simply stops.
pub fn forward_worker_outcome<T>(outcome: OCLStreamResult<()>, sender: &OCLStreamSender<T>) where
    T: Send + Sync,
{
    if let Err(e) = outcome {
        let _ = sender.err(e);
    }
}

/// Stream executor for closures submitting device work over a shared
/// compute backend handle.
#[derive(Clone)]
pub struct OCLStreamExecutor<P> {
    pro_que: P,
    concurrency: usize,
}

impl<P> OCLStreamExecutor<P> {
    /// The backend handle the executor owns.
    pub closed spec fn spec_pro_que(&self) -> P {
        self.pro_que
    }

    /// How many worker tasks one execution call dispatches.
    pub closed spec fn spec_concurrency(&self) -> usize {
        self.concurrency
    }

    /// Well-formed: every execution call dispatches at least one worker.
    pub open spec fn wf(&self) -> bool {
        self.spec_concurrency() >= 1
    }

    /// Creates a new stream executor owning the given backend handle; the
    /// concurrency degree defaults to one.
    pub fn new(pro_que: P) -> (res: Self)
        ensures
            res.wf(),
            res.spec_pro_que() == pro_que,
            res.spec_concurrency() == 1,
    {
        Self { pro_que, concurrency: 1 }
    }

    /// Sets how many worker tasks schedule kernels on the device.  While one
    /// kernel runs, the next one can be prepared in a different task, which
    /// reduces the idle time of the device.  Zero means the number of
    /// logical CPU cores.  In-flight executions are not affected.
    pub fn set_concurrency(&mut self, num_tasks: usize)
        ensures
            final(self).wf(),
            num_tasks != 0 ==> final(self).spec_concurrency() == num_tasks,
            final(self).spec_pro_que() == old(self).spec_pro_que(),
    {
        self.concurrency = resolve_concurrency(num_tasks);
    }

    /// Returns the inner backend handle.
    pub fn pro_que(&self) -> (r: &P)
        ensures
            *r == self.spec_pro_que(),
    {
        &self.pro_que
    }
}

impl<P> OCLStreamExecutor<P> where P: Clone + Send + 'static {
    /// Executes the closure once per worker task, streaming over a bounded
    /// channel: at most `size` unconsumed items are buffered, and a `send`
    /// on the full channel blocks until the consumer takes an item.  Returns
    /// the consumer immediately, without waiting for any task.
    pub fn execute_bounded<F, T>(&self, size: usize, func: F) -> (stream: OCLStream<T>) where
        F: Fn(ExecutorContext<P, T>) -> OCLStreamResult<()> + Send + Sync + 'static,
        T: Send + Sync + 'static,

        requires
            self.wf(),
            forall|ctx: ExecutorContext<P, T>| #[trigger] func.requires((ctx,)),
    {
        let (stream, sender) = stream::bounded(size);
        self.execute(func, sender);
        stream
    }

    /// Executes the closure once per worker task, streaming over an
    /// unbounded channel: `send` never blocks and memory is the only limit.
    /// Returns the consumer immediately, without waiting for any task.
    pub fn execute_unbounded<F, T>(&self, func: F) -> (stream: OCLStream<T>) where
        F: Fn(ExecutorContext<P, T>) -> OCLStreamResult<()> + Send + Sync + 'static,
        T: Send + Sync + 'static,

        requires
            self.wf(),
            forall|ctx: ExecutorContext<P, T>| #[trigger] func.requires((ctx,)),
    {
        let (stream, sender) = stream::unbounded();
        self.execute(func, sender);
        stream
    }

    /// Dispatches one worker task per unit of configured concurrency, each
    /// holding its own context with task ids counting up from zero, and all
    /// sharing the closure and the producer.  Fire-and-forget: the caller
    /// never blocks on task completion.
    fn execute<F, T>(&self, func: F, sender: OCLStreamSender<T>) where
        F: Fn(ExecutorContext<P, T>) -> OCLStreamResult<()> + Send + Sync + 'static,
        T: Send + Sync + 'static,

        requires
            forall|ctx: ExecutorContext<P, T>| #[trigger] func.requires((ctx,)),
    {
        let func = Arc::new(func);
        let mut task_id: usize = 0;
        while task_id < self.concurrency
            invariant
                forall|ctx: ExecutorContext<P, T>| #[trigger] (*func).requires((ctx,)),
            decreases self.concurrency - task_id,
        {
            let f = arc_clone(&func);
            let context = self.build_context(task_id, sender.clone());
            pool_spawn(move || {
                let worker_sender = context.sender().clone();
                let outcome = (&*f)(context);
                forward_worker_outcome(outcome, &worker_sender);
            });
            task_id = task_id + 1;
        }
    }

    /// Builds the context for one worker task: a clone of the backend
    /// handle, the task id, and the producer handed in.
    fn build_context<T>(&self, task_id: usize, sender: OCLStreamSender<T>) -> (res:
        ExecutorContext<P, T>) where T: Send + Sync
        ensures
            res.spec_task_id() == task_id,
            res.spec_sender() == sender,
    {
        ExecutorContext::new(self.pro_que.clone(), task_id, sender)
    }
}

} // verus!
