//! Per-task execution context handed to the user closure.

use vstd::prelude::*;

use crate::stream::OCLStreamSender;

verus! {

/// Value given to exactly one worker task: a clone of the compute backend
/// handle, a zero-based task identifier unique within one execution call,
/// and a clone of the stream producer.  A pure data carrier, immutable after
/// construction; the task identifier serves diagnostics only.
#[derive(Clone)]
#[verifier::reject_recursive_types(T)]
pub struct ExecutorContext<P, T> where T: Send + Sync {
    pro_que: P,
    sender: OCLStreamSender<T>,
    task_id: usize,
}

impl<P, T> ExecutorContext<P, T> where T: Send + Sync {
    /// The backend handle this context carries.
    pub closed spec fn spec_pro_que(&self) -> P {
        self.pro_que
    }

    /// The producer handle this context carries.
    pub closed spec fn spec_sender(&self) -> OCLStreamSender<T> {
        self.sender
    }

    /// The task identifier this context carries.
    pub closed spec fn spec_task_id(&self) -> usize {
        self.task_id
    }

    /// Creates a new executor context.
    pub fn new(pro_que: P, task_id: usize, sender: OCLStreamSender<T>) -> (res: Self)
        ensures
            res.spec_pro_que() == pro_que,
            res.spec_sender() == sender,
            res.spec_task_id() == task_id,
    {
        Self { pro_que, task_id, sender }
    }

    /// Returns the compute backend handle, for submitting device work.
    pub fn pro_que(&self) -> (r: &P)
        ensures
            *r == self.spec_pro_que(),
    {
        &self.pro_que
    }

    /// Returns the producer handle, for streaming results and errors.
    pub fn sender(&self) -> (r: &OCLStreamSender<T>)
        ensures
            *r == self.spec_sender(),
    {
        &self.sender
    }

    /// Returns the task id of the scheduled task, unique within one
    /// execution call.
    pub fn task_id(&self) -> (r: usize)
        ensures
            r == self.spec_task_id(),
    {
        self.task_id
    }
}

} // verus!
