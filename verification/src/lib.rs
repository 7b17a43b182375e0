//! Concurrent streaming execution engine for GPU-bound work.
//!
//! A caller hands a closure to an [`executor::OCLStreamExecutor`], which fans
//! it out across a configurable number of worker tasks on a shared worker
//! pool.  Each task receives an [`context::ExecutorContext`] holding a clone
//! of the compute backend handle, a task identifier and a producer handle,
//! and streams results and errors back over a [`stream::OCLStream`] that the
//! caller drains incrementally while the tasks run.  A
//! [`shared_buffer::SharedBuffer`] serializes the access of concurrent tasks
//! to one shared device-memory handle.
//!
//! The compute backend itself—program compilation, kernel binding, device
//! selection—is an external collaborator: the executor only requires a
//! clonable, thread-safe handle to it, cloned once per worker task, and
//! never introspects it.

pub mod context;
pub mod executor;
pub mod result;
pub mod shared_buffer;
pub mod stream;

pub use executor::OCLStreamExecutor;
