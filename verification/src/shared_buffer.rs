//! Mutual-exclusion wrapper around one shared device-memory handle.
//!
//! Device command queues and many device buffer objects are not safe for
//! unordered concurrent enqueue from multiple host tasks.  A [`SharedBuffer`]
//! owns one device-memory handle behind a mutual-exclusion guard, so that
//! any worker task may acquire exclusive access for the duration of a single
//! device operation and never longer: concurrent operations on the same
//! region run in some total order instead of interleaving.  The guard is
//! released on every exit path, an error return included.

use std::sync::Arc;
use vstd::prelude::*;

use crate::executor::arc_clone;

verus! {

/// Declares parking_lot::RawMutex, the raw lock parking_lot's mutex is
/// built on, as an opaque outside type.
#[verifier::external_type_specification]
#[verifier::external_body]
pub struct ExRawMutex(parking_lot::RawMutex);

/// Declares lock_api::Mutex—what parking_lot::Mutex expands to—as an opaque
/// outside type: a mutual-exclusion guard around one value.
#[verifier::external_type_specification]
#[verifier::external_body]
#[verifier::reject_recursive_types(R)]
#[verifier::reject_recursive_types(T)]
pub struct ExMutex<R, T: ?Sized>(lock_api::Mutex<R, T>);

/// Relies on parking_lot's Mutex::new (via lock_api): a fresh unlocked
/// mutual-exclusion guard owning `value`.
#[verifier::external_body]
fn mutex_new<B>(value: B) -> lock_api::Mutex<parking_lot::RawMutex, B> {
    parking_lot::Mutex::new(value)
}

/// One device-memory handle behind a reference-counted mutual-exclusion
/// guard, shared by every worker task that touches the same device region.
/// The buffer lives until the last owning reference is dropped.
#[verifier::reject_recursive_types(B)]
pub struct SharedBuffer<B> {
    inner: Arc<lock_api::Mutex<parking_lot::RawMutex, B>>,
}

impl<B> SharedBuffer<B> {
    /// The guarded handle this buffer owns.
    pub closed spec fn spec_inner(&self) -> Arc<
        lock_api::Mutex<parking_lot::RawMutex, B>,
    > {
        self.inner
    }

    /// Creates a new shared buffer taking ownership of one device-memory
    /// handle.
    pub fn new(buf: B) -> Self {
        Self { inner: Arc::new(mutex_new(buf)) }
    }

    /// Returns a new owning reference to the same guarded buffer, for a
    /// call that needs direct access to the underlying handle while holding
    /// the lock for the duration of that call.
    pub fn inner(&self) -> (r: Arc<lock_api::Mutex<parking_lot::RawMutex, B>>)
        ensures
            r == self.spec_inner(),
    {
        arc_clone(&self.inner)
    }
}

impl<B> Clone for SharedBuffer<B> {
    /// The clone guards the very same device region as the original.
    fn clone(&self) -> (res: Self)
        ensures
            res.spec_inner() == self.spec_inner(),
    {
        Self { inner: arc_clone(&self.inner) }
    }
}

} // verus!
