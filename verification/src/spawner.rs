//! A spawner: a handle to the Tokio runtime that tasks are placed on.

use vstd::prelude::*;
use tokio::runtime::{Handle, TryCurrentError};

verus! {

#[verifier::external_type_specification]
#[verifier::external_body]
pub struct ExHandle(tokio::runtime::Handle);

#[verifier::external_type_specification]
#[verifier::external_body]
pub struct ExTryCurrentError(tokio::runtime::TryCurrentError);

/// Specifies `Clone` for `Handle`, which tokio derives: the handle holds
/// shared pointers to the runtime's scheduler, and a clone shares them, so it
/// refers to the same runtime.
pub assume_specification[<Handle as Clone>::clone](h: &Handle) -> (r: Handle)
    ensures
        r == *h,
;

/// Places work on the Tokio runtime that its handle refers to.
#[derive(Debug)]
pub struct RuntimeSpawner {
    handle: Handle,
}

impl Clone for RuntimeSpawner {
    /// A clone places work on the same runtime.
    fn clone(&self) -> (s: Self)
        ensures
            s.runtime() == self.runtime(),
    {
        RuntimeSpawner { handle: self.handle.clone() }
    }
}

impl RuntimeSpawner {
    /// The handle of the runtime that this spawner places work on.
    pub closed spec fn runtime(self) -> Handle {
        self.handle
    }

    /// A spawner for the runtime of `handle`.
    pub fn new(handle: Handle) -> (s: Self)
        ensures
            s.runtime() == handle,
    {
        RuntimeSpawner { handle }
    }

    /// The handle of the runtime that this spawner places work on.
    pub fn handle(&self) -> (h: &Handle)
        ensures
            *h == self.runtime(),
    {
        &self.handle
    }

    /// A spawner is already a spawner: converting it gives it back unchanged.
    pub fn into_spawner(self) -> (s: Self)
        ensures
            s == self,
    {
        self
    }

    /// The spawner that the context lookup `found` gives: one for the runtime
    /// that was found, or none where the lookup failed.
    pub fn from_context(found: Result<Handle, TryCurrentError>) -> (s: Option<Self>)
        ensures
            found is Ok <==> s is Some,
            s matches Some(sp) ==> found matches Ok(h) && sp.runtime() == h,
    {
        match found {
            Ok(h) => Some(RuntimeSpawner::new(h)),
            Err(_) => None,
        }
    }

    /// A spawner for the runtime that the calling thread runs in, or `None`
    /// outside any Tokio runtime.
    pub fn try_current() -> (s: Option<Self>) {
        RuntimeSpawner::from_context(current_handle())
    }
}

/// Wraps `Handle::try_current`: the handle of the runtime that the calling
/// thread runs in, or an error outside any runtime. Which of the two comes
/// back depends on the thread's context, so nothing is stated of it.
#[verifier::external_body]
fn current_handle() -> (r: Result<Handle, TryCurrentError>) {
    Handle::try_current()
}

} // verus!
