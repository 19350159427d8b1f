//! The synchronous backend: the same interface as the thread-pool worker,
//! with every piece of work run at once on the calling thread.

use futures::{Async, Poll};
use vstd::prelude::*;

verus! {

/// Runs all work on the calling thread.
#[derive(Clone)]
pub struct Worker;

impl Worker {
    pub fn new() -> Worker {
        Worker
    }

    /// One core: the logarithm is zero.
    pub fn log_num_cpus(&self) -> (r: u32)
        ensures
            r == 0,
    {
        0
    }

    /// Runs `f` to completion before returning; the handle holds its outcome,
    /// ready for the first poll.
    pub fn compute<F, T, E>(&self, f: F) -> (r: WorkerFuture<T, E>) where
        F: FnOnce() -> Result<T, E> + Send + 'static,
        T: Send + 'static,
        E: Send + 'static,
        requires
            f.requires(()),
        ensures
            r.outcome() matches Some(o) && f.ensures((), o),
    {
        WorkerFuture { inner: Some(f()) }
    }

    /// Calls `f` with a scope that runs each spawned closure at once, and
    /// with all `elements` elements as the chunk size; returns `f`'s result.
    pub fn scope<F, R>(&self, elements: usize, f: F) -> (r: R) where
        F: FnOnce(&DummyScope, usize) -> R,
        requires
            f.requires((&DummyScope, elements)),
        ensures
            f.ensures((&DummyScope, elements), r),
    {
        f(&DummyScope, elements)
    }
}

/// A handle to the outcome of work that `Worker::compute` has already run.
pub struct WorkerFuture<T, E> {
    inner: Option<Result<T, E>>,
}

impl<T, E> WorkerFuture<T, E> {
    /// What the work returned, until a poll hands it out; `None` after that.
    pub closed spec fn outcome(&self) -> Option<Result<T, E>> {
        self.inner
    }
}

/// What a poll hands out for the outcome `o`: a ready value, or the failure.
pub open spec fn polled<T, E>(o: Result<T, E>) -> Result<Async<T>, E> {
    match o {
        Ok(v) => Ok(Async::Ready(v)),
        Err(e) => Err(e),
    }
}

impl<T: Send + 'static, E: Send + 'static> futures::Future for WorkerFuture<T, E> {
    type Item = T;

    type Error = E;

    /// The held outcome, at once: never `NotReady`. A handle is polled once.
    fn poll(&mut self) -> (r: Poll<T, E>)
        requires
            old(self).outcome() is Some,
        ensures
            r == polled(old(self).outcome()->Some_0),
            final(self).outcome() is None,
    {
        match self.inner.take().unwrap() {
            Ok(v) => Ok(Async::Ready(v)),
            Err(e) => Err(e),
        }
    }
}

/// The scope that the synchronous `Worker::scope` hands out.
pub struct DummyScope;

impl DummyScope {
    /// Runs `f` on the calling thread before returning.
    pub fn spawn<F: FnOnce(&DummyScope)>(&self, f: F)
        requires
            f.requires((self,)),
        ensures
            f.ensures((self,), ()),
    {
        f(self);
    }
}

} // verus!
