use crate::cpus::CpuCountCache;
use crate::log2::{is_log2_floor, log2_floor};
use crossbeam::thread::Scope;
use futures::{Async, Poll};
use futures_cpupool::{CpuFuture, CpuPool};
use vstd::prelude::*;

verus! {

#[verifier::external_type_specification]
#[verifier::external_body]
pub struct ExCpuPool(CpuPool);

#[verifier::external_type_specification]
#[verifier::external_body]
#[verifier::reject_recursive_types(T)]
#[verifier::reject_recursive_types(E)]
pub struct ExCpuFuture<T, E>(CpuFuture<T, E>);

#[verifier::external_type_specification]
#[verifier::external_body]
pub struct ExScope<'env>(Scope<'env>);

/// Declared with its variants visible, so that contracts can tell a ready
/// value from a pending one.
#[verifier::external_type_specification]
#[verifier::reject_recursive_types(T)]
pub struct ExAsync<T>(Async<T>);

/// Relies on CpuPool's Clone: a second handle to the same pool.
pub assume_specification[ <CpuPool as Clone>::clone ](pool: &CpuPool) -> CpuPool;

/// Relies on futures_cpupool::CpuPool::new: a pool of `cpus` threads; it
/// panics on zero, which `requires` rules out.
#[verifier::external_body]
fn new_pool(cpus: usize) -> (r: CpuPool)
    requires
        cpus >= 1,
{
    CpuPool::new(cpus)
}

/// Relies on futures_cpupool::CpuPool::spawn_fn: runs `f` on the pool, and
/// hands back a handle to its outcome.
#[verifier::external_body]
fn spawn_on<F, T, E>(pool: &CpuPool, f: F) -> (r: CpuFuture<T, E>) where
    F: FnOnce() -> Result<T, E> + Send + 'static,
    T: Send + 'static,
    E: Send + 'static,
    requires
        f.requires(()),
{
    pool.spawn_fn(f)
}

/// Relies on crossbeam::scope: it calls its closure once with a fresh scope,
/// joins every thread spawned in that scope before it returns, and returns
/// what the closure returned, or an error when a thread of the scope panicked;
/// that error becomes `None` here.
#[verifier::external_body]
fn run_scoped<'a, F, R>(chunk_size: usize, f: F) -> (r: Option<R>) where
    F: FnOnce(&Scope<'a>, usize) -> R,
    requires
        forall|s: &Scope<'a>| #[trigger] f.requires((s, chunk_size)),
    ensures
        r matches Some(v) ==> exists|s: &Scope<'a>| #[trigger] f.ensures((s, chunk_size), v),
{
    crossbeam::scope(|scope| f(scope, chunk_size)).ok()
}

/// How many elements each parallel task of a scope over `elements` elements
/// should take on `cpus` cores: one when there are fewer elements than cores,
/// else the integer quotient.
pub open spec fn spec_chunk_size(elements: nat, cpus: nat) -> nat {
    if elements < cpus {
        1
    } else {
        elements / cpus
    }
}

/// The chunk size that `Worker::scope` hands to its closure.
pub fn chunk_size(elements: usize, cpus: usize) -> (r: usize)
    requires
        cpus >= 1,
    ensures
        r == spec_chunk_size(elements as nat, cpus as nat),
        r >= 1,
{
    if elements < cpus {
        1
    } else {
        assert(elements / cpus >= 1) by (nonlinear_arith)
            requires
                elements >= cpus,
                cpus >= 1,
        ;
        elements / cpus
    }
}

/// The chunk size is never zero and never more than the elements (or one,
/// when there are none); from as many elements as cores on, it is the
/// quotient, so `chunk * cpus <= elements < (chunk + 1) * cpus`.
pub proof fn lemma_chunk_size_bounds(elements: nat, cpus: nat)
    requires
        cpus >= 1,
    ensures
        1 <= spec_chunk_size(elements, cpus),
        spec_chunk_size(elements, cpus) <= (if elements == 0 { 1 } else { elements }),
        elements < cpus ==> spec_chunk_size(elements, cpus) == 1,
        elements >= cpus ==> spec_chunk_size(elements, cpus) * cpus <= elements
            < (spec_chunk_size(elements, cpus) + 1) * cpus,
{
    if elements >= cpus {
        let c = elements / cpus;
        assert(c >= 1 && c <= elements && c * cpus <= elements < (c + 1) * cpus)
            by (nonlinear_arith)
            requires
                elements >= cpus,
                cpus >= 1,
                c == elements / cpus,
        ;
    }
}

/// Runs work on a pool of threads, one per core.
#[derive(Clone)]
pub struct Worker {
    cpus: usize,
    pool: CpuPool,
}

impl Worker {
    /// The number of cores this worker was made for.
    pub closed spec fn cpus(&self) -> nat {
        self.cpus as nat
    }

    pub open spec fn wf(&self) -> bool {
        self.cpus() >= 1
    }

    pub(crate) fn new_with_cpus(cpus: usize) -> (r: Worker)
        requires
            cpus >= 1,
        ensures
            r.wf(),
            r.cpus() == cpus,
    {
        Worker { cpus, pool: new_pool(cpus) }
    }

    /// A worker sized to the host's cores, as recorded in `cache`; the first
    /// worker made with an empty cache detects and records them.
    pub fn new(cache: &mut CpuCountCache) -> (r: Worker)
        requires
            old(cache).wf(),
        ensures
            r.wf(),
            final(cache).wf(),
            final(cache)@ == Some(r.cpus()),
            old(cache)@ is Some ==> final(cache)@ == old(cache)@,
    {
        let cpus = cache.load();
        Self::new_with_cpus(cpus)
    }

    /// The floor of the base-two logarithm of the core count.
    pub fn log_num_cpus(&self) -> (r: u32)
        requires
            self.wf(),
        ensures
            is_log2_floor(self.cpus(), r as nat),
    {
        log2_floor(self.cpus)
    }

    /// Starts `f` on the pool and returns a handle to its outcome; the
    /// outcomes the handle admits are exactly those `f` may return.
    pub fn compute<F, T, E>(&self, f: F) -> (r: WorkerFuture<T, E>) where
        F: FnOnce() -> Result<T, E> + Send + 'static,
        T: Send + 'static,
        E: Send + 'static,
        requires
            f.requires(()),
        ensures
            forall|o: Result<T, E>| #[trigger] r.admits(o) == f.ensures((), o),
            !r.is_done(),
    {
        let admits = Ghost(|o: Result<T, E>| f.ensures((), o));
        WorkerFuture { future: spawn_on(&self.pool, f), admits, done: Ghost(false) }
    }

    /// Calls `f` with a thread scope and the chunk size for `elements`
    /// elements; every thread that `f` spawns in the scope has finished when
    /// this returns. The result is `Some` of what `f` returned, or `None` when
    /// a thread spawned in the scope panicked.
    pub fn scope<'a, F, R>(&self, elements: usize, f: F) -> (r: Option<R>) where
        F: FnOnce(&Scope<'a>, usize) -> R,
        requires
            self.wf(),
            forall|s: &Scope<'a>|
                #[trigger] f.requires((s, spec_chunk_size(elements as nat, self.cpus()) as usize)),
        ensures
            r matches Some(v) ==> exists|s: &Scope<'a>|
                #[trigger] f.ensures((s, spec_chunk_size(elements as nat, self.cpus()) as usize), v),
    {
        let chunk = chunk_size(elements, self.cpus);
        assert(chunk == spec_chunk_size(elements as nat, self.cpus()) as usize);
        run_scoped(chunk, f)
    }
}

/// Two workers made one after the other from one cache have the same core
/// count: the second finds the count that the first recorded, whatever a
/// second detection would have found.
pub proof fn lemma_workers_share_cpu_count(
    first: Worker,
    after_first: CpuCountCache,
    second: Worker,
    after_second: CpuCountCache,
)
    requires
        after_first@ == Some(first.cpus()),
        after_second@ == Some(second.cpus()),
        after_first@ is Some ==> after_second@ == after_first@,
    ensures
        first.cpus() == second.cpus(),
{
}

/// A handle to the outcome of work started by `Worker::compute`.
#[verifier::reject_recursive_types(T)]
#[verifier::reject_recursive_types(E)]
pub struct WorkerFuture<T, E> {
    future: CpuFuture<T, E>,
    admits: Ghost<spec_fn(Result<T, E>) -> bool>,
    done: Ghost<bool>,
}

impl<T, E> WorkerFuture<T, E> {
    /// Whether `o` is an outcome that the started work may produce.
    pub closed spec fn admits(&self, o: Result<T, E>) -> bool {
        (self.admits@)(o)
    }

    /// Whether a poll has already handed out the outcome.
    pub closed spec fn is_done(&self) -> bool {
        self.done@
    }
}

impl<T: Send + 'static, E: Send + 'static> futures::Future for WorkerFuture<T, E> {
    type Item = T;

    type Error = E;

    /// Relies on CpuFuture's poll: `NotReady` while the pooled work runs, then
    /// once the value or the failure that the work produced. Polling again
    /// after that panics, which `requires` rules out. Like every future of
    /// this crate it is to be polled from within a task; a panic of the work
    /// itself is raised again here.
    #[verifier::external_body]
    fn poll(&mut self) -> (r: Poll<T, E>)
        requires
            !old(self).is_done(),
        ensures
            forall|o: Result<T, E>| #[trigger] final(self).admits(o) == old(self).admits(o),
            r matches Ok(Async::Ready(v)) ==> old(self).admits(Ok(v)) && final(self).is_done(),
            r matches Err(e) ==> old(self).admits(Err(e)) && final(self).is_done(),
            r matches Ok(Async::NotReady) ==> !final(self).is_done(),
    {
        self.future.poll()
    }
}

} // verus!
