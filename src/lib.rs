//! Parallel execution for chunked numeric work: a thread-pool backend sized
//! to the host's cores, and a synchronous backend with the same interface.

mod cpus;
mod log2;
mod multicore;
pub mod sequential;

pub use cpus::{lemma_settle_is_idempotent, settled, CpuCountCache};
pub use log2::{
    is_log2_floor, lemma_log2_floor_is_largest, lemma_log2_floor_of_power, log2_floor, pow2,
};
pub use multicore::{
    chunk_size, lemma_chunk_size_bounds, lemma_workers_share_cpu_count, spec_chunk_size, Worker, WorkerFuture,
};
pub use sequential::DummyScope;
