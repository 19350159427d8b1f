use bellman_multicore::{chunk_size, log2_floor, CpuCountCache, Worker};
use futures::Future;
use std::sync::{Arc, Mutex};

#[test]
fn test_log2_floor() {
    assert_eq!(log2_floor(1), 0);
    assert_eq!(log2_floor(2), 1);
    assert_eq!(log2_floor(3), 1);
    assert_eq!(log2_floor(4), 2);
    assert_eq!(log2_floor(5), 2);
    assert_eq!(log2_floor(6), 2);
    assert_eq!(log2_floor(7), 2);
    assert_eq!(log2_floor(8), 3);
}

#[test]
fn log2_floor_matches_brute_force() {
    for n in 1usize..64 {
        let mut best = 0u32;
        for p in 0u32..64 {
            if (1u128 << p) <= n as u128 {
                best = p;
            }
        }
        assert_eq!(log2_floor(n), best, "n = {}", n);
    }
}

#[test]
fn log2_floor_of_powers_of_two() {
    for e in 0u32..64 {
        assert_eq!(log2_floor(1usize << e), e);
    }
    assert_eq!(log2_floor(usize::MAX), usize::BITS - 1);
}

#[test]
fn chunk_size_one_when_fewer_elements_than_cores() {
    assert_eq!(chunk_size(0, 4), 1);
    assert_eq!(chunk_size(3, 4), 1);
    assert_eq!(chunk_size(0, 1), 1);
}

#[test]
fn chunk_size_is_the_quotient_otherwise() {
    assert_eq!(chunk_size(4, 4), 1);
    assert_eq!(chunk_size(10, 4), 2);
    assert_eq!(chunk_size(15, 4), 3);
    assert_eq!(chunk_size(100, 1), 100);
    assert_eq!(chunk_size(usize::MAX, 2), usize::MAX / 2);
}

#[test]
fn cache_keeps_the_first_count() {
    let mut cache = CpuCountCache::new();
    assert!(!cache.is_loaded());
    assert_eq!(cache.settle(3), 3);
    assert!(cache.is_loaded());
    assert_eq!(cache.settle(5), 3);
    assert_eq!(cache.load(), 3);
}

#[test]
fn cache_detects_at_least_one_core() {
    let mut cache = CpuCountCache::new();
    let first = cache.load();
    assert!(first >= 1);
    assert_eq!(cache.load(), first);
}

#[test]
fn sequential_workers_share_the_core_count() {
    let mut cache = CpuCountCache::new();
    let a = Worker::new(&mut cache);
    let cpus = cache.load();
    let b = Worker::new(&mut cache);
    assert_eq!(cache.load(), cpus);
    assert_eq!(a.log_num_cpus(), b.log_num_cpus());
    assert_eq!(a.log_num_cpus(), log2_floor(cpus));
}

#[test]
fn worker_uses_a_recorded_count() {
    let mut cache = CpuCountCache::new();
    cache.settle(8);
    let w = Worker::new(&mut cache);
    assert_eq!(w.log_num_cpus(), 3);
    let c = w.clone();
    assert_eq!(c.log_num_cpus(), 3);
}

#[test]
fn threaded_compute_yields_success() {
    let mut cache = CpuCountCache::new();
    let w = Worker::new(&mut cache);
    let fut = w.compute(|| Ok::<u64, String>(42));
    assert_eq!(fut.wait(), Ok(42));
}

#[test]
fn threaded_compute_yields_failure() {
    let mut cache = CpuCountCache::new();
    let w = Worker::new(&mut cache);
    let fut = w.compute(|| Err::<u64, String>("bad".to_string()));
    assert_eq!(fut.wait(), Err("bad".to_string()));
}

#[test]
fn threaded_scope_joins_all_children() {
    let mut cache = CpuCountCache::new();
    cache.settle(4);
    let w = Worker::new(&mut cache);
    let counter = Arc::new(Mutex::new(Vec::new()));
    let k: usize = 9;
    let chunk = w.scope(10, |s, chunk| {
        for id in 0..k {
            let counter = counter.clone();
            s.spawn(move |_| {
                counter.lock().unwrap().push(id);
            });
        }
        chunk
    });
    assert_eq!(chunk, Some(2));
    let mut ids = counter.lock().unwrap().clone();
    assert_eq!(ids.len(), k);
    ids.sort();
    assert_eq!(ids, (0..k).collect::<Vec<_>>());
}

#[test]
fn threaded_scope_chunk_is_one_for_few_elements() {
    let mut cache = CpuCountCache::new();
    cache.settle(4);
    let w = Worker::new(&mut cache);
    assert_eq!(w.scope(3, |_, chunk| chunk), Some(1));
    assert_eq!(w.scope(0, |_, chunk| chunk), Some(1));
}

#[test]
fn threaded_scope_reports_a_panicked_child() {
    let mut cache = CpuCountCache::new();
    cache.settle(2);
    let w = Worker::new(&mut cache);
    let finished = Arc::new(Mutex::new(0usize));
    let result = w.scope(4, |s, chunk| {
        let done = finished.clone();
        s.spawn(move |_| {
            *done.lock().unwrap() += 1;
        });
        s.spawn(|_| {
            panic!("child failure");
        });
        chunk
    });
    assert_eq!(result, None);
    assert_eq!(*finished.lock().unwrap(), 1);
}

#[test]
fn threaded_compute_yields_exact_failure() {
    let mut cache = CpuCountCache::new();
    cache.settle(2);
    let w = Worker::new(&mut cache);
    assert_eq!(w.compute(|| Err::<u32, u8>(7)).wait(), Err(7));
    assert_eq!(w.compute(|| Ok::<u32, u8>(42)).wait(), Ok(42));
}
