use sprint_backend::pool::{EnterpriseMemoryPool, MONITORING_WINDOW, POOL_SIZE};
use sprint_backend::request::ProductionOptimizedRequest;

#[test]
fn default_pool_is_fully_populated() {
    let pool: EnterpriseMemoryPool<ProductionOptimizedRequest> = EnterpriseMemoryPool::new();
    let stats = pool.get_stats();
    assert_eq!(POOL_SIZE, 4096);
    assert_eq!(MONITORING_WINDOW, 1000);
    assert_eq!(stats.pool_size, 4096);
    assert_eq!(stats.free_objects, 4096);
    assert_eq!(stats.total_allocated, 0);
    assert_eq!(stats.allocation_failures, 0);
    assert_eq!(stats.peak_usage, 0);
    assert_eq!(stats.avg_allocation_time, 0);
}

#[test]
fn pool_exhaustion_counts_one_failure() {
    let mut pool: EnterpriseMemoryPool<u64> = EnterpriseMemoryPool::with_config(16, 8);
    let mut held = Vec::new();
    let mut failed = 0;
    for _ in 0..17 {
        match pool.allocate() {
            Some(object) => held.push(object),
            None => failed += 1,
        }
    }
    assert_eq!(failed, 1);
    assert_eq!(held.len(), 16);
    let stats = pool.get_stats();
    assert_eq!(stats.allocation_failures, 1);
    assert_eq!(stats.peak_usage, 16);
    assert_eq!(stats.total_allocated, 16);
    assert_eq!(stats.free_objects, 0);
}

#[test]
fn exhaustion_of_the_default_pool() {
    let mut pool: EnterpriseMemoryPool<u8> = EnterpriseMemoryPool::new();
    let mut held = Vec::new();
    for _ in 0..POOL_SIZE {
        held.push(pool.allocate().unwrap());
    }
    assert!(pool.allocate().is_none());
    let stats = pool.get_stats();
    assert_eq!(stats.allocation_failures, 1);
    assert_eq!(stats.peak_usage, POOL_SIZE);
}

#[test]
fn deallocate_returns_objects_in_fifo_order() {
    let mut pool: EnterpriseMemoryPool<u32> = EnterpriseMemoryPool::with_config(2, 4);
    let mut a = pool.allocate().unwrap();
    let mut b = pool.allocate().unwrap();
    *a = 10;
    *b = 20;
    assert_eq!(pool.deallocate(b), Ok(()));
    assert_eq!(pool.deallocate(a), Ok(()));
    assert_eq!(*pool.allocate().unwrap(), 20);
    assert_eq!(*pool.allocate().unwrap(), 10);
    let stats = pool.get_stats();
    assert_eq!(stats.peak_usage, 2);
    assert_eq!(stats.total_allocated, 2);
}

#[test]
fn pool_refuses_an_object_when_nothing_is_outstanding() {
    let mut pool: EnterpriseMemoryPool<u32> = EnterpriseMemoryPool::with_config(2, 4);
    assert_eq!(pool.deallocate(Box::new(5)), Err(Box::new(5)));
    let stats = pool.get_stats();
    assert_eq!(stats.free_objects, 2);
    assert_eq!(stats.total_allocated, 0);
}

#[test]
fn average_allocation_time_is_the_mean_of_the_window() {
    let mut pool: EnterpriseMemoryPool<u8> = EnterpriseMemoryPool::with_config(8, 3);
    assert!(pool.allocate_timed(100).is_some());
    assert!(pool.allocate_timed(200).is_some());
    assert_eq!(pool.get_stats().avg_allocation_time, 150);
    assert!(pool.allocate_timed(301).is_some());
    assert_eq!(pool.get_stats().avg_allocation_time, 200);
    assert!(pool.allocate_timed(1000).is_some());
    assert_eq!(pool.get_stats().avg_allocation_time, 500);
    assert!(pool.allocate_timed(u64::MAX).is_some());
    assert!(pool.allocate_timed(u64::MAX).is_some());
    assert!(pool.allocate_timed(u64::MAX).is_some());
    assert_eq!(pool.get_stats().avg_allocation_time, u64::MAX);
}

#[test]
fn a_failed_allocation_records_no_time() {
    let mut pool: EnterpriseMemoryPool<u8> = EnterpriseMemoryPool::with_config(1, 3);
    assert!(pool.allocate_timed(40).is_some());
    assert!(pool.allocate_timed(4000).is_none());
    let stats = pool.get_stats();
    assert_eq!(stats.avg_allocation_time, 40);
    assert_eq!(stats.allocation_failures, 1);
}

#[test]
fn allocations_up_to_one_hundred_leave_the_rest_free() {
    let mut pool: EnterpriseMemoryPool<ProductionOptimizedRequest> = EnterpriseMemoryPool::new();
    let mut allocations = Vec::new();
    for _ in 0..100 {
        if let Some(obj) = pool.allocate() {
            allocations.push(obj);
        }
    }
    let stats = pool.get_stats();
    assert_eq!(stats.peak_usage, 100);
    assert_eq!(stats.allocation_failures, 0);
    while let Some(obj) = allocations.pop() {
        assert!(pool.deallocate(obj).is_ok());
    }
    assert_eq!(pool.get_stats().free_objects, 4096);
}
