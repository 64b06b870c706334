use vantis::performance::{best_simd_from, GpuContext, GpuDevice, LazyLoadManager, MemoryPool, PerformanceRating, SimdLevel};

#[test]
fn test_memory_pool() {
    let mut pool = MemoryPool::new(1024, 4096);

    let block1 = pool.allocate().unwrap();
    let block2 = pool.allocate().unwrap();

    assert!(pool.get(block1).is_some());
    assert!(pool.get(block2).is_some());

    pool.free(block1);
    assert_eq!(pool.memory_usage(), 1024);
}

#[test]
fn memory_pool_refuses_beyond_limit() {
    let mut pool = MemoryPool::new(1024, 2048);
    assert_eq!(pool.allocate(), Some(0));
    assert_eq!(pool.allocate(), Some(1));
    assert_eq!(pool.allocate(), None);
    assert_eq!(pool.memory_usage(), 2048);
    assert_eq!(pool.get(1).unwrap(), &[0u8; 1024][..]);
    assert!(pool.get(2).is_none());
    pool.free(7);
    assert_eq!(pool.memory_usage(), 2048);
}

#[test]
fn test_lazy_loading() {
    let mut manager = LazyLoadManager::new(2);

    manager.queue("item1".to_string());
    manager.queue("item2".to_string());
    manager.queue("item3".to_string());

    let loaded = manager.process();
    assert_eq!(loaded.len(), 2);
    assert!(manager.is_loaded("item1") || manager.is_loaded("item2"));
}

#[test]
fn lazy_loading_takes_newest_first_and_unloads() {
    let mut manager = LazyLoadManager::new(2);
    manager.queue("a".to_string());
    manager.queue("b".to_string());
    manager.queue("b".to_string());
    manager.queue("c".to_string());
    assert_eq!(manager.process(), vec!["c".to_string(), "b".to_string()]);
    assert!(manager.process().is_empty());
    manager.unload("c");
    assert!(!manager.is_loaded("c"));
    assert_eq!(manager.process(), vec!["a".to_string()]);
    manager.queue("a".to_string());
    assert!(manager.process().is_empty());
}

#[test]
fn gpu_detection_falls_back_to_software() {
    let mut gpu = GpuContext::new();
    assert!(!gpu.is_available());
    assert!(gpu.info().is_none());
    assert_eq!(gpu.detect_gpu(), Some(GpuDevice::Software));
    assert!(gpu.is_available());
    assert_eq!(gpu.info().unwrap(), "Software Renderer");
}

#[test]
fn ratings_and_simd_choice() {
    assert_eq!(PerformanceRating::for_fps(24), PerformanceRating::Poor);
    assert_eq!(PerformanceRating::for_fps(25), PerformanceRating::BelowAverage);
    assert_eq!(PerformanceRating::for_fps(44), PerformanceRating::Average);
    assert_eq!(PerformanceRating::for_fps(59), PerformanceRating::Good);
    assert_eq!(PerformanceRating::for_fps(60), PerformanceRating::Excellent);
    assert_eq!(best_simd_from(true, true, false), SimdLevel::AVX2);
    assert_eq!(best_simd_from(false, true, true), SimdLevel::SSE42);
    assert_eq!(best_simd_from(false, false, true), SimdLevel::NEON);
    assert_eq!(best_simd_from(false, false, false), SimdLevel::NoSimd);
}

#[test]
fn memory_pool_block_written_in_place() {
    let mut pool = MemoryPool::new(4, 16);
    let a = pool.allocate().unwrap();
    let b = pool.allocate().unwrap();
    {
        let block = pool.get_mut(b).unwrap();
        block[0] = 7;
        block[3] = 9;
    }
    assert_eq!(pool.get(b).unwrap(), &[7u8, 0, 0, 9][..]);
    assert_eq!(pool.get(a).unwrap(), &[0u8; 4][..]);
    assert!(pool.get_mut(5).is_none());
    assert_eq!(pool.memory_usage(), 8);
}
