use diorb::buffer::{BufferPool, PooledBuffer};
use diorb::config::{BenchmarkConfig, BenchmarkMode, PathStatus};
use diorb::models::{BenchmarkResult, PerformanceMetrics, SystemInfo};
use diorb::random::{choose_operation, IoOp, RandomBenchmark};
use diorb::sequential::{create_test_pattern, ProgressUpdate, SequentialBenchmark};
use diorb::worker::{aggregate_progress, all_workers_done, WorkerInfo, WorkerManager, WorkerStatus};
use diorb::DIOrbError;
use rand::rngs::SmallRng;
use rand::SeedableRng;

/// Drives a sequential write run against an in-memory file, every write
/// taking one millisecond, and reports progress after every block.
fn write_in_memory(config: BenchmarkConfig) -> (Vec<u8>, Vec<ProgressUpdate>, PerformanceMetrics) {
    let mut bench = SequentialBenchmark::new(config, PathStatus::Directory).unwrap();
    let buffer = bench.pattern_buffer();
    let mut run = bench.start_run().unwrap();
    let mut file = Vec::new();
    let mut updates = Vec::new();
    let mut now: u64 = 0;
    while !run.is_finished() {
        let len = run.next_len();
        file.extend_from_slice(&buffer[..len]);
        now += 1_000_000;
        run.record_write(len, 1_000_000).unwrap();
        updates.push(run.progress(now));
    }
    let metrics = run.finish(now);
    updates.push(run.final_update(&metrics));
    (file, updates, metrics)
}

#[test]
fn test_create_test_pattern() {
    let pattern = create_test_pattern(256);
    assert_eq!(pattern.len(), 256);
    for (i, &byte) in pattern.iter().enumerate() {
        assert_eq!(byte, (i % 256) as u8);
    }
}

#[test]
fn test_sequential_write_benchmark() {
    let config = BenchmarkConfig::sequential_write()
        .with_file_size(1_048_576)
        .with_block_size(65_536);
    let (_, updates, metrics) = write_in_memory(config);
    assert_eq!(metrics.bytes_processed, 1_048_576);
    assert!(metrics.throughput_mbps_milli > 0);
    let last = updates.last().unwrap();
    assert_eq!(last.bytes_processed, 1_048_576);
    assert_eq!(last.completion_percentage(), 1_000_000);
    // 1 MiB in 16 ms of 1 ms writes: 62.5 MiB/s and 1000 operations/s.
    assert_eq!(metrics.throughput_mbps_milli, 62_500);
    assert_eq!(metrics.iops_milli, 1_000_000);
}

#[test]
fn completion_never_decreases_and_ends_at_one() {
    let config = BenchmarkConfig::sequential_write()
        .with_file_size(1_000_000)
        .with_block_size(65_536);
    let (_, updates, _) = write_in_memory(config);
    for pair in updates.windows(2) {
        assert!(pair[0].completion_percentage() <= pair[1].completion_percentage());
    }
    assert_eq!(updates.last().unwrap().completion_percentage(), 1_000_000);
}

#[test]
fn written_file_round_trips_to_pattern() {
    let config = BenchmarkConfig::sequential_write()
        .with_file_size(200_000)
        .with_block_size(4096);
    let (file, _, _) = write_in_memory(config);
    assert_eq!(file.len(), 200_000);
    let mut read_back = Vec::new();
    for chunk in file.chunks(4096) {
        read_back.extend_from_slice(chunk);
    }
    for (i, b) in read_back.iter().enumerate() {
        assert_eq!(*b, (i % 256) as u8);
    }
}

#[test]
fn sequential_read_stops_at_end_of_file() {
    let config = BenchmarkConfig::sequential_read()
        .with_file_size(1_048_576)
        .with_block_size(65_536);
    let bench = SequentialBenchmark::new(config, PathStatus::Directory).unwrap();
    let mut run = bench.start_run().unwrap();
    run.record_read(65_536, 10).unwrap();
    run.record_read(0, 10).unwrap();
    assert!(run.is_finished());
    assert_eq!(run.bytes_done(), 65_536);
    let metrics = run.finish(1_000);
    assert_eq!(metrics.latency.min, 10);
    assert_eq!(metrics.bytes_processed, 65_536);
    let last = run.final_update(&metrics);
    assert_eq!(last.completion_percentage(), 1_000_000);
    assert_eq!(last.eta_nanos, Some(0));
}

#[test]
fn released_buffer_returns_to_executor_pool() {
    let config = BenchmarkConfig::sequential_write().with_file_size(1_048_576);
    let mut bench = SequentialBenchmark::new(config, PathStatus::Directory).unwrap();
    let buffer = bench.pattern_buffer();
    assert_eq!(buffer.len(), 65_536);
    bench.release_buffer(buffer);
    // The pooled buffer comes back zeroed and is overwritten with the pattern.
    let again = bench.pattern_buffer();
    assert_eq!(again[300], (300 % 256) as u8);
}

#[test]
fn zero_byte_write_is_an_error() {
    let config = BenchmarkConfig::sequential_write().with_file_size(1_048_576);
    let bench = SequentialBenchmark::new(config, PathStatus::Directory).unwrap();
    let mut run = bench.start_run().unwrap();
    match run.record_write(0, 5) {
        Err(DIOrbError::BenchmarkError(msg)) => assert_eq!(msg, "Write returned 0 bytes"),
        _ => panic!("expected a benchmark error"),
    }
}

#[test]
fn test_sequential_benchmark_invalid_mode() {
    let config = BenchmarkConfig::random_read_write();
    let bench = SequentialBenchmark::new(config, PathStatus::Directory).unwrap();
    match bench.start_run() {
        Err(DIOrbError::BenchmarkError(msg)) => {
            assert!(msg.contains("Sequential benchmark only supports"))
        }
        _ => panic!("Expected benchmark error for invalid mode"),
    }
}

#[test]
fn test_progress_update_completion_percentage() {
    let update = ProgressUpdate {
        bytes_processed: 500,
        total_bytes: 1000,
        throughput_mbps_milli: 10_000,
        iops_milli: 100_000,
        elapsed_nanos: 1_000_000_000,
        eta_nanos: Some(1_000_000_000),
    };
    assert_eq!(update.completion_percentage(), 500_000);
    let complete_update = ProgressUpdate {
        bytes_processed: 1000,
        elapsed_nanos: 2_000_000_000,
        eta_nanos: Some(0),
        ..update
    };
    assert_eq!(complete_update.completion_percentage(), 1_000_000);
    let empty = ProgressUpdate { total_bytes: 0, ..update };
    assert_eq!(empty.completion_percentage(), 0);
}

#[test]
fn config_validation_errors() {
    let ok = BenchmarkConfig::sequential_write();
    assert!(ok.validate(PathStatus::Directory).is_ok());
    for bad in [
        ok.clone().validate(PathStatus::Missing),
        ok.clone().validate(PathStatus::NotDirectory),
        ok.clone().with_file_size(0).validate(PathStatus::Directory),
        ok.clone().with_file_size(100 * 1024 * 1024 * 1024 + 1).validate(PathStatus::Directory),
        ok.clone().with_block_size(3000).validate(PathStatus::Directory),
        ok.clone().with_block_size(256).validate(PathStatus::Directory),
        ok.clone().with_block_size(2 * 1024 * 1024).validate(PathStatus::Directory),
        ok.clone().with_file_size(1024).validate(PathStatus::Directory),
        ok.clone().with_duration(0).validate(PathStatus::Directory),
        ok.clone().with_duration(3_600_000_000_001).validate(PathStatus::Directory),
        ok.clone().with_thread_count(0).validate(PathStatus::Directory),
        ok.clone().with_thread_count(65).validate(PathStatus::Directory),
        ok.clone().with_mode(BenchmarkMode::Mixed { read_ratio_ppm: 1_000_001 }).validate(PathStatus::Directory),
    ] {
        assert!(matches!(bad, Err(DIOrbError::ConfigError(_))));
    }
    // A small file is fine for a time-bounded mode.
    assert!(BenchmarkConfig::random_read_write()
        .with_file_size(1024)
        .validate(PathStatus::Directory)
        .is_ok());
}

#[test]
fn test_buffer_pool_basic() {
    let mut pool = BufferPool::new(1024, 5).unwrap();
    let buffer1 = pool.get_buffer();
    assert_eq!(buffer1.len(), 1024);
    assert_eq!(pool.pool_size().unwrap(), 0);
    pool.return_buffer(buffer1).unwrap();
    assert_eq!(pool.pool_size().unwrap(), 1);
    let buffer2 = pool.get_buffer();
    assert_eq!(buffer2.len(), 1024);
    assert_eq!(pool.pool_size().unwrap(), 0);
}

#[test]
fn test_buffer_pool_max_limit() {
    let mut pool = BufferPool::new(512, 2).unwrap();
    let buf1 = pool.get_buffer();
    let buf2 = pool.get_buffer();
    let buf3 = pool.get_buffer();
    pool.return_buffer(buf1).unwrap();
    pool.return_buffer(buf2).unwrap();
    pool.return_buffer(buf3).unwrap();
    assert_eq!(pool.pool_size().unwrap(), 2);
}

#[test]
fn buffer_pool_rejects_zero_sizes_and_wrong_buffers() {
    assert!(matches!(BufferPool::new(0, 4), Err(DIOrbError::ConfigError(_))));
    assert!(matches!(BufferPool::new(4, 0), Err(DIOrbError::ConfigError(_))));
    let mut pool = BufferPool::new(256, 3).unwrap();
    pool.return_buffer(vec![1u8; 100]).unwrap();
    assert_eq!(pool.pool_size().unwrap(), 0);
}

#[test]
fn test_pooled_buffer_raii() {
    let mut pool = BufferPool::new(256, 3).unwrap();
    let mut pooled = PooledBuffer::new(&mut pool).unwrap();
    assert_eq!(pooled.len(), 256);
    pooled.as_mut()[0] = 42;
    assert_eq!(pooled.as_ref()[0], 42);
    pooled.release(&mut pool);
    assert_eq!(pool.pool_size().unwrap(), 1);
    let pooled2 = PooledBuffer::new(&mut pool).unwrap();
    assert_eq!(pooled2.as_ref()[0], 0);
    assert!(!pooled2.is_empty());
}

#[test]
fn random_zero_ratio_issues_only_writes() {
    let config = BenchmarkConfig::random_read_write()
        .with_file_size(512 * 1024)
        .with_duration(500_000_000);
    let bench = RandomBenchmark::new(config, PathStatus::Directory).unwrap();
    let mut run = bench.start_run(0);
    let mut rng = SmallRng::seed_from_u64(7);
    let mut now = 0;
    while !run.is_over(now) {
        let (offset, op) = run.next_operation(&mut rng);
        assert!(offset < 512 * 1024 - 4096);
        assert_eq!(op, IoOp::Write);
        run.record(1_000);
        now += 1_000_000;
    }
    assert!(run.bytes_processed() > 0);
    assert_eq!(run.read_count(), 0);
    let metrics = run.finish(now);
    assert_eq!(metrics.bytes_processed, run.operation_count() * 4096);
    assert_eq!(run.final_update(&metrics).bytes_processed, 1000);
}

#[test]
fn random_full_ratio_issues_only_reads() {
    let bench = RandomBenchmark::new(BenchmarkConfig::random_read_write(), PathStatus::Directory).unwrap();
    let mut run = bench.start_run(1_000_000);
    let mut rng = SmallRng::seed_from_u64(11);
    for _ in 0..100 {
        assert_eq!(run.next_operation(&mut rng).1, IoOp::Read);
    }
    assert_eq!(choose_operation(499_999, 500_000), IoOp::Read);
    assert_eq!(choose_operation(500_000, 500_000), IoOp::Write);
}

#[test]
fn random_progress_is_share_of_duration() {
    let config = BenchmarkConfig::random_read_write().with_duration(1_000_000_000);
    let bench = RandomBenchmark::new(config, PathStatus::Directory).unwrap();
    let mut run = bench.start_run(500_000);
    let half = run.progress(500_000_000);
    assert_eq!(half.bytes_processed, 500);
    assert_eq!(half.total_bytes, 1000);
    assert_eq!(half.eta_nanos, Some(500_000_000));
    let over = run.progress(2_000_000_000);
    assert_eq!(over.bytes_processed, 1000);
    assert_eq!(over.eta_nanos, Some(0));
}

fn result_of(bytes: u64, elapsed: u64, lat: (u64, u64, u64)) -> BenchmarkResult {
    let latency = diorb::models::LatencyStats::new(lat.0, lat.1, lat.2);
    BenchmarkResult::with_system_info(
        BenchmarkConfig::sequential_write(),
        PerformanceMetrics::new(bytes, elapsed, latency),
        SystemInfo::detect("test".to_string()),
        1_700_000_000_000,
    )
}

#[test]
fn test_multiple_worker_sequential_benchmark() {
    let config = BenchmarkConfig::sequential_write()
        .with_file_size(2_097_152)
        .with_thread_count(2);
    let mut manager = WorkerManager::new(config, PathStatus::Directory).unwrap();
    assert!(!manager.started());
    manager.start_benchmark().unwrap();
    let share = manager.worker_config();
    assert_eq!(share.file_size, 1_048_576);
    let (_, _, m1) = write_in_memory(share.clone());
    let (_, _, m2) = write_in_memory(share.clone());
    assert_eq!(m1.bytes_processed, 1_048_576);
    assert_eq!(m2.bytes_processed, 1_048_576);
    let results = manager
        .complete_workers(vec![
            Ok(BenchmarkResult::with_system_info(share.clone(), m1, SystemInfo::detect("t".to_string()), 0)),
            Ok(BenchmarkResult::with_system_info(share.clone(), m2, SystemInfo::detect("t".to_string()), 0)),
        ])
        .unwrap();
    assert_eq!(results.len(), 2);
    assert!(manager.all_workers_completed());
    let combined = manager.combine_results(results).unwrap();
    assert_eq!(combined.metrics.bytes_processed, 2_097_152);
}

#[test]
fn combined_metrics_use_sum_max_and_triplets() {
    let config = BenchmarkConfig::sequential_write().with_thread_count(2);
    let manager = WorkerManager::new(config, PathStatus::Directory).unwrap();
    let combined = manager
        .combine_results(vec![
            result_of(1000, 2_000_000_000, (10, 20, 30)),
            result_of(3000, 4_000_000_000, (40, 50, 60)),
        ])
        .unwrap();
    assert_eq!(combined.metrics.bytes_processed, 4000);
    assert_eq!(combined.metrics.elapsed_nanos, 4_000_000_000);
    assert_eq!(combined.metrics.latency.min, 10);
    assert_eq!(combined.metrics.latency.max, 60);
    assert_eq!(combined.metrics.latency.avg, 35);
    assert_eq!(combined.metrics.latency.percentiles[&50], 40);
    match manager.combine_results(vec![]) {
        Err(DIOrbError::BenchmarkError(msg)) => assert_eq!(msg, "No results to combine"),
        _ => panic!("expected a benchmark error"),
    }
}

#[test]
fn test_worker_cancellation() {
    let config = BenchmarkConfig::sequential_write()
        .with_file_size(1_048_576)
        .with_thread_count(2);
    let mut manager = WorkerManager::new(config, PathStatus::Directory).unwrap();
    manager.start_benchmark().unwrap();
    assert_eq!(manager.active_worker_count(), 2);
    assert!(!manager.all_workers_completed());
    manager.cancel_all().unwrap();
    for (_, status) in manager.get_worker_statuses() {
        assert_eq!(status, WorkerStatus::Cancelled);
    }
    assert_eq!(manager.active_worker_count(), 0);
    assert!(manager.all_workers_completed());
}

#[test]
fn first_failure_is_reported_and_marked() {
    let config = BenchmarkConfig::sequential_write()
        .with_file_size(1_048_576)
        .with_thread_count(3);
    let mut manager = WorkerManager::new(config, PathStatus::Directory).unwrap();
    manager.start_benchmark().unwrap();
    let outcome = manager.complete_workers(vec![
        Ok(result_of(10, 10, (1, 2, 3))),
        Err(DIOrbError::BenchmarkError("disk gone".to_string())),
        Ok(result_of(10, 10, (1, 2, 3))),
    ]);
    assert!(matches!(outcome, Err(DIOrbError::BenchmarkError(_))));
    let statuses = manager.get_worker_statuses();
    assert_eq!(statuses[0].1, WorkerStatus::Completed);
    assert_eq!(statuses[1].1, WorkerStatus::Failed("Benchmark error: disk gone".to_string()));
    assert_eq!(statuses[2].1, WorkerStatus::Running);
}

#[test]
fn start_fails_when_share_is_below_block() {
    let config = BenchmarkConfig::sequential_write()
        .with_file_size(65_536)
        .with_thread_count(4);
    let mut manager = WorkerManager::new(config, PathStatus::Directory).unwrap();
    assert!(matches!(manager.start_benchmark(), Err(DIOrbError::ConfigError(_))));
    for (_, status) in manager.get_worker_statuses() {
        assert_eq!(status, WorkerStatus::Idle);
    }
}

#[test]
fn test_worker_info() {
    let mut worker = WorkerInfo::new(42);
    assert_eq!(worker.id, 42);
    assert_eq!(worker.status, WorkerStatus::Idle);
    assert!(!worker.is_active());
    assert!(!worker.is_completed());
    worker.status = WorkerStatus::Running;
    assert!(worker.is_active());
    assert!(!worker.is_completed());
    worker.status = WorkerStatus::Completed;
    assert!(!worker.is_active());
    assert!(worker.is_completed());
    worker.status = WorkerStatus::Failed("test error".to_string());
    assert!(!worker.is_active());
    assert!(worker.is_completed());
}

#[test]
fn test_aggregated_progress_calculation() {
    let progress1 = ProgressUpdate {
        bytes_processed: 500,
        total_bytes: 1000,
        throughput_mbps_milli: 10_000,
        iops_milli: 100_000,
        elapsed_nanos: 1_000_000_000,
        eta_nanos: Some(1_000_000_000),
    };
    let progress2 = ProgressUpdate {
        bytes_processed: 750,
        throughput_mbps_milli: 15_000,
        iops_milli: 150_000,
        ..progress1
    };
    let worker_progress = vec![Some(progress1), Some(progress2), None];
    let aggregated = aggregate_progress(&worker_progress, 5);
    assert_eq!(aggregated.total_bytes_processed, 1250);
    assert_eq!(aggregated.total_bytes_target, 2000);
    assert_eq!(aggregated.total_iops_milli, 250_000);
    assert_eq!(aggregated.active_workers, 2);
    assert_eq!(aggregated.avg_throughput_mbps_milli, 12_500);
    assert_eq!(aggregated.completion_percentage(), 625_000);
    assert_eq!(aggregated.elapsed_nanos, 5);
    assert!(aggregated.eta_nanos.is_some());
    assert!(!all_workers_done(&worker_progress));
    let done = ProgressUpdate { bytes_processed: 1000, ..progress1 };
    assert!(all_workers_done(&[Some(done), Some(done)]));
}

#[test]
fn cancelled_workers_stay_cancelled_after_joining() {
    let config = BenchmarkConfig::sequential_write()
        .with_file_size(2_097_152)
        .with_thread_count(2);
    let mut manager = WorkerManager::new(config, PathStatus::Directory).unwrap();
    manager.start_benchmark().unwrap();
    manager.cancel_all().unwrap();
    let outcome = manager.complete_workers(vec![
        Err(DIOrbError::BenchmarkError("Worker 0 cancelled".to_string())),
        Ok(result_of(10, 10, (1, 2, 3))),
    ]);
    assert!(matches!(outcome, Err(DIOrbError::BenchmarkError(_))));
    for (_, status) in manager.get_worker_statuses() {
        assert_eq!(status, WorkerStatus::Cancelled);
    }
}
