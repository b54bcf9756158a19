use diorb::config::{BenchmarkConfig, BenchmarkMode};
use diorb::models::{
    calculate_iops, calculate_throughput_mbps, BenchmarkResult, LatencyStats, PerformanceMetrics,
    StorageInfo, StorageType, SystemInfo,
};
use std::collections::HashMap;
use std::time::Duration;

fn ns(d: Duration) -> u64 {
    d.as_nanos() as u64
}

fn create_test_latency_stats() -> LatencyStats {
    let mut percentiles = HashMap::new();
    percentiles.insert(50, ns(Duration::from_millis(5)));
    percentiles.insert(95, ns(Duration::from_millis(15)));
    percentiles.insert(99, ns(Duration::from_millis(25)));
    LatencyStats::with_percentiles(
        ns(Duration::from_millis(1)),
        ns(Duration::from_millis(5)),
        ns(Duration::from_millis(30)),
        percentiles,
    )
}

#[test]
fn test_latency_stats_creation() {
    let latency = LatencyStats::new(
        ns(Duration::from_millis(1)),
        ns(Duration::from_millis(5)),
        ns(Duration::from_millis(30)),
    );

    assert_eq!(latency.min, ns(Duration::from_millis(1)));
    assert_eq!(latency.avg, ns(Duration::from_millis(5)));
    assert_eq!(latency.max, ns(Duration::from_millis(30)));
    assert!(latency.percentiles.contains_key(&50));
    assert!(latency.percentiles.contains_key(&95));
    assert!(latency.percentiles.contains_key(&99));
}

#[test]
fn test_latency_stats_percentiles() {
    let latency = create_test_latency_stats();

    assert_eq!(latency.p95(), ns(Duration::from_millis(15)));
    assert_eq!(latency.p99(), ns(Duration::from_millis(25)));

    let simple_latency = LatencyStats::new(
        ns(Duration::from_millis(1)),
        ns(Duration::from_millis(5)),
        ns(Duration::from_millis(30)),
    );
    assert_eq!(simple_latency.p95(), ns(Duration::from_millis(30)));
}

#[test]
fn test_latency_stats_accuracy_validation() {
    let ssd_latency = LatencyStats::new(
        ns(Duration::from_micros(100)),
        ns(Duration::from_micros(500)),
        ns(Duration::from_millis(1)),
    );
    assert!(ssd_latency.meets_latency_accuracy(StorageType::Ssd));

    let hdd_latency = LatencyStats::new(
        ns(Duration::from_millis(5)),
        ns(Duration::from_millis(10)),
        ns(Duration::from_millis(15)),
    );
    assert!(hdd_latency.meets_latency_accuracy(StorageType::Hdd));

    let bad_latency = LatencyStats::new(
        ns(Duration::from_millis(1)),
        ns(Duration::from_millis(50)),
        ns(Duration::from_secs(1)),
    );
    assert!(!bad_latency.meets_latency_accuracy(StorageType::Ssd));
}

#[test]
fn test_latency_stats_from_samples() {
    let samples = vec![
        ns(Duration::from_micros(100)),
        ns(Duration::from_micros(200)),
        ns(Duration::from_micros(300)),
    ];

    let stats = LatencyStats::from_samples(&samples);
    assert_eq!(stats.min, ns(Duration::from_micros(100)));
    assert_eq!(stats.max, ns(Duration::from_micros(300)));
    assert_eq!(stats.avg, ns(Duration::from_micros(200)));
    assert_eq!(stats.p95(), ns(Duration::from_micros(300)));
}

#[test]
fn from_samples_sorts_unordered_input() {
    // Ten samples given out of order: ranks come from the sorted list.
    let samples: Vec<u64> = vec![70, 10, 100, 40, 20, 90, 30, 60, 50, 80];
    let stats = LatencyStats::from_samples(&samples);
    assert_eq!(stats.min, 10);
    assert_eq!(stats.max, 100);
    assert_eq!(stats.avg, 55);
    assert_eq!(stats.percentiles[&50], 60);
    assert_eq!(stats.percentiles[&95], 100);
    assert_eq!(stats.percentiles[&99], 100);
}

#[test]
fn from_samples_percentiles_are_ordered() {
    let samples: Vec<u64> = (0..200u64).map(|i| (i * 7919) % 1000).collect();
    let stats = LatencyStats::from_samples(&samples);
    let p50 = stats.percentiles[&50];
    let p95 = stats.percentiles[&95];
    let p99 = stats.percentiles[&99];
    assert!(p50 <= p95 && p95 <= p99 && p99 <= stats.max);
    assert!(stats.min <= stats.avg && stats.avg <= stats.max);
}

#[test]
fn from_samples_empty_is_zero() {
    let stats = LatencyStats::from_samples(&[]);
    assert_eq!((stats.min, stats.avg, stats.max), (0, 0, 0));
    assert!(stats.percentiles.is_empty());
}

#[test]
fn test_system_info_detection() {
    let system_info = SystemInfo::detect("linux x86_64".to_string());
    assert!(!system_info.os.is_empty());
    assert!(!system_info.cpu.is_empty());
}

#[test]
fn system_info_without_os_name() {
    let info = SystemInfo::detect(String::new());
    assert_eq!(info.os, "Unknown OS");
    assert_eq!(info.cpu, "Unknown CPU");
}

#[test]
fn test_storage_info_detection() {
    let storage_info = StorageInfo::detect_default();
    assert_eq!(storage_info.device, "Unknown");
    assert_eq!(storage_info.filesystem, "Unknown");
}

fn create_test_performance_metrics() -> PerformanceMetrics {
    PerformanceMetrics::new(1024 * 1024 * 1024, ns(Duration::from_secs(10)), create_test_latency_stats())
}

#[test]
fn test_performance_metrics_calculation() {
    let bytes_processed = 1024 * 1024 * 1024;
    let elapsed_time = ns(Duration::from_secs(10));
    let metrics = PerformanceMetrics::new(bytes_processed, elapsed_time, create_test_latency_stats());
    // 102.4 MiB/s and 200 operations per second, in thousandths.
    assert_eq!(metrics.throughput_mbps_milli, 102_400);
    assert_eq!(metrics.iops_milli, 200_000);
    assert_eq!(metrics.bytes_processed, bytes_processed);
    assert_eq!(metrics.elapsed_nanos, elapsed_time);
}

#[test]
fn test_performance_metrics_zero_time() {
    let metrics = PerformanceMetrics::new(1024, 0, create_test_latency_stats());
    assert_eq!(metrics.throughput_mbps_milli, 0);
    assert_eq!(metrics.iops_milli, 0);
}

#[test]
fn test_performance_metrics_efficiency_ratio() {
    let metrics = create_test_performance_metrics();
    assert_eq!(metrics.efficiency_ratio(1), metrics.throughput_mbps_milli);
    assert_eq!(metrics.efficiency_ratio(4), metrics.throughput_mbps_milli / 4);
    assert_eq!(metrics.efficiency_ratio(0), 0);
}

#[test]
fn test_performance_metrics_validate_throughput() {
    let metrics = PerformanceMetrics::new(2 * 1024 * 1024, ns(Duration::from_secs(2)), create_test_latency_stats());
    assert!(metrics.validate_throughput());
}

#[test]
fn stale_throughput_fails_validation() {
    let mut metrics = PerformanceMetrics::new(2 * 1024 * 1024, ns(Duration::from_secs(2)), create_test_latency_stats());
    metrics.throughput_mbps_milli = 2_000;
    assert!(!metrics.validate_throughput());
}

#[test]
fn test_throughput_calculation_matches() {
    let bytes = 2 * 1024 * 1024u64;
    let dur = ns(Duration::from_secs(2));
    let expected = calculate_throughput_mbps(bytes, dur);
    let metrics = PerformanceMetrics::new(bytes, dur, LatencyStats::default());
    assert_eq!(metrics.throughput_mbps_milli, expected);
    assert!(metrics.validate_throughput());
}

#[test]
fn test_calculate_throughput_mbps() {
    assert_eq!(calculate_throughput_mbps(1048576, ns(Duration::from_secs(1))), 1_000);
    assert_eq!(calculate_throughput_mbps(2097152, ns(Duration::from_secs(2))), 1_000);
    assert_eq!(calculate_throughput_mbps(1000, 0), 0);
}

#[test]
fn test_calculate_iops() {
    assert_eq!(calculate_iops(1000, ns(Duration::from_secs(1))), 1_000_000);
    assert_eq!(calculate_iops(500, ns(Duration::from_millis(500))), 1_000_000);
    assert_eq!(calculate_iops(1000, 0), 0);
}

#[test]
fn test_storage_type_inference() {
    assert_eq!(StorageType::infer_from_performance(2_000_000, ns(Duration::from_micros(500))), StorageType::Nvme);
    assert_eq!(StorageType::infer_from_performance(500_000, ns(Duration::from_millis(2))), StorageType::Ssd);
    assert_eq!(StorageType::infer_from_performance(100_000, ns(Duration::from_millis(15))), StorageType::Hdd);
}

fn result_with(elapsed_nanos: u64) -> BenchmarkResult {
    let metrics = PerformanceMetrics::new(1024 * 1024 * 1024, elapsed_nanos, create_test_latency_stats());
    BenchmarkResult::with_system_info(
        BenchmarkConfig::sequential_write(),
        metrics,
        SystemInfo::detect("Linux x86_64".to_string()),
        chrono::Utc::now().timestamp_millis(),
    )
}

#[test]
fn test_benchmark_result_accuracy_validation() {
    let base = result_with(10_000_000_000);
    assert!(base.meets_accuracy_requirements(&[]));
    assert!(base.meets_accuracy_requirements(&[base.clone()]));
    let consistent = result_with(10_000_000_000);
    assert!(base.meets_accuracy_requirements(&[consistent.clone(), consistent.clone()]));
    let inconsistent = result_with(5_000_000_000);
    assert!(!base.meets_accuracy_requirements(&[consistent, inconsistent]));
}

#[test]
fn test_benchmark_result_summary() {
    let result = result_with(10_000_000_000);
    let summary = result.summary();
    assert!(summary.contains("Sequential Write"));
    assert!(summary.contains("MB/s"));
    assert!(summary.contains("IOPS"));
    assert!(summary.contains("ms avg latency"));
    assert!(summary.contains("UTC"));
}

#[test]
fn summary_with_given_time() {
    let result = result_with(10_000_000_000);
    assert_eq!(
        result.summary_with_time("2024-01-02 03:04:05 UTC"),
        "2024-01-02 03:04:05 UTC - Sequential Write - 102.40 MB/s - 200 IOPS - 5.00ms avg latency"
    );
}

#[test]
fn summary_time_comes_from_the_stamp() {
    let mut result = result_with(10_000_000_000);
    result.timestamp_millis = 0;
    assert!(result.summary().starts_with("1970-01-01 00:00:00 UTC - "));
}

#[test]
fn test_benchmark_result_creation() {
    let config = BenchmarkConfig::sequential_write();
    let metrics = create_test_performance_metrics();
    let system_info = SystemInfo::detect("Linux x86_64".to_string());
    let stamp = chrono::Utc::now().timestamp_millis();
    let result = BenchmarkResult::with_system_info(config.clone(), metrics.clone(), system_info.clone(), stamp);
    assert_eq!(result.timestamp_millis, stamp);
    assert_eq!(result.config.mode.description(), config.mode.description());
    assert_eq!(result.metrics.bytes_processed, metrics.bytes_processed);
    assert_eq!(result.system_info.os, system_info.os);
    assert!(result.timestamp_millis <= chrono::Utc::now().timestamp_millis());
}

#[test]
fn test_benchmark_modes_in_results() {
    let modes = vec![
        BenchmarkMode::SequentialWrite,
        BenchmarkMode::SequentialRead,
        BenchmarkMode::RandomReadWrite,
        BenchmarkMode::Mixed { read_ratio_ppm: 700_000 },
    ];
    for mode in modes {
        let config = BenchmarkConfig::sequential_write().with_mode(mode);
        let result = BenchmarkResult::with_system_info(
            config,
            create_test_performance_metrics(),
            SystemInfo::detect("Linux x86_64".to_string()),
            0,
        );
        let summary = result.summary();
        assert!(summary.contains(result.config.mode.description()));
    }
}

#[test]
fn new_result_keeps_given_stamp_and_os() {
    let r = BenchmarkResult::new(
        BenchmarkConfig::sequential_read(),
        create_test_performance_metrics(),
        String::new(),
        42,
    );
    assert_eq!(r.timestamp_millis, 42);
    assert_eq!(r.system_info.os, "Unknown OS");
}
