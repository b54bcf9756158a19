use diorb::disk::{create_disk_io, scratch_file_name, AsyncDiskIO, IOMetrics, PlatformDiskIO, StorageType, TempFile};
use diorb::error::{
    create_fallback_strategy, is_retryable_error, user_friendly_message, IoErrorKind, IoFailure,
    RetryConfig, RetryStep,
};
use diorb::persistence::{config_path_under, rotate_results, ResultsStorage, MAX_RESULTS_HISTORY};
use diorb::DIOrbError;

#[test]
fn test_user_friendly_message_and_fallback() {
    let msg = user_friendly_message(&DIOrbError::PermissionDenied("x".into()));
    assert!(msg.contains("Permission denied"));
    let fallback = create_fallback_strategy(&DIOrbError::DirectIoUnsupported("x".into())).unwrap();
    assert!(fallback.to_lowercase().contains("buffered"));
}

#[test]
fn friendly_messages_per_kind() {
    assert_eq!(
        user_friendly_message(&DIOrbError::ConfigError("bad size".into())),
        "Configuration error: bad size. Check your settings."
    );
    assert_eq!(
        user_friendly_message(&DIOrbError::WorkerError("lost".into())),
        "Worker error: lost"
    );
    assert_eq!(
        user_friendly_message(&DIOrbError::CancellationError("x".into())),
        "Operation was cancelled by user."
    );
    assert!(create_fallback_strategy(&DIOrbError::InsufficientSpace("x".into()))
        .unwrap()
        .contains("reducing the file size"));
    assert!(create_fallback_strategy(&DIOrbError::BenchmarkError("x".into())).is_none());
}

fn io(kind: IoErrorKind) -> IoFailure {
    IoFailure { kind, message: "boom".to_string() }
}

#[test]
fn io_failures_are_classified() {
    match DIOrbError::from_io(io(IoErrorKind::PermissionDenied)) {
        DIOrbError::PermissionDenied(m) => assert_eq!(m, "Access denied: boom"),
        other => panic!("unexpected {:?}", other),
    }
    match DIOrbError::from_io(io(IoErrorKind::StorageFull)) {
        DIOrbError::InsufficientSpace(m) => assert_eq!(m, "Storage full: boom"),
        other => panic!("unexpected {:?}", other),
    }
    assert!(matches!(DIOrbError::from_io(io(IoErrorKind::OutOfMemory)), DIOrbError::IoError(_)));
    assert!(matches!(DIOrbError::from_io(io(IoErrorKind::NotFound)), DIOrbError::IoError(_)));
    assert_eq!(DIOrbError::IoError(io(IoErrorKind::Other)).message(), "I/O error: boom");
}

#[test]
fn retryable_kinds() {
    assert!(is_retryable_error(&DIOrbError::IoError(io(IoErrorKind::Interrupted))));
    assert!(!is_retryable_error(&DIOrbError::IoError(io(IoErrorKind::NotFound))));
    assert!(is_retryable_error(&DIOrbError::TempFileError("x".into())));
    assert!(is_retryable_error(&DIOrbError::BenchmarkError("x".into())));
    assert!(!is_retryable_error(&DIOrbError::PermissionDenied("x".into())));
    assert!(!is_retryable_error(&DIOrbError::ConfigError("x".into())));
}

#[test]
fn retry_policy_backs_off_and_stops() {
    let config = RetryConfig::default();
    let transient = DIOrbError::IoError(io(IoErrorKind::Interrupted));
    assert_eq!(config.step_after_failure(0, 100, &transient), RetryStep::RetryAfter(100));
    assert_eq!(config.next_delay(100), 200);
    assert_eq!(config.next_delay(4000), 5000);
    assert_eq!(config.step_after_failure(2, 400, &transient), RetryStep::GiveUp);
    let fatal = DIOrbError::PermissionDenied("x".into());
    assert_eq!(config.step_after_failure(0, 100, &fatal), RetryStep::GiveUp);
}

#[test]
fn test_storage_type_block_sizes() {
    assert_eq!(StorageType::HDD.optimal_block_size(), 1024 * 1024);
    assert_eq!(StorageType::SSD.optimal_block_size(), 64 * 1024);
    assert_eq!(StorageType::NVMe.optimal_block_size(), 128 * 1024);
    assert_eq!(StorageType::Unknown.optimal_block_size(), 64 * 1024);
}

#[test]
fn queue_depths() {
    assert_eq!(StorageType::HDD.optimal_queue_depth(), 1);
    assert_eq!(StorageType::NVMe.optimal_queue_depth(), 8);
}

#[test]
fn scratch_names_and_temp_files() {
    assert_eq!(scratch_file_name(4321), "DIORB_TMP_4321.dat");
    assert_eq!(scratch_file_name(0), "DIORB_TMP_0.dat");
    let mut t = TempFile::new("/tmp/x.dat".to_string(), true);
    assert!(t.cleanup_on_drop());
    t.keep_on_drop();
    assert!(!t.cleanup_on_drop());
    assert_eq!(t.path(), "/tmp/x.dat");
}

#[test]
fn test_optimal_block_size() {
    let disk_io = create_disk_io();
    let block_size = disk_io.get_optimal_block_size("/tmp");
    assert_eq!(block_size, 65536);
}

#[test]
fn test_config_file_path() {
    let path = diorb::persistence::config_file_path();
    assert!(path.is_ok());
    let path = path.unwrap();
    assert!(path.contains("diorb"));
    assert!(path.contains("diorb.toml"));
}

#[test]
fn test_async_disk_io_creation() {
    let async_io = AsyncDiskIO::new(PlatformDiskIO::new(), 4096).unwrap();
    assert_eq!(async_io.buffer_pool().buffer_size(), 4096);
    assert!(AsyncDiskIO::new(PlatformDiskIO::new(), 0).is_err());
}

#[test]
fn test_results_storage_new() {
    let storage = ResultsStorage::new();
    assert!(storage.is_ok());
}

#[test]
fn results_path_is_under_data_dir() {
    let path = ResultsStorage::results_path_under(Some("/data".to_string())).unwrap();
    assert!(path.contains("diorb"));
    assert!(path.ends_with("results.json"));
    assert!(path.starts_with("/data"));
    assert!(ResultsStorage::results_path_under(None).is_err());
    let cfg = config_path_under(Some("/cfg".to_string())).unwrap();
    assert!(cfg.ends_with("diorb.toml"));
}

#[test]
fn results_rotation_keeps_latest() {
    let mut results: Vec<u32> = Vec::new();
    for i in 0..(MAX_RESULTS_HISTORY as u32 + 10) {
        results = rotate_results(results, i);
    }
    assert_eq!(results.len(), MAX_RESULTS_HISTORY);
    assert_eq!(results[0], 10);
    assert_eq!(*results.last().unwrap(), MAX_RESULTS_HISTORY as u32 + 9);
    let storage = ResultsStorage::at_path("r.json".to_string());
    assert_eq!(storage.recent_results(vec![1, 2, 3, 4], 2), vec![3, 4]);
    assert_eq!(storage.recent_results(vec![1, 2], 5), vec![1, 2]);
}

#[test]
fn test_io_metrics() {
    let metrics = IOMetrics::new(1024 * 1024, 1_000_000_000, 100);
    assert_eq!(metrics.bytes_processed, 1024 * 1024);
    assert_eq!(metrics.throughput_mbps_milli, 1_000);
    assert_eq!(metrics.iops_milli, 100_000);
}

#[test]
fn test_metrics_combine() {
    let metrics1 = IOMetrics::new(1024, 100_000_000, 10);
    let metrics2 = IOMetrics::new(2048, 200_000_000, 20);
    let combined = IOMetrics::combine(&[metrics1, metrics2]);
    assert_eq!(combined.bytes_processed, 3072);
    assert_eq!(combined.operations_count, 30);
    assert_eq!(combined.elapsed_nanos, 200_000_000);
    assert_eq!(combined.iops_milli, 150_000);
}
