use diorb::units::{
    decimal, format_bytes, format_duration, format_iops, format_latency, format_throughput, parse_bytes,
    parse_duration,
};
use std::time::Duration;

fn ns(d: Duration) -> u64 {
    d.as_nanos() as u64
}

#[test]
fn test_format_bytes() {
    assert_eq!(format_bytes(0), "0 B");
    assert_eq!(format_bytes(512), "512 B");
    assert_eq!(format_bytes(1024), "1.0 KiB");
    assert_eq!(format_bytes(1536), "1.5 KiB");
    assert_eq!(format_bytes(1048576), "1.0 MiB");
    assert_eq!(format_bytes(1073741824), "1.0 GiB");
    assert_eq!(format_bytes(1099511627776), "1.0 TiB");
}

#[test]
fn test_parse_bytes() {
    assert_eq!(parse_bytes("1024").unwrap(), 1024);
    assert_eq!(parse_bytes("1 KiB").unwrap(), 1024);
    assert_eq!(parse_bytes("1.5 MiB").unwrap(), 1572864);
    assert_eq!(parse_bytes("2 GB").unwrap(), 2000000000);
    assert_eq!(parse_bytes("1GiB").unwrap(), 1073741824);

    assert!(parse_bytes("invalid").is_err());
    assert!(parse_bytes("-1 MB").is_err());
    assert!(parse_bytes("1 XB").is_err());
}

#[test]
fn test_format_duration() {
    assert_eq!(format_duration(ns(Duration::from_millis(500))), "500ms");
    assert_eq!(format_duration(ns(Duration::from_secs(30))), "30s");
    assert_eq!(format_duration(ns(Duration::from_millis(1500))), "1.50s");
    assert_eq!(format_duration(ns(Duration::from_secs(90))), "1m 30s");
    assert_eq!(format_duration(ns(Duration::from_secs(3661))), "1h 1m 1s");
}

#[test]
fn test_parse_duration() {
    assert_eq!(parse_duration("30s").unwrap(), ns(Duration::from_secs(30)));
    assert_eq!(parse_duration("1m 30s").unwrap(), ns(Duration::from_secs(90)));
    assert_eq!(parse_duration("1h").unwrap(), ns(Duration::from_secs(3600)));
    assert_eq!(parse_duration("500ms").unwrap(), ns(Duration::from_millis(500)));
    assert_eq!(parse_duration("1.5s").unwrap(), ns(Duration::from_millis(1500)));

    assert!(parse_duration("invalid").is_err());
    assert!(parse_duration("1x").is_err());
}

#[test]
fn test_format_latency() {
    assert_eq!(format_latency(ns(Duration::from_millis(5))), "5.00ms");
    assert_eq!(format_latency(ns(Duration::from_micros(500))), "500\u{3bc}s");
    assert_eq!(format_latency(ns(Duration::from_micros(1500))), "1.50ms");
    assert_eq!(format_latency(ns(Duration::from_micros(50))), "50\u{3bc}s");
}

#[test]
fn decimal_digits() {
    assert_eq!(decimal(0), "0");
    assert_eq!(decimal(907), "907");
    assert_eq!(decimal(u64::MAX), "18446744073709551615");
}

#[test]
fn parse_bytes_edges() {
    assert_eq!(parse_bytes("  3 kib  ").unwrap(), 3072);
    assert_eq!(parse_bytes("0.5KB").unwrap(), 500);
    assert_eq!(parse_bytes("99999999999999999999 TB").unwrap(), u64::MAX);
    assert!(parse_bytes("").is_err());
    assert!(parse_bytes(". B").is_err());
    assert!(parse_bytes("1.2.3 B").is_err());
}

#[test]
fn parse_duration_edges() {
    assert_eq!(parse_duration("").unwrap(), 0);
    assert_eq!(parse_duration(" 2M  5S ").unwrap(), 125_000_000_000);
    assert_eq!(parse_duration("1.0015s").unwrap(), 1_001_000_000);
    assert!(parse_duration("99999999999h").is_err());
    assert!(parse_duration("ms").is_err());
}

#[test]
fn format_edges() {
    assert_eq!(format_bytes(1023), "1023 B");
    assert_eq!(format_bytes(1280), "1.2 KiB");
    assert_eq!(format_latency(1_005_000), "1.00ms");
    assert_eq!(format_latency(1_015_000), "1.02ms");
    assert_eq!(format_duration(1_050_000_000), "1.05s");
}

#[test]
fn test_format_throughput() {
    assert_eq!(format_throughput(1_500), "1.5 MiB/s");
    assert_eq!(format_throughput(1_024_000), "1.0 GiB/s");
    assert_eq!(format_throughput(500), "512.0 KiB/s");
    assert_eq!(format_throughput(0), "0.000 MiB/s");
}

#[test]
fn test_format_iops() {
    assert_eq!(format_iops(500_000), "500 IOPS");
    assert_eq!(format_iops(1_500_000), "1.5K IOPS");
    assert_eq!(format_iops(2_500_000_000), "2.5M IOPS");
}
