//! Latency statistics, performance metrics and benchmark results.
//! Durations are held as whole nanoseconds.

use vstd::prelude::*;
use vstd::relations::*;
use std::collections::HashMap;
use vstd::string::*;
use crate::config::{mode_description, BenchmarkConfig};
use crate::units::{digits_of, round_half_even, two_digits};

verus! {

broadcast use vstd::std_specs::hash::group_hash_axioms;

/// The order in which latency samples are ranked.
pub open spec fn nanos_leq() -> spec_fn(u64, u64) -> bool {
    |a: u64, b: u64| a <= b
}

/// The samples in ascending order.
pub open spec fn ascending(s: Seq<u64>) -> Seq<u64> {
    s.sort_by(nanos_leq())
}

/// The sum of the samples.
pub open spec fn seq_sum(s: Seq<u64>) -> int
    decreases s.len(),
{
    if s.len() == 0 {
        0
    } else {
        seq_sum(s.drop_last()) + s.last() as int
    }
}

/// The rank of percentile `p` among `n` sorted samples: the index
/// `⌊n·p/100⌋`, by truncation.
pub open spec fn percentile_index(n: nat, p: nat) -> int {
    (n * p / 100) as int
}

/// The sample at percentile `p`.
pub open spec fn percentile_of(s: Seq<u64>, p: nat) -> u64 {
    ascending(s)[percentile_index(s.len(), p)]
}

/// The mean of the samples, truncated to whole nanoseconds.
pub open spec fn mean_of(s: Seq<u64>) -> int {
    seq_sum(s) / (s.len() as int)
}

/// Relies on `slice::sort`: it sorts the vector in ascending order, which
/// for integers is the one ascending permutation of the input.
#[verifier::external_body]
fn sort_ascending(v: &mut Vec<u64>)
    ensures
        final(v)@ == ascending(old(v)@),
{
    v.sort();
}

/// Latency statistics with min/avg/max and percentiles, in nanoseconds
#[derive(Debug, Clone)]
pub struct LatencyStats {
    /// Minimum latency observed
    pub min: u64,
    /// Average latency across all operations
    pub avg: u64,
    /// Maximum latency observed
    pub max: u64,
    /// Latency by percentile rank (50th, 95th, 99th, ...)
    pub percentiles: HashMap<u8, u64>,
}

/// The ranked samples are ordered and keep the samples' values.
pub proof fn lemma_ascending(s: Seq<u64>)
    ensures
        ascending(s).len() == s.len(),
        sorted_by(ascending(s), nanos_leq()),
        ascending(s).to_multiset() == s.to_multiset(),
{
    assert(total_ordering(nanos_leq()));
    s.lemma_sort_by_ensures(nanos_leq());
    s.to_multiset_ensures();
    ascending(s).to_multiset_ensures();
}

/// Every sample lies between the smallest and the largest ranked sample.
pub proof fn lemma_samples_within_range(s: Seq<u64>)
    requires
        s.len() > 0,
    ensures
        forall|i: int|
            0 <= i < s.len() ==> ascending(s)[0] <= #[trigger] s[i] <= ascending(s)[s.len() - 1],
{
    lemma_ascending(s);
    let a = ascending(s);
    s.to_multiset_ensures();
    a.to_multiset_ensures();
    assert forall|i: int| 0 <= i < s.len() implies a[0] <= #[trigger] s[i] <= a[s.len() - 1] by {
        assert(s.contains(s[i]));
        assert(s.to_multiset().count(s[i]) > 0);
        assert(a.to_multiset().count(s[i]) > 0);
        assert(a.contains(s[i]));
        let j = choose|j: int| 0 <= j < a.len() && a[j] == s[i];
        if j > 0 {
            assert(nanos_leq()(a[0], a[j]));
        }
        if j < s.len() - 1 {
            assert(nanos_leq()(a[j], a[s.len() - 1]));
        }
    }
}

/// A sum of samples that all lie in `[lo, hi]` lies in `[n·lo, n·hi]`.
pub proof fn lemma_sum_bounds(s: Seq<u64>, lo: int, hi: int)
    requires
        forall|i: int| 0 <= i < s.len() ==> lo <= #[trigger] s[i] <= hi,
    ensures
        s.len() * lo <= seq_sum(s) <= s.len() * hi,
    decreases s.len(),
{
    if s.len() > 0 {
        let t = s.drop_last();
        assert forall|i: int| 0 <= i < t.len() implies lo <= #[trigger] t[i] <= hi by {
            assert(t[i] == s[i]);
        }
        lemma_sum_bounds(t, lo, hi);
        assert(s.len() * lo == t.len() * lo + lo) by (nonlinear_arith)
            requires
                s.len() == t.len() + 1,
        ;
        assert(s.len() * hi == t.len() * hi + hi) by (nonlinear_arith)
            requires
                s.len() == t.len() + 1,
        ;
    }
}

/// Rank indices grow with the percentile and stay below the sample count.
pub proof fn lemma_percentile_index(n: nat, p: nat, q: nat)
    requires
        n > 0,
        p <= q < 100,
    ensures
        0 <= percentile_index(n, p) <= percentile_index(n, q) < n,
{
    assert(n * p <= n * q) by (nonlinear_arith)
        requires
            p <= q,
    ;
    assert(n * q < n * 100) by (nonlinear_arith)
        requires
            q < 100,
            n > 0,
    ;
    assert((n * p) / 100 <= (n * q) / 100) by (nonlinear_arith)
        requires
            n * p <= n * q,
    ;
}

/// Percentiles and the mean of any non-empty sample list are ordered: the
/// 50th, 95th and 99th percentiles never decrease and never exceed the
/// maximum, and the mean lies between the minimum and the maximum.
pub proof fn lemma_latency_order(s: Seq<u64>)
    requires
        s.len() > 0,
    ensures
        percentile_of(s, 50) <= percentile_of(s, 95),
        percentile_of(s, 95) <= percentile_of(s, 99),
        percentile_of(s, 99) <= ascending(s)[s.len() - 1],
        ascending(s)[0] <= mean_of(s) <= ascending(s)[s.len() - 1],
{
    lemma_ascending(s);
    let a = ascending(s);
    let n = s.len();
    lemma_percentile_index(n, 50, 95);
    lemma_percentile_index(n, 95, 99);
    let i50 = percentile_index(n, 50);
    let i95 = percentile_index(n, 95);
    let i99 = percentile_index(n, 99);
    if i50 < i95 {
        assert(nanos_leq()(a[i50], a[i95]));
    }
    if i95 < i99 {
        assert(nanos_leq()(a[i95], a[i99]));
    }
    if i99 < n - 1 {
        assert(nanos_leq()(a[i99], a[n - 1]));
    }
    lemma_samples_within_range(s);
    lemma_sum_bounds(s, a[0] as int, a[n - 1] as int);
    let lo = a[0] as int;
    let hi = a[n - 1] as int;
    let sum = seq_sum(s);
    assert(lo <= sum / (n as int) <= hi) by (nonlinear_arith)
        requires
            n * lo <= sum <= n * hi,
            n > 0,
    ;
}

/// The statistics of a sample list: all zero with no percentiles when
/// there are no samples; otherwise the smallest, mean and largest sample,
/// and the 50th, 95th and 99th percentiles by rank.
pub open spec fn stats_of_samples(st: LatencyStats, s: Seq<u64>) -> bool {
    if s.len() == 0 {
        &&& st.min == 0
        &&& st.avg == 0
        &&& st.max == 0
        &&& st.percentiles@ == Map::<u8, u64>::empty()
    } else {
        &&& st.min == ascending(s)[0]
        &&& st.max == ascending(s)[s.len() - 1]
        &&& st.avg == mean_of(s)
        &&& st.percentiles@ == map![
            50u8 => percentile_of(s, 50),
            95u8 => percentile_of(s, 95),
            99u8 => percentile_of(s, 99),
        ]
    }
}

/// Statistics computed from a non-empty sample list are ordered:
/// `p50 ≤ p95 ≤ p99 ≤ max` and `min ≤ avg ≤ max`.
pub proof fn lemma_stats_ordered(st: LatencyStats, s: Seq<u64>)
    requires
        s.len() > 0,
        stats_of_samples(st, s),
    ensures
        st.percentiles@[50u8] <= st.percentiles@[95u8],
        st.percentiles@[95u8] <= st.percentiles@[99u8],
        st.percentiles@[99u8] <= st.max,
        st.min <= st.avg <= st.max,
{
    lemma_latency_order(s);
}

/// The sum of a list of samples, computed without overflow.
fn sum_of(s: &[u64]) -> (r: u128)
    ensures
        r == seq_sum(s@),
        r <= s@.len() * (u64::MAX as int),
{
    let mut sum: u128 = 0;
    let mut i: usize = 0;
    while i < s.len()
        invariant
            i <= s@.len(),
            sum == seq_sum(s@.subrange(0, i as int)),
            sum <= i * (u64::MAX as int),
        decreases s.len() - i,
    {
        assert(s@.subrange(0, i + 1).drop_last() =~= s@.subrange(0, i as int));
        assert((i + 1) * (u64::MAX as int) == i * (u64::MAX as int) + u64::MAX) by (nonlinear_arith);
        assert(i * (u64::MAX as int) <= (usize::MAX as int) * (u64::MAX as int)) by (nonlinear_arith)
            requires
                i <= usize::MAX,
        ;
        sum = sum + s[i] as u128;
        i = i + 1;
    }
    assert(s@.subrange(0, i as int) =~= s@);
    sum
}

/// A vector holding the same samples.
fn copy_of(s: &[u64]) -> (r: Vec<u64>)
    ensures
        r@ == s@,
{
    let mut v: Vec<u64> = Vec::new();
    let mut i: usize = 0;
    while i < s.len()
        invariant
            i <= s@.len(),
            v@ == s@.subrange(0, i as int),
        decreases s.len() - i,
    {
        v.push(s[i]);
        i = i + 1;
    }
    assert(v@ =~= s@);
    v
}

/// The index `⌊n·p/100⌋`.
fn rank_index(n: usize, p: u8) -> (r: usize)
    requires
        n > 0,
        p < 100,
    ensures
        r == percentile_index(n as nat, p as nat),
        r < n,
{
    proof {
        lemma_percentile_index(n as nat, p as nat, p as nat);
    }
    ((n as u128) * (p as u128) / 100) as usize
}

impl Default for LatencyStats {
    fn default() -> (r: Self)
        ensures
            r.min == 0 && r.avg == 0 && r.max == 0,
            r.percentiles@ == Map::<u8, u64>::empty(),
    {
        LatencyStats { min: 0, avg: 0, max: 0, percentiles: HashMap::new() }
    }
}

impl LatencyStats {
    /// Latency statistics from min/avg/max, with the average standing in for
    /// the 50th percentile and the maximum for the 95th and 99th.
    pub fn new(min: u64, avg: u64, max: u64) -> (r: Self)
        ensures
            r.min == min && r.avg == avg && r.max == max,
            r.percentiles@ == map![50u8 => avg, 95u8 => max, 99u8 => max],
    {
        let mut percentiles: HashMap<u8, u64> = HashMap::new();
        percentiles.insert(50, avg);
        percentiles.insert(95, max);
        percentiles.insert(99, max);
        proof {
            assert(percentiles@ =~= map![50u8 => avg, 95u8 => max, 99u8 => max]);
        }
        LatencyStats { min, avg, max, percentiles }
    }

    /// Latency statistics with given percentiles
    pub fn with_percentiles(min: u64, avg: u64, max: u64, percentiles: HashMap<u8, u64>) -> (r:
        Self)
        ensures
            r.min == min && r.avg == avg && r.max == max,
            r.percentiles@ == percentiles@,
    {
        LatencyStats { min, avg, max, percentiles }
    }

    /// The latency at percentile rank `p`, or the maximum where that rank is not recorded.
    pub fn percentile_or_max(&self, p: u8) -> (r: u64)
        ensures
            r == (if self.percentiles@.contains_key(p) {
                self.percentiles@[p]
            } else {
                self.max
            }),
    {
        match self.percentiles.get(&p) {
            Some(v) => *v,
            None => self.max,
        }
    }

    /// Get the 95th percentile latency
    pub fn p95(&self) -> (r: u64)
        ensures
            r == (if self.percentiles@.contains_key(95u8) {
                self.percentiles@[95u8]
            } else {
                self.max
            }),
    {
        self.percentile_or_max(95)
    }

    /// Get the 99th percentile latency
    pub fn p99(&self) -> (r: u64)
        ensures
            r == (if self.percentiles@.contains_key(99u8) {
                self.percentiles@[99u8]
            } else {
                self.max
            }),
    {
        self.percentile_or_max(99)
    }

    /// Create latency statistics from a list of samples
    pub fn from_samples(samples: &[u64]) -> (r: Self)
        ensures
            stats_of_samples(r, samples@),
    {
        if samples.len() == 0 {
            return Self::default();
        }
        let mut sorted = copy_of(samples);
        sort_ascending(&mut sorted);
        let n = sorted.len();
        proof {
            lemma_ascending(samples@);
            lemma_latency_order(samples@);
        }
        let min = sorted[0];
        let max = sorted[n - 1];
        let total = sum_of(samples);
        let avg = (total / (n as u128)) as u64;
        let mut percentiles: HashMap<u8, u64> = HashMap::new();
        percentiles.insert(50, sorted[rank_index(n, 50)]);
        percentiles.insert(95, sorted[rank_index(n, 95)]);
        percentiles.insert(99, sorted[rank_index(n, 99)]);
        let r = LatencyStats { min, avg, max, percentiles };
        proof {
            assert(r.percentiles@ =~= map![
                50u8 => percentile_of(samples@, 50),
                95u8 => percentile_of(samples@, 95),
                99u8 => percentile_of(samples@, 99),
            ]);
        }
        r
    }
}

/// Bytes in one MiB.
pub const MIB: u64 = 1048576;

/// Nanoseconds in one second.
pub const NANOS_PER_SEC: u64 = 1000000000;

/// Throughput of `bytes` over `nanos`, in thousandths of MiB per second,
/// truncated; zero when no time has elapsed.
pub open spec fn throughput_milli(bytes: int, nanos: int) -> int {
    if nanos <= 0 {
        0
    } else {
        bytes * 1000000000000 / (1048576 * nanos)
    }
}

/// Rate of `count` events over `nanos`, in thousandths per second,
/// truncated; zero when no time has elapsed.
pub open spec fn rate_milli(count: int, nanos: int) -> int {
    if nanos <= 0 {
        0
    } else {
        count * 1000000000000 / nanos
    }
}

/// `x`, or the largest 64-bit value where `x` is larger.
pub open spec fn saturate(x: int) -> int {
    if x > u64::MAX { u64::MAX as int } else { x }
}

/// Thousandths of MiB per second of `bytes` over `nanos`, saturating.
pub fn calculate_throughput_mbps(bytes: u64, nanos: u64) -> (r: u64)
    ensures
        r == saturate(throughput_milli(bytes as int, nanos as int)),
{
    if nanos == 0 {
        return 0;
    }
    let num = (bytes as u128) * 1000000000000;
    let den = 1048576 * (nanos as u128);
    let v = num / den;
    if v > u64::MAX as u128 {
        u64::MAX
    } else {
        v as u64
    }
}

/// Thousandths of events per second of `count` over `nanos`, saturating.
pub fn calculate_iops(count: u64, nanos: u64) -> (r: u64)
    ensures
        r == saturate(rate_milli(count as int, nanos as int)),
{
    if nanos == 0 {
        return 0;
    }
    let v = (count as u128) * 1000000000000 / (nanos as u128);
    if v > u64::MAX as u128 {
        u64::MAX
    } else {
        v as u64
    }
}

/// Performance metrics collected during benchmark execution
#[derive(Debug, Clone)]
pub struct PerformanceMetrics {
    /// Total bytes processed during the benchmark
    pub bytes_processed: u64,
    /// Total elapsed time, in nanoseconds
    pub elapsed_nanos: u64,
    /// Throughput, in thousandths of MiB per second
    pub throughput_mbps_milli: u64,
    /// Operations per second, in thousandths
    pub iops_milli: u64,
    /// Latency statistics for I/O operations
    pub latency: LatencyStats,
}

impl Default for PerformanceMetrics {
    fn default() -> (r: Self)
        ensures
            r.bytes_processed == 0 && r.elapsed_nanos == 0,
            r.throughput_mbps_milli == 0 && r.iops_milli == 0,
            r.latency.min == 0 && r.latency.avg == 0 && r.latency.max == 0,
            r.latency.percentiles@ == Map::<u8, u64>::empty(),
    {
        PerformanceMetrics {
            bytes_processed: 0,
            elapsed_nanos: 0,
            throughput_mbps_milli: 0,
            iops_milli: 0,
            latency: LatencyStats::default(),
        }
    }
}

impl PerformanceMetrics {
    /// Metrics from bytes, elapsed time and latency; the operation rate is
    /// the inverse of the average latency.
    pub fn new(bytes_processed: u64, elapsed_nanos: u64, latency: LatencyStats) -> (r: Self)
        ensures
            r.bytes_processed == bytes_processed,
            r.elapsed_nanos == elapsed_nanos,
            r.throughput_mbps_milli == saturate(
                throughput_milli(bytes_processed as int, elapsed_nanos as int),
            ),
            r.iops_milli == (if elapsed_nanos > 0 && latency.avg > 0 {
                rate_milli(1, latency.avg as int)
            } else {
                0
            }),
            r.latency == latency,
    {
        let throughput = calculate_throughput_mbps(bytes_processed, elapsed_nanos);
        let iops = if elapsed_nanos > 0 && latency.avg > 0 {
            calculate_iops(1, latency.avg)
        } else {
            0
        };
        PerformanceMetrics {
            bytes_processed,
            elapsed_nanos,
            throughput_mbps_milli: throughput,
            iops_milli: iops,
            latency,
        }
    }

    /// Throughput per worker, in thousandths of MiB per second; zero for no workers.
    pub fn efficiency_ratio(&self, thread_count: usize) -> (r: u64)
        ensures
            r == (if thread_count > 0 {
                self.throughput_mbps_milli / (thread_count as u64)
            } else {
                0
            }),
    {
        if thread_count > 0 {
            self.throughput_mbps_milli / (thread_count as u64)
        } else {
            0
        }
    }

    /// Whether the stored throughput is within 1% of what bytes and time give.
    pub fn validate_throughput(&self) -> (r: bool)
        ensures
            r == ({
                let expected = saturate(
                    throughput_milli(self.bytes_processed as int, self.elapsed_nanos as int),
                );
                if expected == 0 {
                    self.throughput_mbps_milli == 0
                } else {
                    let d = self.throughput_mbps_milli - expected;
                    (if d < 0 { -d } else { d }) * 100 < expected
                }
            }),
    {
        let expected = calculate_throughput_mbps(self.bytes_processed, self.elapsed_nanos);
        if expected == 0 {
            return self.throughput_mbps_milli == 0;
        }
        let d = if self.throughput_mbps_milli >= expected {
            self.throughput_mbps_milli - expected
        } else {
            expected - self.throughput_mbps_milli
        };
        (d as u128) * 100 < expected as u128
    }
}

/// Storage device information
#[derive(Debug, Clone)]
pub struct StorageInfo {
    /// Device name or identifier
    pub device: String,
    /// File system type
    pub filesystem: String,
    /// Total storage capacity in bytes
    pub total_space: u64,
    /// Available storage space in bytes
    pub available_space: u64,
}

/// Storage information that names nothing: an unknown device and file
/// system, with no space figures.
pub open spec fn unknown_storage(i: StorageInfo) -> bool {
    &&& i.device@ == "Unknown"@
    &&& i.filesystem@ == "Unknown"@
    &&& i.total_space == 0
    &&& i.available_space == 0
}

impl StorageInfo {
    /// Storage info for the current directory: no device introspection is
    /// done, so it names nothing.
    pub fn detect_default() -> (r: Self)
        ensures
            unknown_storage(r),
    {
        StorageInfo {
            device: String::from_str("Unknown"),
            filesystem: String::from_str("Unknown"),
            total_space: 0,
            available_space: 0,
        }
    }

    /// Storage info for a path; the same as for the current directory.
    pub fn detect_for_path(_path: &str) -> (r: Self)
        ensures
            unknown_storage(r),
    {
        Self::detect_default()
    }
}

/// System information captured at benchmark time
#[derive(Debug, Clone)]
pub struct SystemInfo {
    /// Operating system name and architecture
    pub os: String,
    /// CPU information
    pub cpu: String,
    /// Total system memory in bytes
    pub memory_total: u64,
    /// Available system memory in bytes at benchmark time
    pub memory_available: u64,
    /// Storage device information
    pub storage_info: StorageInfo,
}

impl SystemInfo {
    /// System info for the named operating system; the CPU and memory are not
    /// introspected and are reported as unknown.
    pub fn detect(os: String) -> (r: Self)
        ensures
            os@.len() > 0 ==> r.os@ == os@,
            os@.len() == 0 ==> r.os@ == "Unknown OS"@,
            r.cpu@ == "Unknown CPU"@,
            r.memory_total == 0 && r.memory_available == 0,
            unknown_storage(r.storage_info),
    {
        let os = if os.as_str().is_empty() {
            String::from_str("Unknown OS")
        } else {
            os
        };
        SystemInfo {
            os,
            cpu: String::from_str("Unknown CPU"),
            memory_total: 0,
            memory_available: 0,
            storage_info: StorageInfo::detect_default(),
        }
    }
}

/// Complete benchmark result containing configuration, metrics, and metadata
#[derive(Debug, Clone)]
pub struct BenchmarkResult {
    /// When the benchmark was executed, in milliseconds since the Unix epoch
    pub timestamp_millis: i64,
    /// Configuration used for this benchmark
    pub config: BenchmarkConfig,
    /// Performance metrics collected during the benchmark
    pub metrics: PerformanceMetrics,
    /// System information at time of benchmark
    pub system_info: SystemInfo,
}

impl BenchmarkResult {
    /// A result stamped `timestamp_millis` (the caller reads the clock), for
    /// the named operating system.
    pub fn new(config: BenchmarkConfig, metrics: PerformanceMetrics, os: String, timestamp_millis: i64) -> (r:
        Self)
        ensures
            r.timestamp_millis == timestamp_millis,
            r.config == config,
            r.metrics == metrics,
            os@.len() > 0 ==> r.system_info.os@ == os@,
            os@.len() == 0 ==> r.system_info.os@ == "Unknown OS"@,
            r.system_info.cpu@ == "Unknown CPU"@,
    {
        let system_info = SystemInfo::detect(os);
        BenchmarkResult { timestamp_millis, config, metrics, system_info }
    }

    /// A result stamped `timestamp_millis`, with given system info.
    pub fn with_system_info(
        config: BenchmarkConfig,
        metrics: PerformanceMetrics,
        system_info: SystemInfo,
        timestamp_millis: i64,
    ) -> (r: Self)
        ensures
            r.timestamp_millis == timestamp_millis,
            r.config == config,
            r.metrics == metrics,
            r.system_info == system_info,
    {
        BenchmarkResult { timestamp_millis, config, metrics, system_info }
    }
}

/// Storage type, for judging whether measurements are plausible
#[derive(Debug, Clone, Copy, PartialEq, Eq, Structural)]
pub enum StorageType {
    /// Solid State Drive (SATA)
    Ssd,
    /// Hard Disk Drive
    Hdd,
    /// NVMe SSD
    Nvme,
}

/// The latency tolerance of a storage type, in nanoseconds.
pub open spec fn latency_tolerance(t: StorageType) -> int {
    match t {
        StorageType::Ssd => 1000000,
        StorageType::Hdd => 3000000,
        StorageType::Nvme => 500000,
    }
}

/// The largest plausible average latency of a storage type, in nanoseconds.
pub open spec fn latency_ceiling(t: StorageType) -> int {
    match t {
        StorageType::Nvme => 1000000,
        StorageType::Ssd => 10000000,
        StorageType::Hdd => 50000000,
    }
}

impl LatencyStats {
    /// Whether the average latency is plausible for the storage type and the
    /// spread between minimum and maximum is at most ten times its tolerance.
    pub fn meets_latency_accuracy(&self, storage_type: StorageType) -> (r: bool)
        ensures
            r == (self.avg <= latency_ceiling(storage_type) && (if self.max >= self.min {
                self.max - self.min
            } else {
                0
            }) <= 10 * latency_tolerance(storage_type)),
    {
        let tolerance: u64 = match storage_type {
            StorageType::Ssd => 1000000,
            StorageType::Hdd => 3000000,
            StorageType::Nvme => 500000,
        };
        let ceiling: u64 = match storage_type {
            StorageType::Nvme => 1000000,
            StorageType::Ssd => 10000000,
            StorageType::Hdd => 50000000,
        };
        let spread = if self.max >= self.min {
            self.max - self.min
        } else {
            0
        };
        self.avg <= ceiling && spread <= tolerance * 10
    }
}

impl StorageType {
    /// Infers the storage type from throughput (thousandths of MiB/s) and
    /// average latency (nanoseconds): above 1000 MiB/s under 1 ms is NVMe,
    /// above 100 MiB/s under 10 ms is SATA SSD, anything else a hard disk.
    pub fn infer_from_performance(throughput_mbps_milli: u64, avg_latency_nanos: u64) -> (r: Self)
        ensures
            r == (if throughput_mbps_milli > 1000000 && avg_latency_nanos < 1000000 {
                StorageType::Nvme
            } else if throughput_mbps_milli > 100000 && avg_latency_nanos < 10000000 {
                StorageType::Ssd
            } else {
                StorageType::Hdd
            }),
    {
        if throughput_mbps_milli > 1000000 && avg_latency_nanos < 1000000 {
            StorageType::Nvme
        } else if throughput_mbps_milli > 100000 && avg_latency_nanos < 10000000 {
            StorageType::Ssd
        } else {
            StorageType::Hdd
        }
    }
}

/// The throughputs of the results, in order.
pub open spec fn throughputs_of(rs: Seq<BenchmarkResult>) -> Seq<u64> {
    rs.map_values(|r: BenchmarkResult| r.metrics.throughput_mbps_milli)
}

/// The allowed relative deviation, in percent, for a mean throughput of
/// `sum / n`: 3% above 1000 MiB/s, 5% above 100 MiB/s, else 8%.
pub open spec fn deviation_allowance(sum: int, n: int) -> int {
    if sum > 1000000 * n {
        3
    } else if sum > 100000 * n {
        5
    } else {
        8
    }
}

/// Every value deviates from the mean `sum / n` by at most `pct` percent:
/// `|n·t − sum| · 100 ≤ pct · sum`.
pub open spec fn all_within(ts: Seq<u64>, sum: int, pct: int) -> bool {
    forall|i: int|
        0 <= i < ts.len() ==> {
            let d = ts.len() * (#[trigger] ts[i]) - sum;
            (if d < 0 { -d } else { d }) * 100 <= pct * sum
        }
}

/// The throughputs agree: their sum is zero, or each stays within the
/// allowance of their mean.
pub open spec fn consistent_throughputs(ts: Seq<u64>) -> bool {
    let sum = seq_sum(ts);
    sum == 0 || all_within(ts, sum, deviation_allowance(sum, ts.len() as int))
}

/// Whether `d · 100 > pct · total`, computed without overflow.
fn exceeds_percent(d: u128, pct: u128, total: u128) -> (r: bool)
    requires
        pct <= 8,
    ensures
        r == (d * 100 > pct * total),
{
    let q = total / 100;
    let rm = total % 100;
    proof {
        assert(total == 100 * q + rm && 0 <= rm < 100) by (nonlinear_arith)
            requires
                q == total / 100,
                rm == total % 100,
        ;
        assert(pct * q <= total) by (nonlinear_arith)
            requires
                pct <= 8,
                total == 100 * q + rm,
                rm >= 0,
        ;
        assert(pct * total == 100 * (pct * q) + pct * rm) by (nonlinear_arith)
            requires
                total == 100 * q + rm,
        ;
        assert(pct * rm < 800) by (nonlinear_arith)
            requires
                pct <= 8,
                rm < 100,
        ;
    }
    let base = pct * q;
    if d <= base {
        return false;
    }
    let e = d - base;
    if e >= 8 {
        return true;
    }
    e * 100 > pct * rm
}

impl BenchmarkResult {
    /// Whether this result together with at least two others is consistent:
    /// every throughput stays within the allowance of their mean. With fewer
    /// than two others there is nothing to judge, and it is consistent.
    pub fn meets_accuracy_requirements(&self, other_results: &[BenchmarkResult]) -> (r: bool)
        requires
            other_results@.len() < usize::MAX,
        ensures
            other_results@.len() < 2 ==> r,
            other_results@.len() >= 2 ==> r == consistent_throughputs(
                throughputs_of(other_results@.push(*self)),
            ),
    {
        if other_results.len() < 2 {
            return true;
        }
        let ghost all = other_results@.push(*self);
        let mut ts: Vec<u64> = Vec::new();
        let mut k: usize = 0;
        while k < other_results.len()
            invariant
                k <= other_results@.len(),
                all == other_results@.push(*self),
                ts@ == throughputs_of(all).subrange(0, k as int),
            decreases other_results.len() - k,
        {
            ts.push(other_results[k].metrics.throughput_mbps_milli);
            k = k + 1;
            assert(ts@ =~= throughputs_of(all).subrange(0, k as int));
        }
        ts.push(self.metrics.throughput_mbps_milli);
        assert(ts@ =~= throughputs_of(all));
        let n = ts.len();
        let sum = sum_of(ts.as_slice());
        if sum == 0 {
            return true;
        }
        let pct: u128 = if sum > 1000000 * (n as u128) {
            3
        } else if sum > 100000 * (n as u128) {
            5
        } else {
            8
        };
        assert(pct == deviation_allowance(sum as int, n as int));
        let mut i: usize = 0;
        while i < n
            invariant
                n == ts@.len(),
                i <= n,
                other_results@.len() >= 2,
                ts@ == throughputs_of(other_results@.push(*self)),
                sum > 0,
                pct == deviation_allowance(sum as int, n as int),
                sum == seq_sum(ts@),
                sum <= n * (u64::MAX as int),
                pct <= 8,
                forall|j: int|
                    0 <= j < i ==> {
                        let d = n * (#[trigger] ts@[j]) - sum;
                        (if d < 0 { -d } else { d }) * 100 <= pct * sum
                    },
            decreases n - i,
        {
            let t = ts[i] as u128;
            proof {
                assert((n as int) * (t as int) <= (usize::MAX as int) * (u64::MAX as int))
                    by (nonlinear_arith)
                    requires
                        n <= usize::MAX,
                        t <= u64::MAX,
                ;
                assert(sum * 8 <= (usize::MAX as int) * (u64::MAX as int) * 8) by (nonlinear_arith)
                    requires
                        sum <= n * (u64::MAX as int),
                        n <= usize::MAX,
                ;
            }
            let scaled = (n as u128) * t;
            let d = if scaled >= sum {
                scaled - sum
            } else {
                sum - scaled
            };
            if exceeds_percent(d, pct, sum) {
                proof {
                    let k = i as int;
                    assert(!({
                        let dd = n * ts@[k] - sum;
                        (if dd < 0 { -dd } else { dd }) * 100 <= pct * sum
                    }));
                }
                return false;
            }
            i = i + 1;
        }
        true
    }
}

/// A time stamp (milliseconds since the Unix epoch) written as a UTC date
/// and time, `YYYY-MM-DD HH:MM:SS UTC`.
pub uninterp spec fn utc_text_of(ms: i64) -> Seq<char>;

/// The first millisecond of year 1 and the last of year 9999 (UTC), a span
/// well inside the dates chrono can hold (about ±262,000 years).
pub const FIRST_WRITABLE_MS: i64 = -62135596800000;
pub const LAST_WRITABLE_MS: i64 = 253402300799999;

/// Relies on chrono's `DateTime::<Utc>::from_timestamp_millis` and
/// `DateTime::format` with `%Y-%m-%d %H:%M:%S UTC`: the text depends on the
/// time stamp alone; there is none only where the stamp is outside chrono's
/// range, which the years 1 to 9999 are well within.
#[verifier::external_body]
fn utc_text(ms: i64) -> (r: Option<String>)
    ensures
        r is Some ==> r->Some_0@ == utc_text_of(ms),
        FIRST_WRITABLE_MS <= ms <= LAST_WRITABLE_MS ==> r is Some,
{
    chrono::DateTime::from_timestamp_millis(ms).map(|t| t.format("%Y-%m-%d %H:%M:%S UTC").to_string())
}

/// A value in hundredths as text with two decimals.
pub open spec fn hundredths_text(h: nat) -> Seq<char> {
    digits_of(h / 100) + "."@ + two_digits(h % 100)
}

/// The one-line summary of a result, given its time as text: mode,
/// throughput in MB/s with two decimals, operations per second as a whole
/// number, and average latency in milliseconds with two decimals (all
/// rounded to nearest, ties to even).
pub open spec fn summary_text(r: BenchmarkResult, time: Seq<char>) -> Seq<char> {
    time + " - "@ + mode_description(r.config.mode) + " - "@
        + hundredths_text(round_half_even(r.metrics.throughput_mbps_milli as nat, 10))
        + " MB/s - "@ + digits_of(round_half_even(r.metrics.iops_milli as nat, 1000))
        + " IOPS - "@ + hundredths_text(round_half_even(r.metrics.latency.avg as nat, 10000))
        + "ms avg latency"@
}

fn hundredths_string(h: u64) -> (r: String)
    ensures
        r@ == hundredths_text(h as nat),
{
    let s = crate::units::decimal(h / 100).concat(".");
    s.concat(crate::units::decimal_2(h % 100).as_str())
}

fn rounded(q: u64, d: u64) -> (r: u64)
    requires
        d >= 10,
    ensures
        r == round_half_even(q as nat, d as nat),
{
    let w = q / d;
    let rem = q % d;
    proof {
        assert(w <= q / 10) by (nonlinear_arith)
            requires
                d >= 10,
                w == q / d,
        ;
        assert(rem < d) by (nonlinear_arith)
            requires
                d >= 10,
                rem == q % d,
        ;
    }
    if rem > d - rem || (rem == d - rem && w % 2 == 1) {
        w + 1
    } else {
        w
    }
}

impl BenchmarkResult {
    /// The one-line summary of this result, with the given time text.
    pub fn summary_with_time(&self, time: &str) -> (r: String)
        ensures
            r@ == summary_text(*self, time@),
    {
        let s = String::from_str(time).concat(" - ");
        let s = s.concat(self.config.mode.description()).concat(" - ");
        let s = s.concat(hundredths_string(rounded(self.metrics.throughput_mbps_milli, 10)).as_str());
        let s = s.concat(" MB/s - ");
        let s = s.concat(crate::units::decimal(rounded(self.metrics.iops_milli, 1000)).as_str());
        let s = s.concat(" IOPS - ");
        let s = s.concat(hundredths_string(rounded(self.metrics.latency.avg, 10000)).as_str());
        s.concat("ms avg latency")
    }

    /// A human-readable one-line summary of this result, stamped with its
    /// time in UTC (or `unknown time` where the stamp cannot be written).
    pub fn summary(&self) -> (r: String)
        ensures
            FIRST_WRITABLE_MS <= self.timestamp_millis <= LAST_WRITABLE_MS ==> r@ == summary_text(
                *self,
                utc_text_of(self.timestamp_millis),
            ),
            r@ == summary_text(*self, utc_text_of(self.timestamp_millis)) || r@ == summary_text(
                *self,
                "unknown time"@,
            ),
    {
        match utc_text(self.timestamp_millis) {
            Some(t) => self.summary_with_time(t.as_str()),
            None => self.summary_with_time("unknown time"),
        }
    }
}

} // verus!
