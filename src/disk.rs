//! Storage-side values: storage classes and their preferred block sizes,
//! scratch files and their names, the platform storage handle, and the
//! asynchronous front end's buffer pool.

use vstd::prelude::*;
use vstd::string::*;
use crate::buffer::BufferPool;
use crate::error::{DIOrbError, Result};
use crate::models::{calculate_iops, calculate_throughput_mbps, rate_milli, saturate, throughput_milli};

verus! {

/// The block size used when nothing is known of the device: 64 KiB.
pub const DEFAULT_BLOCK_SIZE: u64 = 65536;

/// Storage type detection for optimal block size selection
#[derive(Debug, Clone, Copy, PartialEq, Eq, Structural)]
pub enum StorageType {
    HDD,
    SSD,
    NVMe,
    Unknown,
}

impl StorageType {
    /// Get optimal block size for storage type: 1 MiB for hard disks,
    /// 128 KiB for NVMe, 64 KiB otherwise.
    pub fn optimal_block_size(&self) -> (r: u64)
        ensures
            r == match *self {
                StorageType::HDD => 1048576u64,
                StorageType::SSD => 65536u64,
                StorageType::NVMe => 131072u64,
                StorageType::Unknown => 65536u64,
            },
    {
        match self {
            StorageType::HDD => 1048576,
            StorageType::SSD => 65536,
            StorageType::NVMe => 131072,
            StorageType::Unknown => 65536,
        }
    }

    /// Get optimal queue depth for storage type
    pub fn optimal_queue_depth(&self) -> (r: usize)
        ensures
            r == match *self {
                StorageType::HDD => 1usize,
                StorageType::SSD => 4usize,
                StorageType::NVMe => 8usize,
                StorageType::Unknown => 2usize,
            },
    {
        match self {
            StorageType::HDD => 1,
            StorageType::SSD => 4,
            StorageType::NVMe => 8,
            StorageType::Unknown => 2,
        }
    }
}

/// Temporary file record: its path and whether it is removed when released.
#[derive(Debug, Clone)]
pub struct TempFile {
    path: String,
    cleanup_on_drop: bool,
}

impl TempFile {
    /// The file's path.
    pub closed spec fn path_spec(&self) -> Seq<char> {
        self.path@
    }

    /// Whether the file is to be removed when released.
    pub closed spec fn removes_on_release(&self) -> bool {
        self.cleanup_on_drop
    }

    /// A scratch file record for `path`.
    pub fn new(path: String, cleanup: bool) -> (r: Self)
        ensures
            r.path_spec() == path@,
            r.removes_on_release() == cleanup,
    {
        TempFile { path, cleanup_on_drop: cleanup }
    }

    /// Keep the file when it is released.
    pub fn keep_on_drop(&mut self)
        ensures
            final(self).path_spec() == old(self).path_spec(),
            !final(self).removes_on_release(),
    {
        self.cleanup_on_drop = false;
    }

    /// Get the file path
    pub fn path(&self) -> (r: &str)
        ensures
            r@ == self.path_spec(),
    {
        self.path.as_str()
    }

    /// Whether the file is to be removed when released.
    pub fn cleanup_on_drop(&self) -> (r: bool)
        ensures
            r == self.removes_on_release(),
    {
        self.cleanup_on_drop
    }
}

/// The name of the scratch file of process `pid`: the fixed prefix, the
/// process id in decimal, then `.dat`.
pub open spec fn scratch_name_spec(pid: u32) -> Seq<char> {
    "DIORB_TMP_"@ + crate::units::digits_of(pid as nat) + ".dat"@
}

/// The scratch file name for a process.
pub fn scratch_file_name(pid: u32) -> (r: String)
    ensures
        r@ == scratch_name_spec(pid),
{
    let digits = crate::units::decimal(pid as u64);
    let name = String::from_str("DIORB_TMP_");
    let name = name.concat(digits.as_str());
    name.concat(".dat")
}

/// Platform-specific disk I/O handle
#[derive(Debug, Clone, Copy)]
pub struct PlatformDiskIO;

impl PlatformDiskIO {
    pub fn new() -> (r: Self) {
        PlatformDiskIO
    }

    /// The block size to use on a path: the platform default of 64 KiB, as
    /// no device introspection is done.
    pub fn get_optimal_block_size(&self, _path: &str) -> (r: u64)
        ensures
            r == DEFAULT_BLOCK_SIZE,
    {
        DEFAULT_BLOCK_SIZE
    }
}

impl Default for PlatformDiskIO {
    fn default() -> (r: Self) {
        PlatformDiskIO
    }
}

/// Create a new platform-specific disk I/O instance
pub fn create_disk_io() -> (r: PlatformDiskIO) {
    PlatformDiskIO::new()
}

/// The asynchronous I/O front end's state: its storage handle and a pool of
/// up to 16 block-sized buffers.
pub struct AsyncDiskIO {
    inner: PlatformDiskIO,
    buffer_pool: BufferPool,
}

impl AsyncDiskIO {
    /// The front end's buffer pool is well formed.
    pub closed spec fn wf(&self) -> bool {
        self.buffer_pool.wf()
    }

    /// The pool's buffer size.
    pub closed spec fn block(&self) -> nat {
        self.buffer_pool.size()
    }

    /// A front end for `disk_io` with buffers of `block_size` bytes; a zero
    /// block size is rejected.
    pub fn new(disk_io: PlatformDiskIO, block_size: usize) -> (r: Result<Self>)
        ensures
            r is Ok <==> block_size > 0,
            r is Err ==> r->Err_0 is ConfigError,
            r is Ok ==> r->Ok_0.wf() && r->Ok_0.block() == block_size,
    {
        match BufferPool::new(block_size, 16) {
            Ok(buffer_pool) => Ok(AsyncDiskIO { inner: disk_io, buffer_pool }),
            Err(e) => Err(e),
        }
    }

    /// Get the buffer pool for advanced usage
    pub fn buffer_pool(&self) -> (r: &BufferPool)
        ensures
            r.size() == self.block(),
            self.wf() ==> r.wf(),
    {
        &self.buffer_pool
    }

    /// The storage handle.
    pub fn disk_io(&self) -> (r: PlatformDiskIO) {
        self.inner
    }
}

/// Performance figures of a batch of I/O operations
#[derive(Debug, Clone, Copy, PartialEq, Eq, Structural)]
pub struct IOMetrics {
    pub bytes_processed: u64,
    /// Elapsed time, in nanoseconds
    pub elapsed_nanos: u64,
    /// Throughput, in thousandths of MiB/s
    pub throughput_mbps_milli: u64,
    /// Operations per second, in thousandths
    pub iops_milli: u64,
    pub operations_count: u64,
}

/// The sum of a field over a list of metrics.
pub open spec fn metrics_sum(ms: Seq<IOMetrics>, bytes: bool) -> int
    decreases ms.len(),
{
    if ms.len() == 0 {
        0
    } else {
        metrics_sum(ms.drop_last(), bytes) + if bytes {
            ms.last().bytes_processed as int
        } else {
            ms.last().operations_count as int
        }
    }
}

/// The longest elapsed time in a list of metrics; zero for none.
pub open spec fn metrics_max_time(ms: Seq<IOMetrics>) -> u64
    decreases ms.len(),
{
    if ms.len() == 0 {
        0
    } else {
        let m = metrics_max_time(ms.drop_last());
        if ms.last().elapsed_nanos > m { ms.last().elapsed_nanos } else { m }
    }
}

impl IOMetrics {
    /// Metrics of `operations_count` operations moving `bytes_processed` bytes
    /// in `elapsed_nanos`.
    pub fn new(bytes_processed: u64, elapsed_nanos: u64, operations_count: u64) -> (r: Self)
        ensures
            r.bytes_processed == bytes_processed,
            r.elapsed_nanos == elapsed_nanos,
            r.operations_count == operations_count,
            r.throughput_mbps_milli == saturate(throughput_milli(bytes_processed as int, elapsed_nanos as int)),
            r.iops_milli == saturate(rate_milli(operations_count as int, elapsed_nanos as int)),
    {
        IOMetrics {
            bytes_processed,
            elapsed_nanos,
            throughput_mbps_milli: calculate_throughput_mbps(bytes_processed, elapsed_nanos),
            iops_milli: calculate_iops(operations_count, elapsed_nanos),
            operations_count,
        }
    }

    /// Combined metrics: summed bytes and operations (saturating) over the
    /// longest elapsed time.
    pub fn combine(metrics: &[IOMetrics]) -> (r: Self)
        ensures
            r.bytes_processed == saturate(metrics_sum(metrics@, true)),
            r.operations_count == saturate(metrics_sum(metrics@, false)),
            r.elapsed_nanos == metrics_max_time(metrics@),
            r.throughput_mbps_milli == saturate(throughput_milli(r.bytes_processed as int, r.elapsed_nanos as int)),
            r.iops_milli == saturate(rate_milli(r.operations_count as int, r.elapsed_nanos as int)),
    {
        let mut bytes: u128 = 0;
        let mut ops: u128 = 0;
        let mut max_time: u64 = 0;
        let mut i: usize = 0;
        let n = metrics.len();
        while i < n
            invariant
                i <= n,
                n == metrics@.len(),
                bytes == metrics_sum(metrics@.subrange(0, i as int), true),
                ops == metrics_sum(metrics@.subrange(0, i as int), false),
                bytes <= i * (u64::MAX as int),
                ops <= i * (u64::MAX as int),
                max_time == metrics_max_time(metrics@.subrange(0, i as int)),
            decreases n - i,
        {
            assert(metrics@.subrange(0, i + 1).drop_last() =~= metrics@.subrange(0, i as int));
            assert((i + 1) * (u64::MAX as int) == i * (u64::MAX as int) + u64::MAX) by (nonlinear_arith);
            assert(i * (u64::MAX as int) <= (usize::MAX as int) * (u64::MAX as int)) by (nonlinear_arith)
                requires
                    i <= usize::MAX,
            ;
            bytes = bytes + metrics[i].bytes_processed as u128;
            ops = ops + metrics[i].operations_count as u128;
            if metrics[i].elapsed_nanos > max_time {
                max_time = metrics[i].elapsed_nanos;
            }
            i = i + 1;
        }
        assert(metrics@.subrange(0, i as int) =~= metrics@);
        let b: u64 = if bytes > u64::MAX as u128 { u64::MAX } else { bytes as u64 };
        let o: u64 = if ops > u64::MAX as u128 { u64::MAX } else { ops as u64 };
        Self::new(b, max_time, o)
    }
}

} // verus!
