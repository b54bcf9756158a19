//! Benchmark configuration and its validation.

use vstd::prelude::*;
use vstd::string::*;
use crate::error::{DIOrbError, Result};

verus! {

/// Largest accepted file size: 100 GiB.
pub const MAX_FILE_SIZE: u64 = 107374182400;

/// Smallest accepted block size: 512 bytes.
pub const MIN_BLOCK_SIZE: u64 = 512;

/// Largest accepted block size: 1 MiB.
pub const MAX_BLOCK_SIZE: u64 = 1048576;

/// Longest accepted duration: one hour, in nanoseconds.
pub const MAX_DURATION_NANOS: u64 = 3600000000000;

/// Largest accepted number of workers.
pub const MAX_THREADS: usize = 64;

/// Read ratios are given in parts per million: this is a ratio of 1.0.
pub const RATIO_ONE: u32 = 1000000;

/// Benchmark mode variants for different test types
#[derive(Debug, Clone, Copy, PartialEq, Eq, Structural)]
pub enum BenchmarkMode {
    /// Sequential write operations
    SequentialWrite,
    /// Sequential read operations
    SequentialRead,
    /// Random read and write operations
    RandomReadWrite,
    /// Mixed read/write operations; the share of reads in parts per million
    Mixed { read_ratio_ppm: u32 },
}

/// What the target path turned out to be when it was looked at.
#[derive(Debug, Clone, Copy, PartialEq, Eq, Structural)]
pub enum PathStatus {
    Missing,
    NotDirectory,
    Directory,
}

/// Benchmark configuration structure containing all test parameters
#[derive(Debug, Clone)]
pub struct BenchmarkConfig {
    /// Target directory for the scratch files
    pub disk_path: String,
    /// Benchmark mode (sequential, random, mixed)
    pub mode: BenchmarkMode,
    /// Total file size for testing, in bytes
    pub file_size: u64,
    /// Block size for I/O operations, in bytes
    pub block_size: u64,
    /// Test duration for time-based benchmarks, in nanoseconds
    pub duration_nanos: u64,
    /// Number of concurrent workers
    pub thread_count: usize,
    /// Whether to keep temporary files after testing
    pub keep_temp_files: bool,
}

/// `n` is a power of two.
pub open spec fn is_pow2(n: nat) -> bool
    decreases n,
{
    if n == 0 {
        false
    } else if n == 1 {
        true
    } else if n % 2 == 1 {
        false
    } else {
        is_pow2(n / 2)
    }
}

/// Whether `n` is a power of two.
pub fn is_power_of_two(n: u64) -> (r: bool)
    ensures
        r == is_pow2(n as nat),
{
    if n == 0 {
        return false;
    }
    let mut x: u64 = n;
    while x > 1 && x % 2 == 0
        invariant
            x >= 1,
            is_pow2(x as nat) == is_pow2(n as nat),
        decreases x,
    {
        x = x / 2;
    }
    x == 1
}

/// A sequential mode: it works through a fixed number of bytes.
pub open spec fn is_sequential(m: BenchmarkMode) -> bool {
    m is SequentialWrite || m is SequentialRead
}

/// The conditions a configuration must meet before any work starts.
pub open spec fn config_valid(c: BenchmarkConfig, path: PathStatus) -> bool {
    &&& path == PathStatus::Directory
    &&& 0 < c.file_size <= MAX_FILE_SIZE
    &&& MIN_BLOCK_SIZE <= c.block_size <= MAX_BLOCK_SIZE
    &&& is_pow2(c.block_size as nat)
    &&& is_sequential(c.mode) ==> c.file_size >= c.block_size
    &&& 0 < c.duration_nanos <= MAX_DURATION_NANOS
    &&& 1 <= c.thread_count <= MAX_THREADS
    &&& (c.mode matches BenchmarkMode::Mixed { read_ratio_ppm } ==> read_ratio_ppm <= RATIO_ONE)
}

fn config_error(msg: &str) -> (r: DIOrbError)
    ensures
        r is ConfigError,
{
    DIOrbError::ConfigError(String::from_str(msg))
}

impl BenchmarkConfig {
    /// Validate the configuration parameters, given what the target path is.
    pub fn validate(&self, path: PathStatus) -> (r: Result<()>)
        ensures
            r is Ok <==> config_valid(*self, path),
            r is Err ==> r->Err_0 is ConfigError,
    {
        match path {
            PathStatus::Missing => {
                return Err(config_error("Disk path does not exist"));
            },
            PathStatus::NotDirectory => {
                return Err(config_error("Disk path is not a directory"));
            },
            PathStatus::Directory => {},
        }
        if self.file_size == 0 {
            return Err(config_error("File size must be greater than 0"));
        }
        if self.file_size > MAX_FILE_SIZE {
            return Err(config_error("File size too large (max: 100 GiB)"));
        }
        if self.block_size == 0 {
            return Err(config_error("Block size must be greater than 0"));
        }
        if !is_power_of_two(self.block_size) {
            return Err(config_error("Block size must be a power of 2"));
        }
        if self.block_size < MIN_BLOCK_SIZE || self.block_size > MAX_BLOCK_SIZE {
            return Err(config_error("Block size must be between 512 and 1048576 bytes"));
        }
        match self.mode {
            BenchmarkMode::SequentialWrite | BenchmarkMode::SequentialRead => {
                if self.file_size < self.block_size {
                    return Err(
                        config_error(
                            "File size must be larger than block size for sequential operations",
                        ),
                    );
                }
            },
            _ => {},
        }
        if self.duration_nanos == 0 {
            return Err(config_error("Duration must be greater than 0"));
        }
        if self.duration_nanos > MAX_DURATION_NANOS {
            return Err(config_error("Duration too long (max: 3600s)"));
        }
        if self.thread_count == 0 {
            return Err(config_error("Thread count must be greater than 0"));
        }
        if self.thread_count > MAX_THREADS {
            return Err(config_error("Too many threads (max: 64)"));
        }
        match self.mode {
            BenchmarkMode::Mixed { read_ratio_ppm } => {
                if read_ratio_ppm > RATIO_ONE {
                    return Err(config_error("Read ratio must be between 0.0 and 1.0"));
                }
            },
            _ => {},
        }
        Ok(())
    }
}

/// The default configuration: sequential write of 1 GiB in 64 KiB blocks,
/// 30 s duration, one worker, in the current directory.
pub open spec fn default_config_spec(c: BenchmarkConfig) -> bool {
    &&& c.disk_path@ == "."@
    &&& c.mode == BenchmarkMode::SequentialWrite
    &&& c.file_size == 1073741824
    &&& c.block_size == 65536
    &&& c.duration_nanos == 30000000000
    &&& c.thread_count == 1
    &&& !c.keep_temp_files
}

impl Default for BenchmarkConfig {
    fn default() -> (r: Self)
        ensures
            default_config_spec(r),
    {
        BenchmarkConfig {
            disk_path: String::from_str("."),
            mode: BenchmarkMode::SequentialWrite,
            file_size: 1073741824,
            block_size: 65536,
            duration_nanos: 30000000000,
            thread_count: 1,
            keep_temp_files: false,
        }
    }
}

impl BenchmarkConfig {
    /// A field-by-field copy of this configuration.
    pub fn clone_config(&self) -> (r: Self)
        ensures
            r == *self,
    {
        BenchmarkConfig {
            disk_path: self.disk_path.clone(),
            mode: self.mode,
            file_size: self.file_size,
            block_size: self.block_size,
            duration_nanos: self.duration_nanos,
            thread_count: self.thread_count,
            keep_temp_files: self.keep_temp_files,
        }
    }

    /// Create a new benchmark configuration with default values
    pub fn new() -> (r: Self)
        ensures
            default_config_spec(r),
    {
        Self::default()
    }

    /// Configuration for a sequential write benchmark: 1 GiB in 64 KiB blocks.
    pub fn sequential_write() -> (r: Self)
        ensures
            default_config_spec(r),
    {
        let mut c = Self::default();
        c.mode = BenchmarkMode::SequentialWrite;
        c.file_size = 1073741824;
        c.block_size = 65536;
        c
    }

    /// Configuration for a sequential read benchmark: 1 GiB in 64 KiB blocks.
    pub fn sequential_read() -> (r: Self)
        ensures
            r.mode == BenchmarkMode::SequentialRead,
            default_config_spec(BenchmarkConfig { mode: BenchmarkMode::SequentialWrite, ..r }),
    {
        let mut c = Self::default();
        c.mode = BenchmarkMode::SequentialRead;
        c.file_size = 1073741824;
        c.block_size = 65536;
        c
    }

    /// Configuration for a random read/write benchmark: 4 KiB blocks for 30 s.
    pub fn random_read_write() -> (r: Self)
        ensures
            r.mode == BenchmarkMode::RandomReadWrite,
            default_config_spec(
                BenchmarkConfig { mode: BenchmarkMode::SequentialWrite, block_size: 65536, ..r },
            ),
            r.block_size == 4096,
    {
        let mut c = Self::default();
        c.mode = BenchmarkMode::RandomReadWrite;
        c.block_size = 4096;
        c.duration_nanos = 30000000000;
        c
    }

    /// Configuration for a mixed benchmark with the given share of reads (in
    /// parts per million): 4 KiB blocks for 30 s on four workers.
    pub fn mixed(read_ratio_ppm: u32) -> (r: Self)
        ensures
            r.mode == (BenchmarkMode::Mixed { read_ratio_ppm }),
            default_config_spec(
                BenchmarkConfig {
                    mode: BenchmarkMode::SequentialWrite,
                    block_size: 65536,
                    thread_count: 1,
                    ..r
                },
            ),
            r.block_size == 4096,
            r.thread_count == 4,
    {
        let mut c = Self::default();
        c.mode = BenchmarkMode::Mixed { read_ratio_ppm };
        c.block_size = 4096;
        c.duration_nanos = 30000000000;
        c.thread_count = 4;
        c
    }

    /// Set the disk path for testing
    pub fn with_disk_path(self, path: String) -> (r: Self)
        ensures
            r == (BenchmarkConfig { disk_path: path, ..self }),
    {
        let mut c = self;
        c.disk_path = path;
        c
    }

    /// Set the benchmark mode
    pub fn with_mode(self, mode: BenchmarkMode) -> (r: Self)
        ensures
            r == (BenchmarkConfig { mode, ..self }),
    {
        let mut c = self;
        c.mode = mode;
        c
    }

    /// Set the file size for testing
    pub fn with_file_size(self, size: u64) -> (r: Self)
        ensures
            r == (BenchmarkConfig { file_size: size, ..self }),
    {
        let mut c = self;
        c.file_size = size;
        c
    }

    /// Set the block size for I/O operations
    pub fn with_block_size(self, size: u64) -> (r: Self)
        ensures
            r == (BenchmarkConfig { block_size: size, ..self }),
    {
        let mut c = self;
        c.block_size = size;
        c
    }

    /// Set the test duration, in nanoseconds
    pub fn with_duration(self, duration_nanos: u64) -> (r: Self)
        ensures
            r == (BenchmarkConfig { duration_nanos, ..self }),
    {
        let mut c = self;
        c.duration_nanos = duration_nanos;
        c
    }

    /// Set the number of workers
    pub fn with_thread_count(self, count: usize) -> (r: Self)
        ensures
            r == (BenchmarkConfig { thread_count: count, ..self }),
    {
        let mut c = self;
        c.thread_count = count;
        c
    }

    /// Set whether to keep temporary files
    pub fn with_keep_temp_files(self, keep: bool) -> (r: Self)
        ensures
            r == (BenchmarkConfig { keep_temp_files: keep, ..self }),
    {
        let mut c = self;
        c.keep_temp_files = keep;
        c
    }
}

/// The human-readable name of a mode.
pub open spec fn mode_description(m: BenchmarkMode) -> Seq<char> {
    match m {
        BenchmarkMode::SequentialWrite => "Sequential Write"@,
        BenchmarkMode::SequentialRead => "Sequential Read"@,
        BenchmarkMode::RandomReadWrite => "Random Read/Write"@,
        BenchmarkMode::Mixed { .. } => "Mixed Read/Write"@,
    }
}

impl BenchmarkMode {
    /// Check if this mode uses file size (sequential operations)
    pub fn uses_file_size(&self) -> (r: bool)
        ensures
            r == is_sequential(*self),
    {
        match self {
            BenchmarkMode::SequentialWrite | BenchmarkMode::SequentialRead => true,
            _ => false,
        }
    }

    /// Check if this mode uses duration (time-based operations)
    pub fn uses_duration(&self) -> (r: bool)
        ensures
            r == !is_sequential(*self),
    {
        match self {
            BenchmarkMode::RandomReadWrite | BenchmarkMode::Mixed { .. } => true,
            _ => false,
        }
    }

    /// Get the default block size for this mode
    pub fn default_block_size(&self) -> (r: u64)
        ensures
            r == (if is_sequential(*self) { 65536u64 } else { 4096u64 }),
    {
        match self {
            BenchmarkMode::SequentialWrite | BenchmarkMode::SequentialRead => 65536,
            BenchmarkMode::RandomReadWrite | BenchmarkMode::Mixed { .. } => 4096,
        }
    }

    /// Get the default thread count for this mode
    pub fn default_thread_count(&self) -> (r: usize)
        ensures
            r == (if *self is Mixed { 4usize } else { 1usize }),
    {
        match self {
            BenchmarkMode::Mixed { .. } => 4,
            _ => 1,
        }
    }

    /// Get a human-readable description of the mode
    pub fn description(&self) -> (r: &'static str)
        ensures
            r@ == mode_description(*self),
    {
        match self {
            BenchmarkMode::SequentialWrite => "Sequential Write",
            BenchmarkMode::SequentialRead => "Sequential Read",
            BenchmarkMode::RandomReadWrite => "Random Read/Write",
            BenchmarkMode::Mixed { .. } => "Mixed Read/Write",
        }
    }
}

/// 2 to the power `k`.
pub open spec fn two_to(k: nat) -> nat
    decreases k,
{
    if k == 0 { 1 } else { 2 * two_to((k - 1) as nat) }
}

/// A power of two at least `2^k` is a multiple of `2^k`.
proof fn lemma_pow2_multiple(n: nat, k: nat)
    requires
        is_pow2(n),
        n >= two_to(k),
    ensures
        n % two_to(k) == 0,
    decreases k,
{
    if k > 0 {
        let h = n / 2;
        let q = two_to((k - 1) as nat);
        assert(two_to(k) == 2 * q);
        assert(q >= 1) by {
            lemma_two_to_positive((k - 1) as nat);
        }
        assert(n >= 2);
        assert(n % 2 == 0);
        assert(is_pow2(h));
        assert(h >= q);
        lemma_pow2_multiple(h, (k - 1) as nat);
        let c = (h / q) as int;
        vstd::arithmetic::div_mod::lemma_fundamental_div_mod(h as int, q as int);
        assert(h == q * c);
        assert(n == c * (2 * q)) by (nonlinear_arith)
            requires
                n == 2 * h,
                h == q * c,
        ;
        vstd::arithmetic::div_mod::lemma_mod_multiples_basic(c, (2 * q) as int);
    }
}

proof fn lemma_two_to_positive(k: nat)
    ensures
        two_to(k) >= 1,
    decreases k,
{
    if k > 0 {
        lemma_two_to_positive((k - 1) as nat);
    }
}

/// Every block size a valid configuration accepts is a multiple of 256,
/// so blocks of the test pattern line up with it.
pub proof fn lemma_valid_block_is_multiple_of_256(c: BenchmarkConfig, path: PathStatus)
    requires
        config_valid(c, path),
    ensures
        c.block_size % 256 == 0,
{
    assert(two_to(8) == 256) by {
        assert(two_to(0) == 1);
        assert(two_to(1) == 2);
        assert(two_to(2) == 4);
        assert(two_to(3) == 8);
        assert(two_to(4) == 16);
        assert(two_to(5) == 32);
        assert(two_to(6) == 64);
        assert(two_to(7) == 128);
    }
    lemma_pow2_multiple(c.block_size as nat, 8);
}

} // verus!
