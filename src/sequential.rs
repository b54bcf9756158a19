//! Sequential workloads: the decisions of a sequential write or read run,
//! taken one block at a time. The caller performs each I/O call, times it,
//! and reports what happened.

use vstd::prelude::*;
use vstd::string::*;
use crate::buffer::{zeros, BufferPool};
use crate::config::{config_valid, BenchmarkConfig, BenchmarkMode, PathStatus};
use crate::error::{DIOrbError, Result};
use crate::models::{
    calculate_iops, calculate_throughput_mbps, rate_milli, saturate, stats_of_samples,
    throughput_milli, LatencyStats, PerformanceMetrics,
};

verus! {

/// Progress is reported at least this often, in nanoseconds (100 ms).
pub const PROGRESS_INTERVAL_NANOS: u64 = 100000000;

/// Completion is given in parts per million: this is 100%.
pub const COMPLETE_PPM: u64 = 1000000;

/// The byte at offset `i` of the test pattern.
pub open spec fn pattern_byte(i: int) -> u8 {
    (i % 256) as u8
}

/// The first `n` bytes of the test pattern `i mod 256`.
pub open spec fn pattern_seq(n: nat) -> Seq<u8> {
    Seq::new(n, |i: int| pattern_byte(i))
}

/// Create a test pattern for writing to files: byte `i` is `i mod 256`.
pub fn create_test_pattern(size: usize) -> (r: Vec<u8>)
    ensures
        r@ == pattern_seq(size as nat),
{
    let mut pattern: Vec<u8> = Vec::new();
    let mut i: usize = 0;
    while i < size
        invariant
            i <= size,
            pattern@ == pattern_seq(i as nat),
        decreases size - i,
    {
        pattern.push((i % 256) as u8);
        i = i + 1;
        assert(pattern@ =~= pattern_seq(i as nat));
    }
    pattern
}

/// Completion of `done` out of `total`, in parts per million; zero when
/// there is nothing to do.
pub open spec fn completion_ppm(done: int, total: int) -> int {
    if total <= 0 {
        0
    } else {
        done * 1000000 / total
    }
}

/// Time to finish `remaining` bytes at `throughput` thousandths of MiB/s,
/// in nanoseconds.
pub open spec fn eta_nanos_spec(remaining: int, throughput: int) -> int {
    remaining * 1000000000000 / (throughput * 1048576)
}

/// Progress update sent during benchmark execution
#[derive(Debug, Clone, Copy, PartialEq, Eq, Structural)]
pub struct ProgressUpdate {
    /// Bytes processed so far
    pub bytes_processed: u64,
    /// Total bytes to process
    pub total_bytes: u64,
    /// Current throughput, in thousandths of MiB/s
    pub throughput_mbps_milli: u64,
    /// Current operations per second, in thousandths
    pub iops_milli: u64,
    /// Elapsed time since start, in nanoseconds
    pub elapsed_nanos: u64,
    /// Estimated time remaining, in nanoseconds
    pub eta_nanos: Option<u64>,
}

impl ProgressUpdate {
    /// Completion in parts per million (1,000,000 is 100%); zero when the
    /// total is zero.
    pub fn completion_percentage(&self) -> (r: u64)
        ensures
            r == saturate(completion_ppm(self.bytes_processed as int, self.total_bytes as int)),
    {
        if self.total_bytes == 0 {
            return 0;
        }
        let v = (self.bytes_processed as u128) * 1000000 / (self.total_bytes as u128);
        if v > u64::MAX as u128 {
            u64::MAX
        } else {
            v as u64
        }
    }
}

/// Completion never decreases as the bytes processed grow, and all bytes
/// processed is exactly 100%.
pub proof fn lemma_completion_monotone(a: int, b: int, total: int)
    requires
        0 <= a <= b,
        total > 0,
    ensures
        completion_ppm(a, total) <= completion_ppm(b, total),
        completion_ppm(total, total) == 1000000,
{
    assert(a * 1000000 <= b * 1000000) by (nonlinear_arith)
        requires
            a <= b,
    ;
    assert((a * 1000000) / total <= (b * 1000000) / total) by (nonlinear_arith)
        requires
            a * 1000000 <= b * 1000000,
            total > 0,
    ;
    assert((total * 1000000) / total == 1000000) by (nonlinear_arith)
        requires
            total > 0,
    ;
}

/// The estimated time to finish, where it can be estimated: something has
/// been done and the throughput is positive.
fn estimate_eta(done: u64, total: u64, throughput: u64) -> (r: Option<u64>)
    ensures
        done > 0 && throughput > 0 ==> r == Some(
            saturate(eta_nanos_spec(if total >= done { total - done } else { 0 }, throughput as int))
                as u64,
        ),
        !(done > 0 && throughput > 0) ==> r is None,
{
    if done > 0 && throughput > 0 {
        let remaining: u64 = if total >= done {
            total - done
        } else {
            0
        };
        let v = (remaining as u128) * 1000000000000 / ((throughput as u128) * 1048576);
        if v > u64::MAX as u128 {
            Some(u64::MAX)
        } else {
            Some(v as u64)
        }
    } else {
        None
    }
}

/// Metrics of a run from its bytes, elapsed time and latency samples:
/// throughput and operation rate over the elapsed time, and the samples'
/// statistics.
pub open spec fn metrics_of_run(m: PerformanceMetrics, bytes: u64, nanos: u64, samples: Seq<u64>) -> bool {
    &&& m.bytes_processed == bytes
    &&& m.elapsed_nanos == nanos
    &&& m.throughput_mbps_milli == saturate(throughput_milli(bytes as int, nanos as int))
    &&& m.iops_milli == saturate(rate_milli(samples.len() as int, nanos as int))
    &&& stats_of_samples(m.latency, samples)
}

/// Calculate performance metrics from collected data
pub fn calculate_metrics(bytes_processed: u64, elapsed_nanos: u64, latency_samples: &[u64]) -> (r:
    PerformanceMetrics)
    ensures
        metrics_of_run(r, bytes_processed, elapsed_nanos, latency_samples@),
{
    let throughput = calculate_throughput_mbps(bytes_processed, elapsed_nanos);
    let iops = calculate_iops(latency_samples.len() as u64, elapsed_nanos);
    let latency = LatencyStats::from_samples(latency_samples);
    PerformanceMetrics {
        bytes_processed,
        elapsed_nanos,
        throughput_mbps_milli: throughput,
        iops_milli: iops,
        latency,
    }
}

/// What a sequential write run puts in the file from offset `done` on:
/// each step writes the first `min(block, total − done)` bytes of the
/// pattern buffer.
pub open spec fn written_image(done: nat, total: nat, block: nat) -> Seq<u8>
    decreases total - done,
{
    if done >= total || block == 0 {
        Seq::empty()
    } else {
        let len: nat = if block <= total - done { block } else { (total - done) as nat };
        pattern_seq(block).take(len as int) + written_image(done + len, total, block)
    }
}

/// From an offset that is a multiple of 256, the written bytes continue
/// the pattern.
proof fn lemma_image_from(done: nat, total: nat, block: nat)
    requires
        block > 0,
        block % 256 == 0,
        done % 256 == 0,
        done <= total,
    ensures
        written_image(done, total, block) == pattern_seq((total - done) as nat),
    decreases total - done,
{
    if done < total {
        let len: nat = if block <= total - done { block } else { (total - done) as nat };
        let rest = written_image(done + len, total, block);
        if len == block {
            assert((done + len) % 256 == 0) by {
                assert((done + block) % 256 == 0) by (nonlinear_arith)
                    requires
                        done % 256 == 0,
                        block % 256 == 0,
                ;
            }
            lemma_image_from(done + len, total, block);
            assert forall|i: int| len <= i < total - done implies #[trigger] pattern_byte(i)
                == pattern_byte(i - len) by {
                assert(i % 256 == (i - len) % 256) by (nonlinear_arith)
                    requires
                        len % 256 == 0,
                        len <= i,
                ;
            }
        } else {
            assert(done + len == total);
            assert(rest =~= Seq::<u8>::empty());
        }
        assert(written_image(done, total, block) =~= pattern_seq((total - done) as nat));
    } else {
        assert(written_image(done, total, block) =~= pattern_seq((total - done) as nat));
    }
}

/// Writing a scratch file of `size` bytes in blocks of `block` bytes, where
/// the block is a multiple of 256 (every accepted block size is), lays down
/// exactly the pattern `byte[i] = i mod 256` for every `i < size`; reading
/// it back in any blocking gives those bytes.
pub proof fn lemma_written_file_is_pattern(size: nat, block: nat)
    requires
        block > 0,
        block % 256 == 0,
    ensures
        written_image(0, size, block).len() == size,
        forall|i: int| 0 <= i < size ==> #[trigger] written_image(0, size, block)[i] == (i % 256) as u8,
{
    lemma_image_from(0, size, block);
}

/// A buffer from the pool, overwritten with the test pattern.
pub fn take_pattern_buffer(pool: &mut BufferPool) -> (r: Vec<u8>)
    requires
        old(pool).wf(),
    ensures
        final(pool).wf(),
        final(pool).size() == old(pool).size(),
        final(pool).capacity() == old(pool).capacity(),
        old(pool).pooled().len() > 0 ==> final(pool).pooled() == old(pool).pooled().drop_last(),
        old(pool).pooled().len() == 0 ==> final(pool).pooled() == old(pool).pooled(),
        r@ == pattern_seq(old(pool).size()),
{
    let mut buffer = pool.get_buffer();
    let n = buffer.len();
    let mut i: usize = 0;
    while i < n
        invariant
            i <= n,
            buffer@.len() == n,
            forall|j: int| 0 <= j < i ==> buffer@[j] == pattern_byte(j),
        decreases n - i,
    {
        buffer.set(i, (i % 256) as u8);
        i = i + 1;
    }
    assert(buffer@ =~= pattern_seq(n as nat));
    buffer
}

/// Sequential benchmark executor: a validated configuration and its buffers.
pub struct SequentialBenchmark {
    config: BenchmarkConfig,
    buffer_pool: BufferPool,
}

/// Where a sequential run stands. The caller asks for the length of the
/// next block, performs the I/O, and reports the byte count and latency.
pub struct SequentialRun {
    writing: bool,
    total: u64,
    block: u64,
    done: u64,
    at_eof: bool,
    samples: Vec<u64>,
    last_emit_nanos: u64,
    reported: u64,
}

impl SequentialBenchmark {
    /// The configuration this executor runs.
    pub closed spec fn config_spec(&self) -> BenchmarkConfig {
        self.config
    }

    /// The executor's configuration is valid and its pool holds blocks of the
    /// configured size.
    pub open spec fn wf(&self) -> bool {
        &&& config_valid(self.config_spec(), PathStatus::Directory)
        &&& self.pool_wf()
    }

    /// The pool is well formed and holds blocks of the configured size.
    pub closed spec fn pool_wf(&self) -> bool {
        &&& self.buffer_pool.wf()
        &&& self.buffer_pool.size() == self.config.block_size
    }

    /// The buffers the executor's pool holds, each as its bytes.
    pub closed spec fn pooled(&self) -> Seq<Seq<u8>> {
        self.buffer_pool.pooled()
    }

    /// The largest number of buffers the executor's pool keeps.
    pub closed spec fn pool_capacity(&self) -> nat {
        self.buffer_pool.capacity()
    }

    /// Create a new sequential benchmark executor; the configuration must
    /// be valid for the target path as found.
    pub fn new(config: BenchmarkConfig, path: PathStatus) -> (r: Result<Self>)
        ensures
            r is Ok <==> config_valid(config, path),
            r is Ok ==> r->Ok_0.wf() && r->Ok_0.config_spec() == config,
            r is Ok ==> r->Ok_0.pooled().len() == 0 && r->Ok_0.pool_capacity() == 4,
            r is Err ==> r->Err_0 is ConfigError,
    {
        match config.validate(path) {
            Err(e) => Err(e),
            Ok(()) => {
                let pool = BufferPool::new(config.block_size as usize, 4);
                match pool {
                    Ok(buffer_pool) => Ok(SequentialBenchmark { config, buffer_pool }),
                    Err(e) => Err(e),
                }
            },
        }
    }

    /// The configuration this executor runs.
    pub fn config(&self) -> (r: &BenchmarkConfig)
        ensures
            *r == self.config_spec(),
    {
        &self.config
    }

    /// A block-sized buffer holding the test pattern, taken from the pool.
    pub fn pattern_buffer(&mut self) -> (r: Vec<u8>)
        requires
            old(self).wf(),
        ensures
            final(self).wf(),
            final(self).config_spec() == old(self).config_spec(),
            final(self).pool_capacity() == old(self).pool_capacity(),
            old(self).pooled().len() > 0 ==> final(self).pooled() == old(self).pooled().drop_last(),
            old(self).pooled().len() == 0 ==> final(self).pooled() == old(self).pooled(),
            r@ == pattern_seq(old(self).config_spec().block_size as nat),
    {
        take_pattern_buffer(&mut self.buffer_pool)
    }

    /// Hands a buffer back to the pool: it is kept, zeroed, when it is a
    /// block long and the pool has room; otherwise it is dropped.
    pub fn release_buffer(&mut self, buffer: Vec<u8>)
        requires
            old(self).wf(),
        ensures
            final(self).wf(),
            final(self).config_spec() == old(self).config_spec(),
            final(self).pool_capacity() == old(self).pool_capacity(),
            final(self).pooled() == (if buffer@.len() == old(self).config_spec().block_size
                && old(self).pooled().len() < old(self).pool_capacity() {
                old(self).pooled().push(zeros(old(self).config_spec().block_size as nat))
            } else {
                old(self).pooled()
            }),
    {
        let _ = self.buffer_pool.return_buffer(buffer);
    }

    /// Starts a run in the configured mode. Only the two sequential modes
    /// are supported.
    pub fn start_run(&self) -> (r: Result<SequentialRun>)
        requires
            self.wf(),
        ensures
            r is Ok <==> (self.config_spec().mode is SequentialWrite
                || self.config_spec().mode is SequentialRead),
            r is Err ==> r->Err_0 is BenchmarkError && r->Err_0->BenchmarkError_0@
                == "Sequential benchmark only supports SequentialWrite and SequentialRead modes"@,
            r is Ok ==> {
                let run = r->Ok_0;
                &&& run.wf()
                &&& run.writing() == (self.config_spec().mode is SequentialWrite)
                &&& run.total() == self.config_spec().file_size
                &&& run.block() == self.config_spec().block_size
                &&& run.done() == 0
                &&& !run.at_eof()
                &&& run.samples().len() == 0
            },
    {
        let writing = match self.config.mode {
            BenchmarkMode::SequentialWrite => true,
            BenchmarkMode::SequentialRead => false,
            _ => {
                return Err(
                    DIOrbError::BenchmarkError(
                        String::from_str(
                            "Sequential benchmark only supports SequentialWrite and SequentialRead modes",
                        ),
                    ),
                );
            },
        };
        Ok(
            SequentialRun {
                writing,
                total: self.config.file_size,
                block: self.config.block_size,
                done: 0,
                at_eof: false,
                samples: Vec::new(),
                last_emit_nanos: 0,
                reported: 0,
            },
        )
    }
}

impl SequentialRun {
    /// A run that writes `total` bytes in blocks of `block` bytes, as done to
    /// fill a scratch file before it is read.
    pub fn writer(total: u64, block: u64) -> (r: Self)
        requires
            0 < block <= crate::config::MAX_BLOCK_SIZE,
        ensures
            r.wf(),
            r.writing(),
            r.total() == total,
            r.block() == block,
            r.done() == 0,
            !r.at_eof(),
            r.samples().len() == 0,
            r.last_emit() == 0,
    {
        SequentialRun {
            writing: true,
            total,
            block,
            done: 0,
            at_eof: false,
            samples: Vec::new(),
            last_emit_nanos: 0,
            reported: 0,
        }
    }

    /// Whether the run writes (rather than reads).
    pub closed spec fn writing(&self) -> bool {
        self.writing
    }

    /// Bytes the run is to process.
    pub closed spec fn total(&self) -> u64 {
        self.total
    }

    /// Largest number of bytes per operation.
    pub closed spec fn block(&self) -> u64 {
        self.block
    }

    /// Bytes processed so far.
    pub closed spec fn done(&self) -> u64 {
        self.done
    }

    /// Whether a read found the end of the file.
    pub closed spec fn at_eof(&self) -> bool {
        self.at_eof
    }

    /// The latency of every operation so far, in nanoseconds.
    pub closed spec fn samples(&self) -> Seq<u64> {
        self.samples@
    }

    /// When progress was last reported, in nanoseconds since the start.
    pub closed spec fn last_emit(&self) -> u64 {
        self.last_emit_nanos
    }

    /// The bytes processed as of the last progress report.
    pub closed spec fn reported(&self) -> u64 {
        self.reported
    }

    /// Blocks are positive and within the accepted size, the run never goes
    /// past its total, and progress reported never runs ahead of it.
    pub open spec fn wf(&self) -> bool {
        &&& 0 < self.block() <= crate::config::MAX_BLOCK_SIZE
        &&& self.done() <= self.total()
        &&& self.reported() <= self.done()
    }

    /// The run is over: every byte is processed, or a read met the end of the file.
    pub open spec fn finished(&self) -> bool {
        self.done() >= self.total() || self.at_eof()
    }

    /// The length of the next operation: a block, or what remains.
    pub open spec fn next_len_spec(&self) -> int {
        if self.block() <= self.total() - self.done() {
            self.block() as int
        } else {
            self.total() - self.done()
        }
    }

    /// Whether the run is over.
    pub fn is_finished(&self) -> (r: bool)
        ensures
            r == self.finished(),
    {
        self.done >= self.total || self.at_eof
    }

    /// Bytes processed so far.
    pub fn bytes_done(&self) -> (r: u64)
        ensures
            r == self.done(),
    {
        self.done
    }

    /// The number of bytes the next operation handles.
    pub fn next_len(&self) -> (r: usize)
        requires
            self.wf(),
            !self.finished(),
        ensures
            r == self.next_len_spec(),
            0 < r <= self.block(),
            written_image(self.done() as nat, self.total() as nat, self.block() as nat) == pattern_seq(
                self.block() as nat,
            ).take(r as int) + written_image(
                (self.done() + r) as nat,
                self.total() as nat,
                self.block() as nat,
            ),
    {
        let remaining = self.total - self.done;
        if self.block <= remaining {
            self.block as usize
        } else {
            remaining as usize
        }
    }

    /// Records a write of `written` bytes that took `latency_nanos`. A write
    /// of nothing, or of more than was asked, is a failure.
    pub fn record_write(&mut self, written: usize, latency_nanos: u64) -> (r: Result<()>)
        requires
            old(self).wf(),
            !old(self).finished(),
        ensures
            final(self).wf(),
            final(self).writing() == old(self).writing(),
            final(self).total() == old(self).total(),
            final(self).block() == old(self).block(),
            final(self).at_eof() == old(self).at_eof(),
            final(self).last_emit() == old(self).last_emit(),
            final(self).reported() == old(self).reported(),
            r is Ok <==> (0 < written <= old(self).next_len_spec()),
            written == 0 ==> r is Err && r->Err_0 is BenchmarkError
                && r->Err_0->BenchmarkError_0@ == "Write returned 0 bytes"@,
            written > old(self).next_len_spec() ==> r is Err && r->Err_0 is BenchmarkError
                && r->Err_0->BenchmarkError_0@ == "Write reported more bytes than given"@,
            r is Ok ==> final(self).done() == old(self).done() + written,
            r is Ok ==> final(self).samples() == old(self).samples().push(latency_nanos),
            r is Err ==> r->Err_0 is BenchmarkError && final(self).done() == old(self).done()
                && final(self).samples() == old(self).samples(),
    {
        let wanted = self.next_len();
        if written == 0 {
            return Err(DIOrbError::BenchmarkError(String::from_str("Write returned 0 bytes")));
        }
        if written > wanted {
            return Err(
                DIOrbError::BenchmarkError(String::from_str("Write reported more bytes than given")),
            );
        }
        self.samples.push(latency_nanos);
        self.done = self.done + written as u64;
        Ok(())
    }

    /// Records a read of `read` bytes that took `latency_nanos`. A read of
    /// nothing is the end of the file: the run stops there, short of its
    /// total, which is normal completion. A read of more than was asked is a
    /// failure.
    pub fn record_read(&mut self, read: usize, latency_nanos: u64) -> (r: Result<()>)
        requires
            old(self).wf(),
            !old(self).finished(),
        ensures
            final(self).wf(),
            final(self).writing() == old(self).writing(),
            final(self).total() == old(self).total(),
            final(self).block() == old(self).block(),
            final(self).last_emit() == old(self).last_emit(),
            final(self).reported() == old(self).reported(),
            r is Ok <==> read <= old(self).next_len_spec(),
            r is Err ==> r->Err_0->BenchmarkError_0@ == "Read reported more bytes than asked"@,
            r is Ok && read == 0 ==> final(self).at_eof() && final(self).done() == old(self).done()
                && final(self).samples() == old(self).samples(),
            r is Ok && read > 0 ==> !final(self).at_eof() && final(self).done() == old(self).done()
                + read && final(self).samples() == old(self).samples().push(latency_nanos),
            r is Err ==> r->Err_0 is BenchmarkError && final(self).done() == old(self).done()
                && final(self).samples() == old(self).samples() && final(self).at_eof()
                == old(self).at_eof(),
    {
        let wanted = self.next_len();
        if read > wanted {
            return Err(
                DIOrbError::BenchmarkError(String::from_str("Read reported more bytes than asked")),
            );
        }
        if read == 0 {
            self.at_eof = true;
            return Ok(());
        }
        self.samples.push(latency_nanos);
        self.done = self.done + read as u64;
        Ok(())
    }

    /// Whether progress is due: 100 ms or more since it was last reported.
    pub fn progress_due(&self, now_nanos: u64) -> (r: bool)
        ensures
            r == (now_nanos >= self.last_emit() && now_nanos - self.last_emit()
                >= PROGRESS_INTERVAL_NANOS),
    {
        now_nanos >= self.last_emit_nanos && now_nanos - self.last_emit_nanos
            >= PROGRESS_INTERVAL_NANOS
    }

    /// The progress update at `elapsed_nanos` since the start, which is then
    /// the time progress was last reported.
    pub fn progress(&mut self, elapsed_nanos: u64) -> (r: ProgressUpdate)
        requires
            old(self).wf(),
        ensures
            final(self).wf(),
            final(self).writing() == old(self).writing(),
            final(self).total() == old(self).total(),
            final(self).block() == old(self).block(),
            final(self).done() == old(self).done(),
            final(self).at_eof() == old(self).at_eof(),
            final(self).samples() == old(self).samples(),
            final(self).last_emit() == elapsed_nanos,
            final(self).reported() == old(self).done(),
            r.bytes_processed >= old(self).reported(),
            r.bytes_processed == old(self).done(),
            r.total_bytes == old(self).total(),
            r.elapsed_nanos == elapsed_nanos,
            r.throughput_mbps_milli == saturate(
                throughput_milli(old(self).done() as int, elapsed_nanos as int),
            ),
            r.iops_milli == saturate(
                rate_milli(old(self).samples().len() as int, elapsed_nanos as int),
            ),
            old(self).done() > 0 && r.throughput_mbps_milli > 0 ==> r.eta_nanos == Some(
                saturate(
                    eta_nanos_spec(
                        old(self).total() - old(self).done(),
                        r.throughput_mbps_milli as int,
                    ),
                ) as u64,
            ),
            !(old(self).done() > 0 && r.throughput_mbps_milli > 0) ==> r.eta_nanos is None,
    {
        let throughput = calculate_throughput_mbps(self.done, elapsed_nanos);
        let iops = calculate_iops(self.samples.len() as u64, elapsed_nanos);
        let eta = estimate_eta(self.done, self.total, throughput);
        self.last_emit_nanos = elapsed_nanos;
        self.reported = self.done;
        ProgressUpdate {
            bytes_processed: self.done,
            total_bytes: self.total,
            throughput_mbps_milli: throughput,
            iops_milli: iops,
            elapsed_nanos,
            eta_nanos: eta,
        }
    }

    /// The run's metrics after `elapsed_nanos`.
    pub fn finish(&self, elapsed_nanos: u64) -> (r: PerformanceMetrics)
        ensures
            metrics_of_run(r, self.done(), elapsed_nanos, self.samples()),
    {
        calculate_metrics(self.done, elapsed_nanos, self.samples.as_slice())
    }

    /// The last progress update of a run, with its final metrics: nothing
    /// remains. A read run that stopped at the end of the file has completed
    /// normally, and reports its full total.
    pub fn final_update(&self, metrics: &PerformanceMetrics) -> (r: ProgressUpdate)
        requires
            self.wf(),
        ensures
            r.bytes_processed == (if self.at_eof() { self.total() } else { self.done() }),
            self.finished() ==> r.bytes_processed == r.total_bytes,
            r.bytes_processed >= self.reported(),
            r.total_bytes == self.total(),
            r.throughput_mbps_milli == metrics.throughput_mbps_milli,
            r.iops_milli == metrics.iops_milli,
            r.elapsed_nanos == metrics.elapsed_nanos,
            r.eta_nanos == Some(0u64),
    {
        ProgressUpdate {
            bytes_processed: if self.at_eof {
                self.total
            } else {
                self.done
            },
            total_bytes: self.total,
            throughput_mbps_milli: metrics.throughput_mbps_milli,
            iops_milli: metrics.iops_milli,
            elapsed_nanos: metrics.elapsed_nanos,
            eta_nanos: Some(0),
        }
    }
}

/// A write run that is over has processed every byte: its final update
/// reports exactly 100% completion.
pub proof fn lemma_write_run_ends_complete(run: SequentialRun)
    requires
        run.wf(),
        run.writing(),
        run.finished(),
        !run.at_eof(),
        run.total() > 0,
    ensures
        run.done() == run.total(),
        completion_ppm(run.done() as int, run.total() as int) == 1000000,
{
    lemma_completion_monotone(0, run.total() as int, run.total() as int);
}

/// For every valid configuration, the scratch file a sequential write lays
/// down holds exactly the pattern `byte[i] = i mod 256` for all `i` below
/// the file size, so reading it back reproduces the pattern.
pub proof fn lemma_valid_write_round_trips(c: BenchmarkConfig, path: PathStatus)
    requires
        config_valid(c, path),
    ensures
        written_image(0, c.file_size as nat, c.block_size as nat).len() == c.file_size,
        forall|i: int|
            0 <= i < c.file_size ==> #[trigger] written_image(
                0,
                c.file_size as nat,
                c.block_size as nat,
            )[i] == (i % 256) as u8,
{
    crate::config::lemma_valid_block_is_multiple_of_256(c, path);
    lemma_written_file_is_pattern(c.file_size as nat, c.block_size as nat);
}

/// Across the stream of updates of one run, completion never decreases:
/// every update (including the last) reports at least the bytes of the one
/// before it, against the same total, so its completion is at least as
/// large; and a finished run's last update is at exactly 100%.
pub proof fn lemma_update_stream_monotone(prev: ProgressUpdate, next: ProgressUpdate)
    requires
        prev.total_bytes == next.total_bytes,
        prev.bytes_processed <= next.bytes_processed,
        next.total_bytes > 0,
    ensures
        completion_ppm(prev.bytes_processed as int, prev.total_bytes as int) <= completion_ppm(
            next.bytes_processed as int,
            next.total_bytes as int,
        ),
        next.bytes_processed == next.total_bytes ==> completion_ppm(
            next.bytes_processed as int,
            next.total_bytes as int,
        ) == 1000000,
{
    lemma_completion_monotone(
        prev.bytes_processed as int,
        next.bytes_processed as int,
        next.total_bytes as int,
    );
}

} // verus!
