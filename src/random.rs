//! Random and mixed workloads: duration-bounded operations at random
//! offsets, each a read or a write drawn by the configured read ratio.

use vstd::prelude::*;
use rand::rngs::SmallRng;
use rand::Rng;
use crate::buffer::BufferPool;
use crate::config::{config_valid, BenchmarkConfig, PathStatus, RATIO_ONE};
use crate::error::Result;
use crate::models::{
    calculate_iops, calculate_throughput_mbps, rate_milli, saturate, throughput_milli,
    PerformanceMetrics,
};
use crate::sequential::{
    calculate_metrics, metrics_of_run, pattern_seq, take_pattern_buffer, ProgressUpdate,
    SequentialRun,
};

verus! {

/// The rand crate's small fast generator (`rand::rngs::SmallRng`), seeded
/// by the caller; it is only carried through to `random_below`.
#[verifier::external_type_specification]
#[verifier::external_body]
pub struct ExSmallRng(SmallRng);

/// Relies on `rand::Rng::gen_range` over `0..n` for 64-bit integers: it
/// returns a value in `[0, n)`; it panics on an empty range, which the
/// precondition excludes.
#[verifier::external_body]
fn random_below(rng: &mut SmallRng, n: u64) -> (r: u64)
    requires
        n > 0,
    ensures
        r < n,
{
    rng.gen_range(0..n)
}

/// Progress is reported at least this often, in nanoseconds (200 ms).
pub const RANDOM_PROGRESS_INTERVAL_NANOS: u64 = 200000000;

/// Progress of a time-bounded run is reported out of this many steps.
pub const PROGRESS_STEPS: u64 = 1000;

/// One I/O operation of a random run.
#[derive(Debug, Clone, Copy, PartialEq, Eq, Structural)]
pub enum IoOp {
    Read,
    Write,
}

/// An operation is a read when the draw, uniform in `[0, 1,000,000)`, falls
/// below the read ratio in parts per million.
pub open spec fn op_for(draw_ppm: u64, read_ratio_ppm: u32) -> IoOp {
    if draw_ppm < read_ratio_ppm { IoOp::Read } else { IoOp::Write }
}

/// Chooses the operation for a draw.
pub fn choose_operation(draw_ppm: u64, read_ratio_ppm: u32) -> (r: IoOp)
    ensures
        r == op_for(draw_ppm, read_ratio_ppm),
{
    if draw_ppm < read_ratio_ppm as u64 {
        IoOp::Read
    } else {
        IoOp::Write
    }
}

/// With a read ratio of zero every operation is a write; with a ratio of
/// one every draw is a read.
pub proof fn lemma_ratio_extremes(draw_ppm: u64)
    requires
        draw_ppm < RATIO_ONE,
    ensures
        op_for(draw_ppm, 0) == IoOp::Write,
        op_for(draw_ppm, RATIO_ONE) == IoOp::Read,
{
}

/// The synthetic progress of a time-bounded run: elapsed time as a share of
/// the duration, in thousandths, at most 1000.
pub open spec fn time_progress(elapsed: int, duration: int) -> int {
    if duration <= 0 || elapsed >= duration {
        1000
    } else {
        elapsed * 1000 / duration
    }
}

/// Random benchmark executor
pub struct RandomBenchmark {
    config: BenchmarkConfig,
    buffer_pool: BufferPool,
}

/// Where a random run stands.
pub struct RandomRun {
    file_size: u64,
    block: u64,
    read_ratio_ppm: u32,
    duration_nanos: u64,
    bytes_processed: u64,
    operations: u64,
    reads: u64,
    samples: Vec<u64>,
    last_update_nanos: u64,
    pending: Option<IoOp>,
}

impl RandomBenchmark {
    /// The configuration this executor runs.
    pub closed spec fn config_spec(&self) -> BenchmarkConfig {
        self.config
    }

    /// The configuration is valid and the pool holds blocks of its size.
    pub open spec fn wf(&self) -> bool {
        &&& config_valid(self.config_spec(), PathStatus::Directory)
        &&& self.pool_wf()
    }

    /// The pool is well formed and holds blocks of the configured size.
    pub closed spec fn pool_wf(&self) -> bool {
        &&& self.buffer_pool.wf()
        &&& self.buffer_pool.size() == self.config.block_size
    }

    /// The buffers the executor's pool holds, each as its bytes.
    pub closed spec fn pooled(&self) -> Seq<Seq<u8>> {
        self.buffer_pool.pooled()
    }

    /// Create a new random benchmark executor; the configuration must be
    /// valid for the target path as found.
    pub fn new(config: BenchmarkConfig, path: PathStatus) -> (r: Result<Self>)
        ensures
            r is Ok <==> config_valid(config, path),
            r is Ok ==> r->Ok_0.wf() && r->Ok_0.config_spec() == config,
            r is Err ==> r->Err_0 is ConfigError,
    {
        match config.validate(path) {
            Err(e) => Err(e),
            Ok(()) => {
                match BufferPool::new(config.block_size as usize, 4) {
                    Ok(buffer_pool) => Ok(RandomBenchmark { config, buffer_pool }),
                    Err(e) => Err(e),
                }
            },
        }
    }

    /// The configuration this executor runs.
    pub fn config(&self) -> (r: &BenchmarkConfig)
        ensures
            *r == self.config_spec(),
    {
        &self.config
    }

    /// A block-sized buffer holding the test pattern, taken from the pool.
    pub fn pattern_buffer(&mut self) -> (r: Vec<u8>)
        requires
            old(self).wf(),
        ensures
            final(self).wf(),
            final(self).config_spec() == old(self).config_spec(),
            old(self).pooled().len() > 0 ==> final(self).pooled() == old(self).pooled().drop_last(),
            old(self).pooled().len() == 0 ==> final(self).pooled() == old(self).pooled(),
            r@ == pattern_seq(old(self).config_spec().block_size as nat),
    {
        take_pattern_buffer(&mut self.buffer_pool)
    }

    /// The run that fills the scratch file with the pattern before the
    /// random operations start, so that every read finds data.
    pub fn prefill_run(&self) -> (r: SequentialRun)
        requires
            self.wf(),
        ensures
            r.wf(),
            r.writing(),
            r.total() == self.config_spec().file_size,
            r.block() == self.config_spec().block_size,
            r.done() == 0,
            !r.at_eof(),
    {
        SequentialRun::writer(self.config.file_size, self.config.block_size)
    }

    /// Starts the timed phase with the given read ratio (parts per million).
    pub fn start_run(&self, read_ratio_ppm: u32) -> (r: RandomRun)
        requires
            self.wf(),
        ensures
            r.file_size() == self.config_spec().file_size,
            r.block() == self.config_spec().block_size,
            r.read_ratio() == read_ratio_ppm,
            r.duration() == self.config_spec().duration_nanos,
            r.bytes() == 0 && r.operations() == 0 && r.reads() == 0,
            r.samples().len() == 0,
            r.pending() is None,
            r.wf(),
    {
        RandomRun {
            file_size: self.config.file_size,
            block: self.config.block_size,
            read_ratio_ppm,
            duration_nanos: self.config.duration_nanos,
            bytes_processed: 0,
            operations: 0,
            reads: 0,
            samples: Vec::new(),
            last_update_nanos: 0,
            pending: None,
        }
    }
}

impl RandomRun {
    pub closed spec fn file_size(&self) -> u64 {
        self.file_size
    }

    pub closed spec fn block(&self) -> u64 {
        self.block
    }

    pub closed spec fn read_ratio(&self) -> u32 {
        self.read_ratio_ppm
    }

    pub closed spec fn duration(&self) -> u64 {
        self.duration_nanos
    }

    /// Bytes moved so far: one block per operation.
    pub closed spec fn bytes(&self) -> u64 {
        self.bytes_processed
    }

    /// Operations performed so far.
    pub closed spec fn operations(&self) -> u64 {
        self.operations
    }

    /// Reads among them.
    pub closed spec fn reads(&self) -> u64 {
        self.reads
    }

    /// The latency of every operation, in nanoseconds.
    pub closed spec fn samples(&self) -> Seq<u64> {
        self.samples@
    }

    /// When progress was last reported, in nanoseconds since the start.
    pub closed spec fn last_update(&self) -> u64 {
        self.last_update_nanos
    }

    /// The operation drawn and not yet recorded, if any.
    pub closed spec fn pending(&self) -> Option<IoOp> {
        self.pending
    }

    /// One sample per operation, one block per operation, never more reads
    /// than operations, and with a read ratio of zero no read drawn or done.
    pub open spec fn wf(&self) -> bool {
        &&& self.samples().len() == self.operations()
        &&& self.bytes() == self.operations() * self.block()
        &&& self.reads() <= self.operations()
        &&& self.read_ratio() == 0 ==> self.reads() == 0
        &&& (self.read_ratio() == 0 && self.pending() is Some) ==> self.pending() == Some(IoOp::Write)
    }

    /// Whether the duration has run out.
    pub fn is_over(&self, elapsed_nanos: u64) -> (r: bool)
        ensures
            r == (elapsed_nanos >= self.duration()),
    {
        elapsed_nanos >= self.duration_nanos
    }

    /// Draws the next operation: an offset uniform in `[0, file_size −
    /// block)` (zero where that range is empty) and a read or a write by
    /// the read ratio.
    pub fn next_operation(&mut self, rng: &mut SmallRng) -> (r: (u64, IoOp))
        requires
            old(self).wf(),
        ensures
            final(self).wf(),
            final(self).file_size() == old(self).file_size(),
            final(self).block() == old(self).block(),
            final(self).read_ratio() == old(self).read_ratio(),
            final(self).duration() == old(self).duration(),
            final(self).bytes() == old(self).bytes(),
            final(self).operations() == old(self).operations(),
            final(self).reads() == old(self).reads(),
            final(self).samples() == old(self).samples(),
            final(self).last_update() == old(self).last_update(),
            final(self).pending() == Some(r.1),
            old(self).file_size() > old(self).block() ==> r.0 < old(self).file_size() - old(self).block(),
            old(self).file_size() <= old(self).block() ==> r.0 == 0,
            exists|draw: u64| draw < RATIO_ONE && r.1 == op_for(draw, old(self).read_ratio()),
    {
        let offset = if self.file_size > self.block {
            random_below(rng, self.file_size - self.block)
        } else {
            0
        };
        let draw = random_below(rng, RATIO_ONE as u64);
        let op = choose_operation(draw, self.read_ratio_ppm);
        assert(draw < RATIO_ONE && op == op_for(draw, self.read_ratio()));
        self.pending = Some(op);
        (offset, op)
    }

    /// Records that the operation last drawn, of one block, took
    /// `latency_nanos`.
    pub fn record(&mut self, latency_nanos: u64)
        requires
            old(self).wf(),
            old(self).pending() is Some,
            old(self).bytes() + old(self).block() <= u64::MAX,
            old(self).operations() < u64::MAX,
        ensures
            final(self).wf(),
            final(self).file_size() == old(self).file_size(),
            final(self).block() == old(self).block(),
            final(self).read_ratio() == old(self).read_ratio(),
            final(self).duration() == old(self).duration(),
            final(self).last_update() == old(self).last_update(),
            final(self).bytes() == old(self).bytes() + old(self).block(),
            final(self).operations() == old(self).operations() + 1,
            final(self).reads() == old(self).reads() + (if old(self).pending() == Some(IoOp::Read) {
                1int
            } else {
                0
            }),
            final(self).samples() == old(self).samples().push(latency_nanos),
            final(self).pending() is None,
    {
        let ghost ops0 = self.operations as int;
        let ghost b0 = self.bytes_processed as int;
        self.samples.push(latency_nanos);
        self.bytes_processed = self.bytes_processed + self.block;
        self.operations = self.operations + 1;
        if self.pending == Some(IoOp::Read) {
            self.reads = self.reads + 1;
        }
        self.pending = None;
        let ghost blk = self.block as int;
        let ghost b1 = self.bytes_processed as int;
        let ghost ops1 = self.operations as int;
        assert(b1 == ops1 * blk) by (nonlinear_arith)
            requires
                b1 == b0 + blk,
                b0 == ops0 * blk,
                ops1 == ops0 + 1,
        ;
    }

    /// Bytes moved so far.
    pub fn bytes_processed(&self) -> (r: u64)
        ensures
            r == self.bytes(),
    {
        self.bytes_processed
    }

    /// Reads performed so far.
    pub fn read_count(&self) -> (r: u64)
        ensures
            r == self.reads(),
    {
        self.reads
    }

    /// Operations performed so far.
    pub fn operation_count(&self) -> (r: u64)
        ensures
            r == self.operations(),
    {
        self.operations
    }

    /// Whether progress is due: 200 ms or more since it was last reported.
    pub fn progress_due(&self, now_nanos: u64) -> (r: bool)
        ensures
            r == (now_nanos >= self.last_update() && now_nanos - self.last_update()
                >= RANDOM_PROGRESS_INTERVAL_NANOS),
    {
        now_nanos >= self.last_update_nanos && now_nanos - self.last_update_nanos
            >= RANDOM_PROGRESS_INTERVAL_NANOS
    }

    /// The progress update at `elapsed_nanos`: elapsed time out of the
    /// duration in thousandths, with throughput and rate so far and the
    /// time left.
    pub fn progress(&mut self, elapsed_nanos: u64) -> (r: ProgressUpdate)
        requires
            old(self).wf(),
        ensures
            final(self).wf(),
            final(self).file_size() == old(self).file_size(),
            final(self).block() == old(self).block(),
            final(self).read_ratio() == old(self).read_ratio(),
            final(self).duration() == old(self).duration(),
            final(self).bytes() == old(self).bytes(),
            final(self).operations() == old(self).operations(),
            final(self).reads() == old(self).reads(),
            final(self).samples() == old(self).samples(),
            final(self).pending() == old(self).pending(),
            final(self).last_update() == elapsed_nanos,
            r.bytes_processed == time_progress(elapsed_nanos as int, old(self).duration() as int),
            r.total_bytes == PROGRESS_STEPS,
            r.throughput_mbps_milli == saturate(
                throughput_milli(old(self).bytes() as int, elapsed_nanos as int),
            ),
            r.iops_milli == saturate(
                rate_milli(old(self).operations() as int, elapsed_nanos as int),
            ),
            r.elapsed_nanos == elapsed_nanos,
            r.eta_nanos == Some(
                (if elapsed_nanos >= old(self).duration() {
                    0
                } else {
                    old(self).duration() - elapsed_nanos
                }) as u64,
            ),
    {
        let steps: u64 = if elapsed_nanos >= self.duration_nanos {
            1000
        } else {
            proof {
                assert((elapsed_nanos as int) * 1000 / (self.duration_nanos as int) < 1000)
                    by (nonlinear_arith)
                    requires
                        elapsed_nanos < self.duration_nanos,
                ;
            }
            ((elapsed_nanos as u128) * 1000 / (self.duration_nanos as u128)) as u64
        };
        let eta: u64 = if elapsed_nanos >= self.duration_nanos {
            0
        } else {
            self.duration_nanos - elapsed_nanos
        };
        self.last_update_nanos = elapsed_nanos;
        ProgressUpdate {
            bytes_processed: steps,
            total_bytes: PROGRESS_STEPS,
            throughput_mbps_milli: calculate_throughput_mbps(self.bytes_processed, elapsed_nanos),
            iops_milli: calculate_iops(self.operations, elapsed_nanos),
            elapsed_nanos,
            eta_nanos: Some(eta),
        }
    }

    /// The run's metrics after `elapsed_nanos`.
    pub fn finish(&self, elapsed_nanos: u64) -> (r: PerformanceMetrics)
        ensures
            metrics_of_run(r, self.bytes(), elapsed_nanos, self.samples()),
    {
        calculate_metrics(self.bytes_processed, elapsed_nanos, self.samples.as_slice())
    }

    /// The last progress update: the whole duration is done.
    pub fn final_update(&self, metrics: &PerformanceMetrics) -> (r: ProgressUpdate)
        ensures
            r.bytes_processed == PROGRESS_STEPS,
            r.total_bytes == PROGRESS_STEPS,
            r.throughput_mbps_milli == metrics.throughput_mbps_milli,
            r.iops_milli == metrics.iops_milli,
            r.elapsed_nanos == metrics.elapsed_nanos,
            r.eta_nanos == Some(0u64),
    {
        ProgressUpdate {
            bytes_processed: PROGRESS_STEPS,
            total_bytes: PROGRESS_STEPS,
            throughput_mbps_milli: metrics.throughput_mbps_milli,
            iops_milli: metrics.iops_milli,
            elapsed_nanos: metrics.elapsed_nanos,
            eta_nanos: Some(0),
        }
    }
}

/// The synthetic progress of a time-bounded run never decreases as time
/// passes, stays within 1000, and is exactly 1000 once the duration is over.
pub proof fn lemma_time_progress_monotone(e1: int, e2: int, duration: int)
    requires
        0 <= e1 <= e2,
        duration > 0,
    ensures
        time_progress(e1, duration) <= time_progress(e2, duration) <= 1000,
        e2 >= duration ==> time_progress(e2, duration) == 1000,
{
    if e2 < duration {
        assert(e1 * 1000 <= e2 * 1000) by (nonlinear_arith)
            requires
                e1 <= e2,
        ;
        assert(e1 * 1000 / duration <= e2 * 1000 / duration) by (nonlinear_arith)
            requires
                e1 * 1000 <= e2 * 1000,
                duration > 0,
        ;
        assert(e2 * 1000 / duration < 1000) by (nonlinear_arith)
            requires
                0 <= e2 < duration,
        ;
    } else if e1 < duration {
        assert(e1 * 1000 / duration < 1000) by (nonlinear_arith)
            requires
                0 <= e1 < duration,
        ;
    }
}

/// A run whose read ratio is zero never reads: whatever operations it
/// draws and records, its read count stays zero.
pub proof fn lemma_zero_ratio_run_never_reads(run: RandomRun)
    requires
        run.wf(),
        run.read_ratio() == 0,
    ensures
        run.reads() == 0,
        run.pending() is Some ==> run.pending() == Some(IoOp::Write),
{
}

} // verus!
