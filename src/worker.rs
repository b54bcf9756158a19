//! Worker orchestration: per-worker state, work partitioning, cancellation,
//! progress aggregation and the combination of per-worker results. The
//! caller spawns and joins the worker tasks; every decision is taken here.

use vstd::prelude::*;
use vstd::string::*;
use crate::config::{config_valid, is_sequential, BenchmarkConfig, PathStatus};
use crate::error::{error_detail, error_heading, DIOrbError, Result};
use crate::models::{
    calculate_throughput_mbps, saturate, stats_of_samples, throughput_milli, BenchmarkResult,
    LatencyStats, PerformanceMetrics,
};
use crate::sequential::{completion_ppm, eta_nanos_spec, ProgressUpdate, COMPLETE_PPM};

verus! {

/// Worker status for tracking individual worker states
#[derive(Debug)]
pub enum WorkerStatus {
    /// Worker is idle and ready to accept work
    Idle,
    /// Worker is currently running a benchmark
    Running,
    /// Worker has completed successfully
    Completed,
    /// Worker failed with an error
    Failed(String),
    /// Worker was cancelled
    Cancelled,
}

/// Two statuses are equal when they are the same state, and failures carry
/// the same text.
pub open spec fn same_status(a: WorkerStatus, b: WorkerStatus) -> bool {
    match (a, b) {
        (WorkerStatus::Idle, WorkerStatus::Idle) => true,
        (WorkerStatus::Running, WorkerStatus::Running) => true,
        (WorkerStatus::Completed, WorkerStatus::Completed) => true,
        (WorkerStatus::Cancelled, WorkerStatus::Cancelled) => true,
        (WorkerStatus::Failed(x), WorkerStatus::Failed(y)) => x@ == y@,
        _ => false,
    }
}

/// Whether two texts have the same bytes.
fn same_bytes(a: &[u8], b: &[u8]) -> (r: bool)
    ensures
        r == (a@ == b@),
{
    if a.len() != b.len() {
        return false;
    }
    let mut i: usize = 0;
    while i < a.len()
        invariant
            a@.len() == b@.len(),
            i <= a@.len(),
            forall|j: int| 0 <= j < i ==> a@[j] == b@[j],
        decreases a.len() - i,
    {
        if a[i] != b[i] {
            return false;
        }
        i = i + 1;
    }
    assert(a@ =~= b@);
    true
}

impl WorkerStatus {
    /// A copy of this status.
    pub fn clone_status(&self) -> (r: Self)
        ensures
            r == *self,
    {
        match self {
            WorkerStatus::Idle => WorkerStatus::Idle,
            WorkerStatus::Running => WorkerStatus::Running,
            WorkerStatus::Completed => WorkerStatus::Completed,
            WorkerStatus::Failed(m) => WorkerStatus::Failed(m.clone()),
            WorkerStatus::Cancelled => WorkerStatus::Cancelled,
        }
    }
}

impl PartialEq for WorkerStatus {
    fn eq(&self, other: &WorkerStatus) -> (r: bool)
        ensures
            r == same_status(*self, *other),
    {
        match (self, other) {
            (WorkerStatus::Idle, WorkerStatus::Idle) => true,
            (WorkerStatus::Running, WorkerStatus::Running) => true,
            (WorkerStatus::Completed, WorkerStatus::Completed) => true,
            (WorkerStatus::Cancelled, WorkerStatus::Cancelled) => true,
            (WorkerStatus::Failed(x), WorkerStatus::Failed(y)) => {
                let same = same_bytes(x.as_str().as_bytes(), y.as_str().as_bytes());
                proof {
                    vstd::utf8::encode_utf8_decode_utf8(x@);
                    vstd::utf8::encode_utf8_decode_utf8(y@);
                }
                same
            },
            _ => false,
        }
    }
}

impl vstd::std_specs::cmp::PartialEqSpecImpl for WorkerStatus {
    open spec fn obeys_eq_spec() -> bool {
        true
    }

    open spec fn eq_spec(&self, other: &WorkerStatus) -> bool {
        same_status(*self, *other)
    }
}

/// The status marks a worker in progress.
pub open spec fn is_active_status(s: WorkerStatus) -> bool {
    s is Running
}

/// The status is terminal: completed, failed or cancelled.
pub open spec fn is_completed_status(s: WorkerStatus) -> bool {
    s is Completed || s is Failed || s is Cancelled
}

/// Individual worker information
#[derive(Debug)]
pub struct WorkerInfo {
    /// Unique worker ID
    pub id: usize,
    /// Current status of the worker
    pub status: WorkerStatus,
}

impl WorkerInfo {
    /// Create a new, idle worker
    pub fn new(id: usize) -> (r: Self)
        ensures
            r.id == id,
            r.status is Idle,
    {
        WorkerInfo { id, status: WorkerStatus::Idle }
    }

    /// Check if the worker is active (running)
    pub fn is_active(&self) -> (r: bool)
        ensures
            r == is_active_status(self.status),
    {
        match self.status {
            WorkerStatus::Running => true,
            _ => false,
        }
    }

    /// Check if the worker is completed (success, failure or cancellation)
    pub fn is_completed(&self) -> (r: bool)
        ensures
            r == is_completed_status(self.status),
    {
        match self.status {
            WorkerStatus::Completed | WorkerStatus::Failed(_) | WorkerStatus::Cancelled => true,
            _ => false,
        }
    }
}

/// The sum of `f` over the updates that are present.
pub open spec fn sum_present(s: Seq<Option<ProgressUpdate>>, f: spec_fn(ProgressUpdate) -> int) -> int
    decreases s.len(),
{
    if s.len() == 0 {
        0
    } else {
        sum_present(s.drop_last(), f) + match s.last() {
            Some(u) => f(u),
            None => 0,
        }
    }
}

/// The updates that are present, in worker order.
pub open spec fn present_updates(s: Seq<Option<ProgressUpdate>>) -> Seq<ProgressUpdate>
    decreases s.len(),
{
    if s.len() == 0 {
        Seq::empty()
    } else {
        let rest = present_updates(s.drop_last());
        match s.last() {
            Some(u) => rest.push(u),
            None => rest,
        }
    }
}

pub open spec fn bytes_of(u: ProgressUpdate) -> int {
    u.bytes_processed as int
}

pub open spec fn target_of(u: ProgressUpdate) -> int {
    u.total_bytes as int
}

pub open spec fn throughput_of(u: ProgressUpdate) -> int {
    u.throughput_mbps_milli as int
}

pub open spec fn iops_of(u: ProgressUpdate) -> int {
    u.iops_milli as int
}

/// Aggregated progress update from all workers
#[derive(Debug, Clone)]
pub struct AggregatedProgress {
    /// Total bytes processed across all workers
    pub total_bytes_processed: u64,
    /// Total bytes to process across all workers
    pub total_bytes_target: u64,
    /// Average throughput across workers that reported, in thousandths of MiB/s
    pub avg_throughput_mbps_milli: u64,
    /// Total operations per second across all workers, in thousandths
    pub total_iops_milli: u64,
    /// Elapsed time since benchmark start, in nanoseconds
    pub elapsed_nanos: u64,
    /// Estimated time remaining, in nanoseconds
    pub eta_nanos: Option<u64>,
    /// Number of workers that have reported
    pub active_workers: usize,
    /// The latest update of every worker that has reported
    pub worker_progress: Vec<ProgressUpdate>,
}

impl AggregatedProgress {
    /// Overall completion in parts per million; zero when the target is zero.
    pub fn completion_percentage(&self) -> (r: u64)
        ensures
            r == saturate(
                completion_ppm(self.total_bytes_processed as int, self.total_bytes_target as int),
            ),
    {
        if self.total_bytes_target == 0 {
            return 0;
        }
        let v = (self.total_bytes_processed as u128) * 1000000 / (self.total_bytes_target as u128);
        if v > u64::MAX as u128 {
            u64::MAX
        } else {
            v as u64
        }
    }
}

/// The aggregate of the workers' latest updates at `elapsed` since the start:
/// sums of bytes, targets and rates over workers that reported, their mean
/// throughput, and the time left at the summed throughput.
pub open spec fn aggregate_of(a: AggregatedProgress, s: Seq<Option<ProgressUpdate>>, elapsed: u64) -> bool {
    let done = saturate(sum_present(s, |u| bytes_of(u)));
    let target = saturate(sum_present(s, |u| target_of(u)));
    let tp = sum_present(s, |u| throughput_of(u));
    let n = present_updates(s).len();
    &&& a.total_bytes_processed == done
    &&& a.total_bytes_target == target
    &&& a.total_iops_milli == saturate(sum_present(s, |u| iops_of(u)))
    &&& a.active_workers == n
    &&& a.avg_throughput_mbps_milli == (if n > 0 { tp / (n as int) } else { 0 })
    &&& a.elapsed_nanos == elapsed
    &&& a.worker_progress@ == present_updates(s)
    &&& (done > 0 && tp > 0 ==> a.eta_nanos == Some(
        saturate(eta_nanos_spec(if target >= done { target - done } else { 0 }, tp)) as u64,
    ))
    &&& (!(done > 0 && tp > 0) ==> a.eta_nanos is None)
}

/// A sum over the present updates of values below 2^64 stays below
/// their count times 2^64, and there are no more of them than workers.
proof fn lemma_sum_present_bound(s: Seq<Option<ProgressUpdate>>, f: spec_fn(ProgressUpdate) -> int)
    requires
        forall|u: ProgressUpdate| 0 <= #[trigger] f(u) <= u64::MAX,
    ensures
        0 <= sum_present(s, f) <= present_updates(s).len() * (u64::MAX as int),
        present_updates(s).len() <= s.len(),
    decreases s.len(),
{
    if s.len() > 0 {
        lemma_sum_present_bound(s.drop_last(), f);
        let n = present_updates(s.drop_last()).len();
        assert((n + 1) * (u64::MAX as int) == n * (u64::MAX as int) + u64::MAX) by (nonlinear_arith);
    }
}

/// Aggregate progress from all workers
pub fn aggregate_progress(worker_progress: &[Option<ProgressUpdate>], elapsed_nanos: u64) -> (r:
    AggregatedProgress)
    ensures
        aggregate_of(r, worker_progress@, elapsed_nanos),
{
    let ghost s = worker_progress@;
    let mut done: u128 = 0;
    let mut target: u128 = 0;
    let mut tp: u128 = 0;
    let mut iops: u128 = 0;
    let mut active: usize = 0;
    let mut valid: Vec<ProgressUpdate> = Vec::new();
    let mut i: usize = 0;
    let count = worker_progress.len();
    while i < count
        invariant
            i <= s.len(),
            s == worker_progress@,
            count == s.len(),
            done == sum_present(s.subrange(0, i as int), |u| bytes_of(u)),
            target == sum_present(s.subrange(0, i as int), |u| target_of(u)),
            tp == sum_present(s.subrange(0, i as int), |u| throughput_of(u)),
            iops == sum_present(s.subrange(0, i as int), |u| iops_of(u)),
            valid@ == present_updates(s.subrange(0, i as int)),
            active == valid@.len(),
            active <= i,
        decreases s.len() - i,
    {
        let ghost pre = s.subrange(0, i as int);
        let ghost post = s.subrange(0, i + 1);
        assert(post.drop_last() =~= pre);
        proof {
            lemma_sum_present_bound(pre, |u| bytes_of(u));
            lemma_sum_present_bound(pre, |u| target_of(u));
            lemma_sum_present_bound(pre, |u| throughput_of(u));
            lemma_sum_present_bound(pre, |u| iops_of(u));
            assert(pre.len() * (u64::MAX as int) <= (usize::MAX as int) * (u64::MAX as int))
                by (nonlinear_arith)
                requires
                    pre.len() <= usize::MAX,
            ;
        }
        match worker_progress[i] {
            Some(u) => {
                done = done + u.bytes_processed as u128;
                target = target + u.total_bytes as u128;
                tp = tp + u.throughput_mbps_milli as u128;
                iops = iops + u.iops_milli as u128;
                active = active + 1;
                valid.push(u);
            },
            None => {},
        }
        i = i + 1;
    }
    assert(s.subrange(0, i as int) =~= s);
    let done64: u64 = if done > u64::MAX as u128 {
        u64::MAX
    } else {
        done as u64
    };
    let target64: u64 = if target > u64::MAX as u128 {
        u64::MAX
    } else {
        target as u64
    };
    let iops64: u64 = if iops > u64::MAX as u128 {
        u64::MAX
    } else {
        iops as u64
    };
    proof {
        lemma_sum_present_bound(s, |u| throughput_of(u));
    }
    let avg: u64 = if active > 0 {
        proof {
            let ghost t = tp as int;
            let ghost a = active as int;
            assert(t / a <= u64::MAX) by (nonlinear_arith)
                requires
                    t <= a * (u64::MAX as int),
                    a > 0,
            ;
        }
        (tp / (active as u128)) as u64
    } else {
        0
    };
    let eta: Option<u64> = if done64 > 0 && tp > 0 {
        let remaining: u64 = if target64 >= done64 {
            target64 - done64
        } else {
            0
        };
        if tp > u128::MAX / 1048576 {
            // The remaining time is below a nanosecond at such a rate.
            proof {
                let rem = remaining as int;
                let t = tp as int;
                assert(rem * 1000000000000 < t * 1048576) by (nonlinear_arith)
                    requires
                        rem <= u64::MAX,
                        t > u128::MAX / 1048576,
                ;
                assert(rem * 1000000000000 / (t * 1048576) == 0) by (nonlinear_arith)
                    requires
                        rem * 1000000000000 < t * 1048576,
                        rem >= 0,
                ;
            }
            Some(0)
        } else {
            let den: u128 = tp * 1048576;
            let v = (remaining as u128) * 1000000000000 / den;
            if v > u64::MAX as u128 {
                Some(u64::MAX)
            } else {
                Some(v as u64)
            }
        }
    } else {
        None
    };
    AggregatedProgress {
        total_bytes_processed: done64,
        total_bytes_target: target64,
        avg_throughput_mbps_milli: avg,
        total_iops_milli: iops64,
        elapsed_nanos,
        eta_nanos: eta,
        active_workers: active,
        worker_progress: valid,
    }
}

/// The configuration each worker runs: for size-bounded modes with several
/// workers the file size is divided evenly among them (integer division,
/// the remainder is dropped); duration-bounded modes run the full
/// configuration on every worker.
pub open spec fn partitioned(c: BenchmarkConfig) -> BenchmarkConfig {
    if is_sequential(c.mode) && c.thread_count > 1 {
        BenchmarkConfig { file_size: (c.file_size / (c.thread_count as u64)) as u64, ..c }
    } else {
        c
    }
}

/// Benchmark worker manager for coordinating multiple workers
pub struct WorkerManager {
    config: BenchmarkConfig,
    workers: Vec<WorkerInfo>,
    started: bool,
}

impl WorkerManager {
    /// The configuration being run.
    pub closed spec fn config_spec(&self) -> BenchmarkConfig {
        self.config
    }

    /// The workers' states, in registration order.
    pub closed spec fn statuses(&self) -> Seq<WorkerStatus> {
        self.workers@.map_values(|w: WorkerInfo| w.status)
    }

    /// The workers' ids, in registration order.
    pub closed spec fn ids(&self) -> Seq<usize> {
        self.workers@.map_values(|w: WorkerInfo| w.id)
    }

    /// Whether a run has been started.
    pub closed spec fn is_started(&self) -> bool {
        self.started
    }

    /// The configuration is valid.
    pub open spec fn wf(&self) -> bool {
        config_valid(self.config_spec(), PathStatus::Directory)
    }

    /// Create a new worker manager; the configuration must be valid for the
    /// target path as found.
    pub fn new(config: BenchmarkConfig, path: PathStatus) -> (r: Result<Self>)
        ensures
            r is Ok <==> config_valid(config, path),
            r is Err ==> r->Err_0 is ConfigError,
            r is Ok ==> {
                let m = r->Ok_0;
                &&& m.wf()
                &&& m.config_spec() == config
                &&& m.statuses().len() == 0
                &&& !m.is_started()
            },
    {
        match config.validate(path) {
            Err(e) => Err(e),
            Ok(()) => {
                let m = WorkerManager { config, workers: Vec::new(), started: false };
                assert(m.statuses() =~= Seq::<WorkerStatus>::empty());
                Ok(m)
            },
        }
    }

    /// The configuration being run.
    pub fn config(&self) -> (r: &BenchmarkConfig)
        ensures
            *r == self.config_spec(),
    {
        &self.config
    }

    /// Whether a run has been started.
    pub fn started(&self) -> (r: bool)
        ensures
            r == self.is_started(),
    {
        self.started
    }

    /// The configuration each worker runs.
    pub fn worker_config(&self) -> (r: BenchmarkConfig)
        requires
            self.wf(),
        ensures
            r == partitioned(self.config_spec()),
    {
        let mut c = self.config.clone_config();
        if c.mode.uses_file_size() && c.thread_count > 1 {
            c.file_size = c.file_size / (c.thread_count as u64);
        }
        c
    }

    /// Starts a run: one worker per configured thread, all running. A
    /// size-bounded run whose per-worker share is not a valid configuration
    /// fails, and leaves every worker idle.
    pub fn start_benchmark(&mut self) -> (r: Result<()>)
        requires
            old(self).wf(),
        ensures
            final(self).wf(),
            final(self).config_spec() == old(self).config_spec(),
            final(self).is_started(),
            final(self).ids().len() == old(self).config_spec().thread_count,
            final(self).statuses().len() == old(self).config_spec().thread_count,
            forall|i: int| 0 <= i < final(self).ids().len() ==> #[trigger] final(self).ids()[i] == i,
            r is Ok <==> config_valid(partitioned(old(self).config_spec()), PathStatus::Directory),
            r is Err ==> r->Err_0 is ConfigError,
            r is Ok ==> forall|i: int|
                0 <= i < final(self).statuses().len() ==> #[trigger] final(self).statuses()[i]
                    is Running,
            r is Err ==> forall|i: int|
                0 <= i < final(self).statuses().len() ==> #[trigger] final(self).statuses()[i]
                    is Idle,
    {
        self.started = true;
        let share = self.worker_config();
        let check = share.validate(PathStatus::Directory);
        let running = check.is_ok();
        let n = self.config.thread_count;
        let mut workers: Vec<WorkerInfo> = Vec::new();
        let mut i: usize = 0;
        while i < n
            invariant
                i <= n,
                workers@.len() == i,
                forall|j: int| 0 <= j < i ==> (#[trigger] workers@[j]).id == j,
                forall|j: int|
                    0 <= j < i ==> if running {
                        (#[trigger] workers@[j]).status is Running
                    } else {
                        (#[trigger] workers@[j]).status is Idle
                    },
            decreases n - i,
        {
            let status = if running {
                WorkerStatus::Running
            } else {
                WorkerStatus::Idle
            };
            workers.push(WorkerInfo { id: i, status });
            i = i + 1;
        }
        self.workers = workers;
        check
    }

    /// Cancel all running workers: each running worker becomes cancelled at
    /// once; workers in any other state are left as they are.
    pub fn cancel_all(&mut self) -> (r: Result<()>)
        ensures
            r is Ok,
            final(self).config_spec() == old(self).config_spec(),
            final(self).is_started() == old(self).is_started(),
            final(self).ids() == old(self).ids(),
            final(self).statuses().len() == old(self).statuses().len(),
            forall|i: int|
                0 <= i < old(self).statuses().len() ==> #[trigger] final(self).statuses()[i] == (
                if old(self).statuses()[i] is Running {
                    WorkerStatus::Cancelled
                } else {
                    old(self).statuses()[i]
                }),
    {
        let n = self.workers.len();
        let mut i: usize = 0;
        while i < n
            invariant
                i <= n,
                self.workers@.len() == n,
                self.config == old(self).config,
                self.started == old(self).started,
                forall|j: int| 0 <= j < n ==> (#[trigger] self.workers@[j]).id == old(self).workers@[j].id,
                forall|j: int|
                    0 <= j < i ==> (#[trigger] self.workers@[j]).status == (
                    if old(self).workers@[j].status is Running {
                        WorkerStatus::Cancelled
                    } else {
                        old(self).workers@[j].status
                    }),
                forall|j: int| i <= j < n ==> (#[trigger] self.workers@[j]) == old(self).workers@[j],
            decreases n - i,
        {
            if self.workers[i].is_active() {
                let id = self.workers[i].id;
                self.workers.set(i, WorkerInfo { id, status: WorkerStatus::Cancelled });
            }
            i = i + 1;
        }
        assert(self.ids() =~= old(self).ids());
        Ok(())
    }

    /// Get current worker statuses with their ids
    pub fn get_worker_statuses(&self) -> (r: Vec<(usize, WorkerStatus)>)
        ensures
            r@.len() == self.statuses().len(),
            forall|i: int| 0 <= i < r@.len() ==> #[trigger] r@[i] == (self.ids()[i], self.statuses()[i]),
    {
        let mut out: Vec<(usize, WorkerStatus)> = Vec::new();
        let mut i: usize = 0;
        while i < self.workers.len()
            invariant
                i <= self.workers@.len(),
                out@.len() == i,
                forall|j: int| 0 <= j < i ==> #[trigger] out@[j] == (self.ids()[j], self.statuses()[j]),
            decreases self.workers.len() - i,
        {
            out.push((self.workers[i].id, self.workers[i].status.clone_status()));
            i = i + 1;
        }
        out
    }

    /// Get the number of active workers
    pub fn active_worker_count(&self) -> (r: usize)
        ensures
            r == self.statuses().filter(|s: WorkerStatus| is_active_status(s)).len(),
    {
        let mut count: usize = 0;
        let mut i: usize = 0;
        while i < self.workers.len()
            invariant
                i <= self.workers@.len(),
                count == self.statuses().subrange(0, i as int).filter(
                    |s: WorkerStatus| is_active_status(s),
                ).len(),
                count <= i,
            decreases self.workers.len() - i,
        {
            proof {
                let pre = self.statuses().subrange(0, i as int);
                assert(self.statuses().subrange(0, i + 1) =~= pre.push(self.statuses()[i as int]));
                pre.lemma_filter_push(self.statuses()[i as int], |s: WorkerStatus| is_active_status(s));
            }
            if self.workers[i].is_active() {
                count = count + 1;
            }
            i = i + 1;
        }
        assert(self.statuses().subrange(0, i as int) =~= self.statuses());
        count
    }

    /// Check if all workers are completed
    pub fn all_workers_completed(&self) -> (r: bool)
        ensures
            r == forall|i: int| 0 <= i < self.statuses().len() ==> is_completed_status(#[trigger] self.statuses()[i]),
    {
        let mut i: usize = 0;
        while i < self.workers.len()
            invariant
                i <= self.workers@.len(),
                forall|j: int| 0 <= j < i ==> is_completed_status(#[trigger] self.statuses()[j]),
            decreases self.workers.len() - i,
        {
            if !self.workers[i].is_completed() {
                assert(!is_completed_status(self.statuses()[i as int]));
                return false;
            }
            i = i + 1;
        }
        true
    }
}

/// Cancelling every worker right after a run starts leaves each of them
/// cancelled: none stays running.
pub proof fn lemma_cancel_after_start(started: Seq<WorkerStatus>, after: Seq<WorkerStatus>)
    requires
        forall|i: int| 0 <= i < started.len() ==> #[trigger] started[i] is Running,
        after.len() == started.len(),
        forall|i: int|
            0 <= i < started.len() ==> #[trigger] after[i] == (if started[i] is Running {
                WorkerStatus::Cancelled
            } else {
                started[i]
            }),
    ensures
        forall|i: int| 0 <= i < after.len() ==> #[trigger] after[i] is Cancelled,
        forall|i: int| 0 <= i < after.len() ==> !(#[trigger] after[i] is Running),
{
    assert forall|i: int| 0 <= i < after.len() implies #[trigger] after[i] is Cancelled by {
        assert(started[i] is Running);
    }
}

/// Workers cancelled right after a run starts are still cancelled once
/// their tasks' outcomes are recorded, whatever those outcomes were: none
/// is left running or marked failed.
pub proof fn lemma_cancelled_run_ends_cancelled(
    cancelled: Seq<WorkerStatus>,
    after: Seq<WorkerStatus>,
)
    requires
        forall|i: int| 0 <= i < cancelled.len() ==> #[trigger] cancelled[i] is Cancelled,
        after.len() == cancelled.len(),
        forall|i: int|
            0 <= i < cancelled.len() && (#[trigger] cancelled[i]) is Cancelled
                ==> after[i] is Cancelled,
    ensures
        forall|i: int| 0 <= i < after.len() ==> #[trigger] after[i] is Cancelled,
{
    assert forall|i: int| 0 <= i < after.len() implies #[trigger] after[i] is Cancelled by {
        assert(cancelled[i] is Cancelled);
    }
}

/// How a worker's state ends once its task's outcome is known: a worker
/// already cancelled stays cancelled; otherwise success completes it and a
/// failure marks it failed with the error's message.
pub open spec fn settled(before: WorkerStatus, after: WorkerStatus, outcome: Result<BenchmarkResult>) -> bool {
    if before is Cancelled {
        after is Cancelled
    } else {
        match outcome {
            Ok(_) => after is Completed,
            Err(e) => failed_with(after, e),
        }
    }
}

/// The worker states after the outcomes were recorded up to a first failure
/// at `k`: the workers up to it settled by their outcomes, and those after
/// it kept their states.
pub open spec fn first_failure_at(
    before: Seq<WorkerStatus>,
    after: Seq<WorkerStatus>,
    outcomes: Seq<Result<BenchmarkResult>>,
    k: int,
) -> bool {
    &&& 0 <= k < outcomes.len()
    &&& forall|i: int| 0 <= i < k ==> (#[trigger] outcomes[i]) is Ok
    &&& forall|i: int| 0 <= i <= k ==> settled(before[i], #[trigger] after[i], outcomes[i])
    &&& outcomes[k] is Err
    &&& forall|i: int| k < i < outcomes.len() ==> #[trigger] after[i] == before[i]
}

/// The status of a worker whose task failed with `e`: failed, with the
/// error's message.
pub open spec fn failed_with(s: WorkerStatus, e: DIOrbError) -> bool {
    match s {
        WorkerStatus::Failed(m) => m@ == error_heading(e) + error_detail(e),
        _ => false,
    }
}

impl WorkerManager {
    /// Records how every worker's task ended, in registration order: each
    /// success completes its worker and is kept; the first failure marks
    /// its worker failed and is returned at once, dropping the results
    /// gathered so far and leaving later workers as they were. A worker
    /// already cancelled stays cancelled, whatever its task reported.
    pub fn complete_workers(&mut self, outcomes: Vec<Result<BenchmarkResult>>) -> (r: Result<
        Vec<BenchmarkResult>,
    >)
        requires
            outcomes@.len() == old(self).statuses().len(),
        ensures
            final(self).config_spec() == old(self).config_spec(),
            final(self).is_started() == old(self).is_started(),
            final(self).ids() == old(self).ids(),
            final(self).statuses().len() == old(self).statuses().len(),
            forall|i: int|
                0 <= i < old(self).statuses().len() && (#[trigger] old(self).statuses()[i]) is Cancelled
                    ==> final(self).statuses()[i] is Cancelled,
            r is Ok ==> {
                &&& forall|i: int| 0 <= i < outcomes@.len() ==> (#[trigger] outcomes@[i]) is Ok
                &&& r->Ok_0@.len() == outcomes@.len()
                &&& forall|i: int| 0 <= i < outcomes@.len() ==> #[trigger] r->Ok_0@[i] == outcomes@[i]->Ok_0
                &&& forall|i: int|
                    0 <= i < outcomes@.len() ==> settled(
                        old(self).statuses()[i],
                        #[trigger] final(self).statuses()[i],
                        outcomes@[i],
                    )
            },
            r is Err ==> exists|k: int|
                #[trigger] first_failure_at(old(self).statuses(), final(self).statuses(), outcomes@, k)
                    && r->Err_0 == outcomes@[k]->Err_0,
    {
        let ghost all = outcomes@;
        let n = outcomes.len();
        let mut rest = outcomes;
        let mut results: Vec<BenchmarkResult> = Vec::new();
        let mut i: usize = 0;
        while i < n
            invariant
                n == all.len(),
                all == outcomes@,
                i <= n,
                rest@ == all.subrange(i as int, n as int),
                self.workers@.len() == n,
                old(self).workers@.len() == n,
                self.config == old(self).config,
                self.started == old(self).started,
                forall|j: int| 0 <= j < n ==> (#[trigger] self.workers@[j]).id == old(self).workers@[j].id,
                forall|j: int| 0 <= j < i ==> (#[trigger] all[j]) is Ok,
                forall|j: int|
                    0 <= j < i ==> settled(
                        old(self).workers@[j].status,
                        (#[trigger] self.workers@[j]).status,
                        all[j],
                    ),
                forall|j: int| i <= j < n ==> (#[trigger] self.workers@[j]) == old(self).workers@[j],
                results@.len() == i,
                forall|j: int| 0 <= j < i ==> #[trigger] results@[j] == all[j]->Ok_0,
            decreases n - i,
        {
            let outcome = rest.remove(0);
            assert(outcome == all[i as int]);
            let id = self.workers[i].id;
            let was_cancelled = match self.workers[i].status {
                WorkerStatus::Cancelled => true,
                _ => false,
            };
            match outcome {
                Ok(result) => {
                    if !was_cancelled {
                        self.workers.set(i, WorkerInfo { id, status: WorkerStatus::Completed });
                    }
                    results.push(result);
                },
                Err(e) => {
                    if !was_cancelled {
                        let message = e.message();
                        self.workers.set(i, WorkerInfo { id, status: WorkerStatus::Failed(message) });
                    }
                    proof {
                        assert(self.ids() =~= old(self).ids());
                        let k = i as int;
                        assert forall|j: int| k < j < n implies #[trigger] self.statuses()[j]
                            == old(self).statuses()[j] by {
                            assert(self.workers@[j] == old(self).workers@[j]);
                        }
                        assert forall|j: int| 0 <= j <= k implies settled(
                            old(self).statuses()[j],
                            #[trigger] self.statuses()[j],
                            all[j],
                        ) by {
                            assert(self.statuses()[j] == self.workers@[j].status);
                            assert(old(self).statuses()[j] == old(self).workers@[j].status);
                        }
                        assert(all[k] is Err && e == all[k]->Err_0);
                        assert(first_failure_at(old(self).statuses(), self.statuses(), all, k));
                        assert forall|j: int|
                            0 <= j < n && (#[trigger] old(self).statuses()[j]) is Cancelled
                                implies self.statuses()[j] is Cancelled by {
                            assert(self.statuses()[j] == self.workers@[j].status);
                            assert(old(self).statuses()[j] == old(self).workers@[j].status);
                        }
                    }
                    return Err(e);
                },
            }
            i = i + 1;
            assert(rest@ =~= all.subrange(i as int, n as int));
        }
        assert(self.ids() =~= old(self).ids());
        assert forall|j: int| 0 <= j < n implies settled(
            old(self).statuses()[j],
            #[trigger] self.statuses()[j],
            all[j],
        ) by {
            assert(self.statuses()[j] == self.workers@[j].status);
            assert(old(self).statuses()[j] == old(self).workers@[j].status);
        }
        assert forall|j: int|
            0 <= j < n && (#[trigger] old(self).statuses()[j]) is Cancelled
                implies self.statuses()[j] is Cancelled by {
            assert(self.statuses()[j] == self.workers@[j].status);
            assert(old(self).statuses()[j] == old(self).workers@[j].status);
            assert(settled(old(self).statuses()[j], self.statuses()[j], all[j]));
        }
        Ok(results)
    }
}

/// The total bytes of the results.
pub open spec fn bytes_total(rs: Seq<BenchmarkResult>) -> int
    decreases rs.len(),
{
    if rs.len() == 0 {
        0
    } else {
        bytes_total(rs.drop_last()) + rs.last().metrics.bytes_processed as int
    }
}

/// The longest elapsed time among the results; zero for none.
pub open spec fn elapsed_max(rs: Seq<BenchmarkResult>) -> u64
    decreases rs.len(),
{
    if rs.len() == 0 {
        0
    } else {
        let m = elapsed_max(rs.drop_last());
        let e = rs.last().metrics.elapsed_nanos;
        if e > m { e } else { m }
    }
}

/// Each result's minimum, average and maximum latency, in order.
pub open spec fn latency_triplets(rs: Seq<BenchmarkResult>) -> Seq<u64>
    decreases rs.len(),
{
    if rs.len() == 0 {
        Seq::empty()
    } else {
        let l = rs.last().metrics.latency;
        latency_triplets(rs.drop_last()) + seq![l.min, l.avg, l.max]
    }
}

/// Operations per second, in thousandths, when `bytes` move in blocks of
/// `block` bytes over `nanos`.
pub open spec fn block_rate_milli(bytes: int, block: int, nanos: int) -> int {
    if nanos <= 0 || block <= 0 {
        0
    } else {
        bytes * 1000000000000 / (block * nanos)
    }
}

/// `r` combines `rs`: the first result's time stamp, configuration and
/// system info; the sum of all bytes; the longest elapsed time; latency
/// statistics recomputed from every result's minimum, average and maximum
/// (an approximation, not a merge of the underlying samples); and
/// throughput and rate recomputed from those totals.
pub open spec fn combination_of(rs: Seq<BenchmarkResult>, block: u64, r: BenchmarkResult) -> bool {
    let total = bytes_total(rs);
    let elapsed = elapsed_max(rs);
    &&& r.timestamp_millis == rs[0].timestamp_millis
    &&& r.config == rs[0].config
    &&& r.system_info == rs[0].system_info
    &&& r.metrics.bytes_processed == total
    &&& r.metrics.elapsed_nanos == elapsed
    &&& stats_of_samples(r.metrics.latency, latency_triplets(rs))
    &&& r.metrics.throughput_mbps_milli == saturate(throughput_milli(total, elapsed as int))
    &&& r.metrics.iops_milli == (if elapsed > 0 && r.metrics.latency.avg > 0 {
        saturate(block_rate_milli(total, block as int, elapsed as int))
    } else {
        0
    })
}

/// A combined result processes exactly the bytes of its parts: the sum of
/// the per-worker bytes.
pub proof fn lemma_combined_bytes_are_sum(rs: Seq<BenchmarkResult>, block: u64, r: BenchmarkResult)
    requires
        rs.len() > 0,
        combination_of(rs, block, r),
    ensures
        r.metrics.bytes_processed == bytes_total(rs),
        rs.len() == 2 ==> r.metrics.bytes_processed == rs[0].metrics.bytes_processed
            + rs[1].metrics.bytes_processed,
{
    if rs.len() == 2 {
        let first = rs.drop_last();
        assert(first.drop_last() =~= Seq::<BenchmarkResult>::empty());
        assert(first.last() == rs[0]);
        assert(bytes_total(first) == bytes_total(first.drop_last()) + rs[0].metrics.bytes_processed);
        assert(bytes_total(rs) == bytes_total(first) + rs[1].metrics.bytes_processed);
    }
}

impl WorkerManager {
    /// Combine results from multiple workers into a single result; an empty
    /// list is a failure.
    pub fn combine_results(&self, results: Vec<BenchmarkResult>) -> (r: Result<BenchmarkResult>)
        requires
            bytes_total(results@) <= u64::MAX,
            results@.len() * 3 <= usize::MAX,
        ensures
            results@.len() == 0 <==> r is Err,
            r is Err ==> r->Err_0 is BenchmarkError && r->Err_0->BenchmarkError_0@
                == "No results to combine"@,
            r is Ok ==> combination_of(results@, self.config_spec().block_size, r->Ok_0),
    {
        if results.len() == 0 {
            return Err(DIOrbError::BenchmarkError(String::from_str("No results to combine")));
        }
        let ghost rs = results@;
        let n = results.len();
        let mut total: u64 = 0;
        let mut elapsed: u64 = 0;
        let mut triplets: Vec<u64> = Vec::new();
        let mut i: usize = 0;
        while i < n
            invariant
                i <= n,
                n == rs.len(),
                rs == results@,
                bytes_total(rs) <= u64::MAX,
                total == bytes_total(rs.subrange(0, i as int)),
                elapsed == elapsed_max(rs.subrange(0, i as int)),
                triplets@ == latency_triplets(rs.subrange(0, i as int)),
            decreases n - i,
        {
            proof {
                let pre = rs.subrange(0, i as int);
                assert(rs.subrange(0, i + 1).drop_last() =~= pre);
                lemma_bytes_total_prefix(rs, i as int + 1);
            }
            let m = &results[i].metrics;
            total = total + m.bytes_processed;
            if m.elapsed_nanos > elapsed {
                elapsed = m.elapsed_nanos;
            }
            triplets.push(m.latency.min);
            triplets.push(m.latency.avg);
            triplets.push(m.latency.max);
            i = i + 1;
            proof {
                assert(triplets@ =~= latency_triplets(rs.subrange(0, i as int)));
            }
        }
        assert(rs.subrange(0, n as int) =~= rs);
        let latency = LatencyStats::from_samples(triplets.as_slice());
        let throughput = calculate_throughput_mbps(total, elapsed);
        let iops: u64 = if elapsed > 0 && latency.avg > 0 && self.config.block_size > 0 {
            proof {
                crate::error::lemma_u64_product_fits(self.config.block_size, elapsed);
                let b = self.config.block_size as int;
                let e = elapsed as int;
                assert(b * e > 0) by (nonlinear_arith)
                    requires
                        b > 0,
                        e > 0,
                ;
            }
            let v = (total as u128) * 1000000000000 / ((self.config.block_size as u128) * (
            elapsed as u128));
            if v > u64::MAX as u128 {
                u64::MAX
            } else {
                v as u64
            }
        } else {
            0
        };
        let mut rest = results;
        let mut combined = rest.remove(0);
        combined.metrics = PerformanceMetrics {
            bytes_processed: total,
            elapsed_nanos: elapsed,
            throughput_mbps_milli: throughput,
            iops_milli: iops,
            latency,
        };
        Ok(combined)
    }
}

/// Totals of prefixes never exceed the total of the whole.
proof fn lemma_bytes_total_prefix(rs: Seq<BenchmarkResult>, k: int)
    requires
        0 <= k <= rs.len(),
    ensures
        bytes_total(rs.subrange(0, k)) <= bytes_total(rs),
    decreases rs.len() - k,
{
    if k < rs.len() {
        lemma_bytes_total_prefix(rs, k + 1);
        assert(rs.subrange(0, k + 1).drop_last() =~= rs.subrange(0, k));
    } else {
        assert(rs.subrange(0, k) =~= rs);
    }
}

/// An aggregated snapshot is sent at least this often, in nanoseconds (200 ms).
pub const AGGREGATE_INTERVAL_NANOS: u64 = 200000000;

/// Whether the aggregation loop sends a snapshot now: new data arrived, or
/// 200 ms or more passed since the last one.
pub fn aggregation_due(any_received: bool, since_last_nanos: u64) -> (r: bool)
    ensures
        r == (any_received || since_last_nanos >= AGGREGATE_INTERVAL_NANOS),
{
    any_received || since_last_nanos >= AGGREGATE_INTERVAL_NANOS
}

/// Every worker has reported, and its latest update is at 100% or beyond.
pub open spec fn all_done_spec(s: Seq<Option<ProgressUpdate>>) -> bool {
    forall|i: int|
        0 <= i < s.len() ==> match #[trigger] s[i] {
            Some(u) => saturate(completion_ppm(u.bytes_processed as int, u.total_bytes as int))
                >= COMPLETE_PPM,
            None => false,
        }
}

/// Whether the aggregation loop is finished: every worker's latest update
/// reports completion.
pub fn all_workers_done(worker_progress: &[Option<ProgressUpdate>]) -> (r: bool)
    ensures
        r == all_done_spec(worker_progress@),
{
    let mut i: usize = 0;
    while i < worker_progress.len()
        invariant
            i <= worker_progress@.len(),
            forall|j: int|
                0 <= j < i ==> match #[trigger] worker_progress@[j] {
                    Some(u) => saturate(completion_ppm(u.bytes_processed as int, u.total_bytes as int))
                        >= COMPLETE_PPM,
                    None => false,
                },
        decreases worker_progress.len() - i,
    {
        match worker_progress[i] {
            Some(u) => {
                if u.completion_percentage() < COMPLETE_PPM {
                    return false;
                }
            },
            None => {
                return false;
            },
        }
        i = i + 1;
    }
    true
}

} // verus!
