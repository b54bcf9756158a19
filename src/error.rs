//! Error taxonomy, user-facing explanations and the retry policy.

use vstd::prelude::*;
use vstd::string::*;

verus! {

/// The kind of an operating-system I/O failure, as far as this library
/// distinguishes them.
#[derive(Debug, Clone, Copy, PartialEq, Eq, Structural)]
pub enum IoErrorKind {
    NotFound,
    PermissionDenied,
    OutOfMemory,
    StorageFull,
    Interrupted,
    WouldBlock,
    TimedOut,
    ConnectionAborted,
    ConnectionReset,
    Other,
}

/// An operating-system I/O failure: its kind and its message.
#[derive(Debug, Clone)]
pub struct IoFailure {
    pub kind: IoErrorKind,
    pub message: String,
}

/// Every failure the benchmark core reports.
#[derive(Debug, Clone)]
pub enum DIOrbError {
    /// I/O operation failed
    IoError(IoFailure),
    /// Configuration validation or parsing error
    ConfigError(String),
    /// Benchmark execution error
    BenchmarkError(String),
    /// TUI rendering or interaction error
    TuiError(String),
    /// Permission denied for disk operations
    PermissionDenied(String),
    /// Insufficient disk space
    InsufficientSpace(String),
    /// Direct I/O not supported on this platform/filesystem
    DirectIoUnsupported(String),
    /// Temporary file creation failed
    TempFileError(String),
    /// Results persistence error
    PersistenceError(String),
    /// Worker management error
    WorkerError(String),
    /// Cancellation error
    CancellationError(String),
}

/// Result type of the library's fallible operations.
pub type Result<T> = std::result::Result<T, DIOrbError>;

/// The text of `prefix` followed by `rest`.
pub fn join_text(prefix: &str, rest: &str) -> (r: String)
    ensures
        r@ == prefix@ + rest@,
{
    let s = String::from_str(prefix);
    s.concat(rest)
}

/// The human-readable message of an error: a heading for its kind, then its detail.
pub open spec fn error_heading(e: DIOrbError) -> Seq<char> {
    match e {
        DIOrbError::IoError(_) => "I/O error: "@,
        DIOrbError::ConfigError(_) => "Configuration error: "@,
        DIOrbError::BenchmarkError(_) => "Benchmark error: "@,
        DIOrbError::TuiError(_) => "TUI error: "@,
        DIOrbError::PermissionDenied(_) => "Permission denied: "@,
        DIOrbError::InsufficientSpace(_) => "Insufficient disk space: "@,
        DIOrbError::DirectIoUnsupported(_) => "Direct I/O not supported: "@,
        DIOrbError::TempFileError(_) => "Temporary file error: "@,
        DIOrbError::PersistenceError(_) => "Results persistence error: "@,
        DIOrbError::WorkerError(_) => "Worker error: "@,
        DIOrbError::CancellationError(_) => "Cancellation error: "@,
    }
}

/// The detail text that an error carries.
pub open spec fn error_detail(e: DIOrbError) -> Seq<char> {
    match e {
        DIOrbError::IoError(f) => f.message@,
        DIOrbError::ConfigError(m) => m@,
        DIOrbError::BenchmarkError(m) => m@,
        DIOrbError::TuiError(m) => m@,
        DIOrbError::PermissionDenied(m) => m@,
        DIOrbError::InsufficientSpace(m) => m@,
        DIOrbError::DirectIoUnsupported(m) => m@,
        DIOrbError::TempFileError(m) => m@,
        DIOrbError::PersistenceError(m) => m@,
        DIOrbError::WorkerError(m) => m@,
        DIOrbError::CancellationError(m) => m@,
    }
}

impl DIOrbError {
    /// The full message of this error, as shown to a user.
    pub fn message(&self) -> (r: String)
        ensures
            r@ == error_heading(*self) + error_detail(*self),
    {
        match self {
            DIOrbError::IoError(f) => join_text("I/O error: ", f.message.as_str()),
            DIOrbError::ConfigError(m) => join_text("Configuration error: ", m.as_str()),
            DIOrbError::BenchmarkError(m) => join_text("Benchmark error: ", m.as_str()),
            DIOrbError::TuiError(m) => join_text("TUI error: ", m.as_str()),
            DIOrbError::PermissionDenied(m) => join_text("Permission denied: ", m.as_str()),
            DIOrbError::InsufficientSpace(m) => join_text("Insufficient disk space: ", m.as_str()),
            DIOrbError::DirectIoUnsupported(m) => join_text(
                "Direct I/O not supported: ",
                m.as_str(),
            ),
            DIOrbError::TempFileError(m) => join_text("Temporary file error: ", m.as_str()),
            DIOrbError::PersistenceError(m) => join_text(
                "Results persistence error: ",
                m.as_str(),
            ),
            DIOrbError::WorkerError(m) => join_text("Worker error: ", m.as_str()),
            DIOrbError::CancellationError(m) => join_text("Cancellation error: ", m.as_str()),
        }
    }
}

/// How an operating-system failure is classified: permission and
/// out-of-space conditions get kinds of their own, the rest stay I/O errors.
pub open spec fn io_classification(f: IoFailure, e: DIOrbError) -> bool {
    match f.kind {
        IoErrorKind::PermissionDenied => match e {
            DIOrbError::PermissionDenied(m) => m@ == "Access denied: "@ + f.message@,
            _ => false,
        },
        IoErrorKind::StorageFull => match e {
            DIOrbError::InsufficientSpace(m) => m@ == "Storage full: "@ + f.message@,
            _ => false,
        },
        _ => e == DIOrbError::IoError(f),
    }
}

impl DIOrbError {
    /// Classifies an operating-system failure.
    pub fn from_io(f: IoFailure) -> (r: DIOrbError)
        ensures
            io_classification(f, r),
    {
        match f.kind {
            IoErrorKind::PermissionDenied => DIOrbError::PermissionDenied(
                join_text("Access denied: ", f.message.as_str()),
            ),
            IoErrorKind::StorageFull => DIOrbError::InsufficientSpace(
                join_text("Storage full: ", f.message.as_str()),
            ),
            _ => DIOrbError::IoError(f),
        }
    }
}

/// Whether an error is worth retrying: transient I/O kinds, scratch-file and
/// worker failures and the unlisted kinds are; permission, configuration,
/// direct-I/O and cancellation failures are not.
pub open spec fn retryable(e: DIOrbError) -> bool {
    match e {
        DIOrbError::IoError(f) => match f.kind {
            IoErrorKind::Interrupted | IoErrorKind::WouldBlock | IoErrorKind::TimedOut
            | IoErrorKind::ConnectionAborted | IoErrorKind::ConnectionReset => true,
            _ => false,
        },
        DIOrbError::PermissionDenied(_) | DIOrbError::ConfigError(_)
        | DIOrbError::DirectIoUnsupported(_) | DIOrbError::CancellationError(_) => false,
        _ => true,
    }
}

/// Check if an error is retryable
pub fn is_retryable_error(error: &DIOrbError) -> (r: bool)
    ensures
        r == retryable(*error),
{
    match error {
        DIOrbError::IoError(f) => match f.kind {
            IoErrorKind::Interrupted | IoErrorKind::WouldBlock | IoErrorKind::TimedOut
            | IoErrorKind::ConnectionAborted | IoErrorKind::ConnectionReset => true,
            _ => false,
        },
        DIOrbError::TempFileError(_) => true,
        DIOrbError::WorkerError(_) => true,
        DIOrbError::PermissionDenied(_) => false,
        DIOrbError::ConfigError(_) => false,
        DIOrbError::DirectIoUnsupported(_) => false,
        DIOrbError::CancellationError(_) => false,
        _ => true,
    }
}

/// The explanation shown to a user for an error, with a suggestion where one applies.
pub open spec fn friendly_text(e: DIOrbError) -> Seq<char> {
    match e {
        DIOrbError::PermissionDenied(_) =>
            "Permission denied. Try running as administrator or check file permissions."@,
        DIOrbError::InsufficientSpace(_) =>
            "Insufficient disk space. Free up space or choose a smaller file size."@,
        DIOrbError::DirectIoUnsupported(_) =>
            "Direct I/O not supported on this filesystem. Results may be less accurate."@,
        DIOrbError::TempFileError(_) =>
            "Failed to create temporary files. Check disk space and permissions."@,
        DIOrbError::ConfigError(m) => "Configuration error: "@ + m@ + ". Check your settings."@,
        DIOrbError::PersistenceError(_) =>
            "Failed to save results. Check disk space and permissions."@,
        DIOrbError::CancellationError(_) => "Operation was cancelled by user."@,
        _ => error_heading(e) + error_detail(e),
    }
}

/// Convert error to user-friendly message with suggestions
pub fn user_friendly_message(error: &DIOrbError) -> (r: String)
    ensures
        r@ == friendly_text(*error),
{
    match error {
        DIOrbError::PermissionDenied(_) => String::from_str(
            "Permission denied. Try running as administrator or check file permissions.",
        ),
        DIOrbError::InsufficientSpace(_) => String::from_str(
            "Insufficient disk space. Free up space or choose a smaller file size.",
        ),
        DIOrbError::DirectIoUnsupported(_) => String::from_str(
            "Direct I/O not supported on this filesystem. Results may be less accurate.",
        ),
        DIOrbError::TempFileError(_) => String::from_str(
            "Failed to create temporary files. Check disk space and permissions.",
        ),
        DIOrbError::ConfigError(m) => {
            let s = join_text("Configuration error: ", m.as_str());
            s.concat(". Check your settings.")
        },
        DIOrbError::PersistenceError(_) => String::from_str(
            "Failed to save results. Check disk space and permissions.",
        ),
        DIOrbError::CancellationError(_) => String::from_str("Operation was cancelled by user."),
        _ => error.message(),
    }
}

/// The fallback action suggested for an error, where there is one.
pub open spec fn fallback_text(e: DIOrbError) -> Option<Seq<char>> {
    match e {
        DIOrbError::DirectIoUnsupported(_) => Some(
            "Falling back to buffered I/O. Results may be less accurate but still useful."@,
        ),
        DIOrbError::PermissionDenied(_) => Some(
            "Try selecting a different disk location or running with elevated privileges."@,
        ),
        DIOrbError::InsufficientSpace(_) => Some(
            "Consider reducing the file size or selecting a different disk with more space."@,
        ),
        _ => None,
    }
}

/// Create fallback strategies for common errors
pub fn create_fallback_strategy(error: &DIOrbError) -> (r: Option<String>)
    ensures
        match fallback_text(*error) {
            Some(t) => r is Some && r->Some_0@ == t,
            None => r is None,
        },
{
    match error {
        DIOrbError::DirectIoUnsupported(_) => Some(
            String::from_str(
                "Falling back to buffered I/O. Results may be less accurate but still useful.",
            ),
        ),
        DIOrbError::PermissionDenied(_) => Some(
            String::from_str(
                "Try selecting a different disk location or running with elevated privileges.",
            ),
        ),
        DIOrbError::InsufficientSpace(_) => Some(
            String::from_str(
                "Consider reducing the file size or selecting a different disk with more space.",
            ),
        ),
        _ => None,
    }
}

/// Retry configuration for transient operations. Delays are in
/// milliseconds; the backoff multiplier is in percent (200 doubles the delay).
#[derive(Debug, Clone, Copy, PartialEq, Eq, Structural)]
pub struct RetryConfig {
    /// Maximum number of attempts
    pub max_attempts: usize,
    /// Delay before the first retry
    pub initial_delay_ms: u64,
    /// Multiplier for exponential backoff, in percent
    pub backoff_percent: u64,
    /// Largest delay between attempts
    pub max_delay_ms: u64,
}

impl Default for RetryConfig {
    fn default() -> (r: Self)
        ensures
            r == (RetryConfig {
                max_attempts: 3,
                initial_delay_ms: 100,
                backoff_percent: 200,
                max_delay_ms: 5000,
            }),
    {
        RetryConfig { max_attempts: 3, initial_delay_ms: 100, backoff_percent: 200, max_delay_ms: 5000 }
    }
}

/// What the retry loop does after a failed attempt.
#[derive(Debug, Clone, Copy, PartialEq, Eq, Structural)]
pub enum RetryStep {
    /// Stop and report the error just seen.
    GiveUp,
    /// Wait this many milliseconds, then try again.
    RetryAfter(u64),
}

/// The product of two 64-bit values fits in 128 bits.
pub proof fn lemma_u64_product_fits(a: u64, b: u64)
    ensures
        (a as int) * (b as int) <= u128::MAX,
{
    assert((a as int) * (b as int) <= (u64::MAX as int) * (u64::MAX as int)) by (nonlinear_arith);
}

/// The delay that follows `delay_ms` under exponential backoff, capped at the maximum.
pub open spec fn next_delay_spec(config: RetryConfig, delay_ms: u64) -> int {
    let grown = (delay_ms as int) * (config.backoff_percent as int) / 100;
    if grown < config.max_delay_ms as int { grown } else { config.max_delay_ms as int }
}

/// The step taken after attempt number `attempt` (counted from 0) failed with `error`.
pub open spec fn retry_step_spec(config: RetryConfig, attempt: usize, delay_ms: u64, error: DIOrbError) -> RetryStep {
    if !retryable(error) || attempt as int + 1 >= config.max_attempts as int {
        RetryStep::GiveUp
    } else {
        RetryStep::RetryAfter(delay_ms)
    }
}

impl RetryConfig {
    /// The delay that follows `delay_ms`.
    pub fn next_delay(&self, delay_ms: u64) -> (r: u64)
        ensures
            r as int == next_delay_spec(*self, delay_ms),
    {
        proof {
            lemma_u64_product_fits(delay_ms, self.backoff_percent);
        }
        let grown = (delay_ms as u128) * (self.backoff_percent as u128) / 100;
        if grown < self.max_delay_ms as u128 {
            grown as u64
        } else {
            self.max_delay_ms
        }
    }

    /// Decides, after attempt `attempt` failed with `error` and the current
    /// delay is `delay_ms`, whether to try again and after how long.
    pub fn step_after_failure(&self, attempt: usize, delay_ms: u64, error: &DIOrbError) -> (r: RetryStep)
        ensures
            r == retry_step_spec(*self, attempt, delay_ms, *error),
    {
        if !is_retryable_error(error) || attempt as u128 + 1 >= self.max_attempts as u128 {
            RetryStep::GiveUp
        } else {
            RetryStep::RetryAfter(delay_ms)
        }
    }
}

} // verus!
