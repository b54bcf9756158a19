//! Disk I/O benchmarking core: configuration and validation, latency
//! statistics, buffer pooling, the sequential and random workload step
//! logic, worker orchestration and result combination.

pub mod buffer;
pub mod config;
pub mod disk;
pub mod error;
pub mod models;
pub mod persistence;
pub mod random;
pub mod sequential;
pub mod state;
pub mod units;
pub mod worker;

pub use error::{DIOrbError, Result};
