//! Capture-and-queue core of a kernel cache-observation tool.
//!
//! Monitors turn raw chunks handed over by a kernel delivery channel into
//! typed events, keep them in arrival order and hand them to a sink on
//! request. Everything that touches the kernel itself (loading programs,
//! opening sampling contexts, writing control files) is left to the caller,
//! who is told what to do next by the values these functions return.

pub mod attach;
pub mod columns;
pub mod error;
pub mod event;
pub mod monitors;
pub mod procfs;
pub mod queue;
pub mod record;
pub mod ring;
pub mod sampling;

pub use error::MonitorError;
pub use event::CacheMonitorValue;
pub use monitors::{CacheMonitor, PerfSampleMonitor, PollAction, SoftDirtyCacheMonitor};
