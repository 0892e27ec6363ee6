//! Errors reported by the monitors.

use vstd::prelude::*;

verus! {

/// Why a monitor operation did not succeed.
#[derive(Debug, Clone, Copy, PartialEq, Eq)]
pub enum MonitorError {
    /// A delivered chunk did not have the length of the record it should hold.
    FormatMismatch { expected: usize, actual: usize },
    /// The sampling program is attached on no CPU; `failures` CPUs were tried
    /// and failed.
    NoCpusAttached { failures: u32 },
    /// The sampling program has not been tried on every CPU yet.
    AttachUnfinished,
}

} // verus!
