//! Events produced by the monitors.

use vstd::prelude::*;

verus! {

/// One observation made by a monitor.
///
/// Events are plain value records: two events with equal fields are the same
/// event. Their order is the order in which the kernel channel delivered them.
#[derive(Debug, Clone, Copy, PartialEq, Eq)]
pub enum CacheMonitorValue {
    /// A thread faulted on a page whose soft-dirty state had been cleared.
    SoftDirtyFault { tid: u32, address: u64 },
    /// A hardware-counter sample taken on one CPU.
    PerfSample { pid: u32, tid: u32, cpu: u32, address: u64 },
}

impl CacheMonitorValue {
    /// The tag under which a consumer files this event.
    pub open spec fn spec_source_tag(self) -> Seq<char> {
        match self {
            CacheMonitorValue::SoftDirtyFault { .. } => "soft_dirty_fault"@,
            CacheMonitorValue::PerfSample { .. } => "perf_sample"@,
        }
    }

    /// The tag under which a consumer files this event: `soft_dirty_fault`
    /// or `perf_sample`.
    pub fn source_tag(&self) -> (tag: &'static str)
        ensures
            tag@ == self.spec_source_tag(),
    {
        match self {
            CacheMonitorValue::SoftDirtyFault { .. } => "soft_dirty_fault",
            CacheMonitorValue::PerfSample { .. } => "perf_sample",
        }
    }
}

} // verus!
