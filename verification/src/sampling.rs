//! Configuration of a hardware-counter sampling context.
//!
//! The values are those of the kernel's perf interface, held as plain
//! numbers and flags: whoever opens the context copies them into the
//! attribute structure that the kernel reads.

use vstd::prelude::*;

verus! {

/// Event type of the generalized hardware events.
pub const PERF_TYPE_HARDWARE: u32 = 0;

/// The hardware event that counts CPU cycles.
pub const PERF_COUNT_HW_CPU_CYCLES: u64 = 0;

/// Sample type under which a sample carries a raw payload.
pub const PERF_SAMPLE_RAW: u64 = 0x400;

/// Read format flag: report the time the event was enabled.
pub const PERF_FORMAT_TOTAL_TIME_ENABLED: u64 = 1;

/// Read format flag: report the time the event was running.
pub const PERF_FORMAT_TOTAL_TIME_RUNNING: u64 = 2;

/// Process id that stands for every process.
pub const ALL_PROCESSES: i32 = -1;

/// How one sampling context is opened.
#[derive(Debug, Clone, Copy, PartialEq, Eq)]
pub struct SamplingConfig {
    /// Type of the event that is counted.
    pub event_type: u32,
    /// The event that is counted, among those of its type.
    pub event: u64,
    /// Whether `sample_freq` is a frequency, in samples per second, rather
    /// than a period.
    pub freq: bool,
    /// The rate at which samples are taken.
    pub sample_freq: u64,
    /// What a sample carries.
    pub sample_type: u64,
    /// What reading the counter reports.
    pub read_format: u64,
    /// Whether children of the target process are sampled too.
    pub inherit: bool,
    /// Whether the context starts out disabled.
    pub disabled: bool,
    /// Whether the context is enabled when the target next executes a
    /// program.
    pub enable_on_exec: bool,
    /// The number of samples after which the consumer is woken.
    pub wakeup_events: u32,
    /// The process that is sampled, or [`ALL_PROCESSES`].
    pub pid: i32,
    /// The CPU that is sampled.
    pub cpu: i32,
    /// The group that the context joins; -1 where it leads its own.
    pub group_fd: i32,
    /// Flags of the open call.
    pub flags: u64,
}

/// The signed 32-bit number with the bit pattern of `value`.
pub open spec fn as_signed(value: u32) -> int {
    if value <= i32::MAX {
        value as int
    } else {
        value - 0x1_0000_0000
    }
}

/// The process id under which a context for `pid` is opened.
pub open spec fn target_pid(pid: Option<u32>) -> int {
    match pid {
        Some(pid) => as_signed(pid),
        None => ALL_PROCESSES as int,
    }
}

/// The configuration of the context that samples `pid` on `cpu` at `period`
/// samples per second.
pub open spec fn sampling_config(pid: Option<u32>, period: u64, cpu: u32) -> SamplingConfig {
    SamplingConfig {
        event_type: PERF_TYPE_HARDWARE,
        event: PERF_COUNT_HW_CPU_CYCLES,
        freq: true,
        sample_freq: period,
        sample_type: PERF_SAMPLE_RAW,
        read_format: (PERF_FORMAT_TOTAL_TIME_ENABLED + PERF_FORMAT_TOTAL_TIME_RUNNING) as u64,
        inherit: pid is Some,
        disabled: true,
        enable_on_exec: true,
        wakeup_events: 1,
        pid: target_pid(pid) as i32,
        cpu: as_signed(cpu) as i32,
        group_fd: -1i32,
        flags: 0,
    }
}

/// Reads the bit pattern of `value` as a signed number.
pub(crate) fn to_signed(value: u32) -> (signed: i32)
    ensures
        signed == as_signed(value),
{
    if value <= 0x7fff_ffff {
        value as i32
    } else {
        let below: u32 = 0xffff_ffff - value;
        -1 - (below as i32)
    }
}

impl SamplingConfig {
    /// The configuration of the context that samples `pid`, or every process
    /// where there is none, on `cpu`.
    ///
    /// The context counts CPU cycles in hardware and takes `period` samples
    /// per second, each with a raw payload, waking the consumer after every
    /// single one. It starts out disabled and is enabled when the target next
    /// executes a program. Children of the target are sampled only where a
    /// target is given.
    pub fn new(pid: Option<u32>, period: u64, cpu: u32) -> (config: SamplingConfig)
        ensures
            config == sampling_config(pid, period, cpu),
    {
        let target = match pid {
            Some(pid) => to_signed(pid),
            None => ALL_PROCESSES,
        };
        SamplingConfig {
            event_type: PERF_TYPE_HARDWARE,
            event: PERF_COUNT_HW_CPU_CYCLES,
            freq: true,
            sample_freq: period,
            sample_type: PERF_SAMPLE_RAW,
            read_format: PERF_FORMAT_TOTAL_TIME_ENABLED + PERF_FORMAT_TOTAL_TIME_RUNNING,
            inherit: pid.is_some(),
            disabled: true,
            enable_on_exec: true,
            wakeup_events: 1,
            pid: target,
            cpu: to_signed(cpu),
            group_fd: -1,
            flags: 0,
        }
    }
}

} // verus!
