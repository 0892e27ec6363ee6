use scxcash::attach::{AttachEvent, PerfAttach};
use scxcash::queue::FnSink;
use scxcash::record::ByteOrder;
use scxcash::{CacheMonitor, CacheMonitorValue, MonitorError, PerfSampleMonitor, PollAction, SoftDirtyCacheMonitor};

fn fault_record(tid: u32, address: u64) -> Vec<u8> {
    let mut chunk = Vec::new();
    chunk.extend_from_slice(&tid.to_ne_bytes());
    chunk.extend_from_slice(&[0; 4]);
    chunk.extend_from_slice(&address.to_ne_bytes());
    chunk
}

fn sample_chunk(pid: u32, tid: u32, cpu: u32, address: u64) -> Vec<u8> {
    let mut chunk = vec![0; 4];
    chunk.extend_from_slice(&pid.to_ne_bytes());
    chunk.extend_from_slice(&tid.to_ne_bytes());
    chunk.extend_from_slice(&cpu.to_ne_bytes());
    chunk.extend_from_slice(&[0; 4]);
    chunk.extend_from_slice(&address.to_ne_bytes());
    chunk
}

fn attached_on(cpus: u32, attached: u32) -> PerfAttach {
    let mut fan_out = PerfAttach::new(cpus);
    for cpu in 0..cpus {
        fan_out.advance(AttachEvent::Opened { fd: 3 + cpu as i32 });
        fan_out.advance(AttachEvent::Attached { ok: cpu < attached });
        fan_out.advance(AttachEvent::Registered { ok: true });
    }
    fan_out
}

fn names(entries: &[&str]) -> Vec<Vec<u8>> {
    entries.iter().map(|entry| entry.as_bytes().to_vec()).collect()
}

#[test]
fn soft_dirty_end_to_end() {
    let mut monitor = SoftDirtyCacheMonitor::new(None, 100);
    assert_eq!(monitor.max_entries(), 4096);
    assert_eq!(monitor.pid(), None);
    assert_eq!(monitor.filter_tgid(), None);
    let delivered = vec![fault_record(42, 0x1000), fault_record(7, 0x2000)];
    assert_eq!(monitor.poll(&delivered), Ok(PollAction::ResetAllProcesses));
    assert_eq!(monitor.queue_len(), 2);
    let mut seen = Vec::new();
    let mut sink = FnSink::new(|event| seen.push(event));
    assert_eq!(monitor.consume(&mut sink), Ok(()));
    drop(sink);
    assert_eq!(
        seen,
        vec![
            CacheMonitorValue::SoftDirtyFault { tid: 42, address: 0x1000 },
            CacheMonitorValue::SoftDirtyFault { tid: 7, address: 0x2000 },
        ]
    );
    assert_eq!(monitor.queue_len(), 0);
}

#[test]
fn soft_dirty_monitor_is_sized_from_the_request() {
    assert_eq!(SoftDirtyCacheMonitor::new(None, 0).max_entries(), 4096);
    assert_eq!(SoftDirtyCacheMonitor::new(Some(3), 70_000).max_entries(), 131_072);
    assert_eq!(SoftDirtyCacheMonitor::new(Some(3), 70_000).pid(), Some(3));
    assert_eq!(SoftDirtyCacheMonitor::new(None, 0).byte_order(), ByteOrder::host());
    assert_eq!(SoftDirtyCacheMonitor::with_byte_order(None, 0, ByteOrder::Little).max_entries(), 4096);
    assert_eq!(SoftDirtyCacheMonitor::with_byte_order(None, 4097, ByteOrder::Little).max_entries(), 8192);
    assert_eq!(SoftDirtyCacheMonitor::with_byte_order(Some(1), 1 << 20, ByteOrder::Big).max_entries(), 1 << 20);
    assert_eq!(SoftDirtyCacheMonitor::with_byte_order(Some(1), u64::MAX, ByteOrder::Big).max_entries(), u32::MAX);
    assert_eq!(SoftDirtyCacheMonitor::with_byte_order(Some(1), 9, ByteOrder::Big).byte_order(), ByteOrder::Big);
}

#[test]
fn soft_dirty_filter_is_the_watched_process() {
    assert_eq!(SoftDirtyCacheMonitor::with_byte_order(Some(1234), 0, ByteOrder::Little).filter_tgid(), Some(1234));
    assert_eq!(SoftDirtyCacheMonitor::with_byte_order(Some(0), 0, ByteOrder::Little).filter_tgid(), Some(0));
    assert_eq!(SoftDirtyCacheMonitor::with_byte_order(Some(0x8000_0000), 0, ByteOrder::Little).filter_tgid(), Some(i32::MIN));
    assert_eq!(SoftDirtyCacheMonitor::with_byte_order(Some(u32::MAX), 0, ByteOrder::Little).filter_tgid(), Some(-1));
}

#[test]
fn soft_dirty_chunks_of_other_lengths_are_dropped() {
    let mut monitor = SoftDirtyCacheMonitor::new(Some(1), 4096);
    monitor.deliver(&[]);
    monitor.deliver(&[1, 2, 3]);
    monitor.deliver(&fault_record(1, 2)[..15]);
    monitor.deliver(&sample_chunk(1, 2, 3, 4));
    let mut long = fault_record(1, 2);
    long.push(0);
    monitor.deliver(&long);
    assert_eq!(monitor.queue_len(), 0);
    let delivered = vec![vec![], vec![0; 8], fault_record(5, 6), vec![0; 17], fault_record(7, 8), vec![0; 28]];
    assert_eq!(monitor.poll(&delivered), Ok(PollAction::ResetProcess { pid: 1 }));
    let mut seen = Vec::new();
    assert_eq!(monitor.consume(&mut seen), Ok(()));
    assert_eq!(
        seen,
        vec![
            CacheMonitorValue::SoftDirtyFault { tid: 5, address: 6 },
            CacheMonitorValue::SoftDirtyFault { tid: 7, address: 8 },
        ]
    );
}

#[test]
fn poll_without_chunks_changes_nothing() {
    let mut monitor = SoftDirtyCacheMonitor::new(None, 0);
    monitor.deliver(&fault_record(1, 1));
    assert_eq!(monitor.poll(&Vec::new()), Ok(PollAction::ResetAllProcesses));
    assert_eq!(monitor.poll(&Vec::new()), Ok(PollAction::ResetAllProcesses));
    assert_eq!(monitor.queue_len(), 1);
}

#[test]
fn polls_queue_behind_what_waits() {
    let mut monitor = SoftDirtyCacheMonitor::new(None, 0);
    monitor.poll(&vec![fault_record(1, 10)]).unwrap();
    monitor.deliver(&fault_record(2, 20));
    monitor.poll(&vec![fault_record(3, 30), fault_record(4, 40)]).unwrap();
    let mut seen = Vec::new();
    monitor.consume(&mut seen).unwrap();
    let tids: Vec<u32> = seen
        .iter()
        .map(|event| match event {
            CacheMonitorValue::SoftDirtyFault { tid, .. } => *tid,
            CacheMonitorValue::PerfSample { tid, .. } => *tid,
        })
        .collect();
    assert_eq!(tids, vec![1, 2, 3, 4]);
}

#[test]
fn chunks_in_batches_queue_what_they_queue_at_once() {
    let chunks = vec![
        fault_record(1, 10),
        vec![0; 3],
        fault_record(2, 20),
        fault_record(3, 30),
        vec![0; 40],
        fault_record(4, 40),
    ];
    let mut at_once = SoftDirtyCacheMonitor::new(None, 0);
    at_once.poll(&chunks).unwrap();
    let mut expected = Vec::new();
    at_once.consume(&mut expected).unwrap();
    assert_eq!(expected.len(), 4);
    for split in 0..=chunks.len() {
        let mut in_batches = SoftDirtyCacheMonitor::new(None, 0);
        in_batches.poll(&chunks[..split].to_vec()).unwrap();
        in_batches.poll(&chunks[split..].to_vec()).unwrap();
        let mut seen = Vec::new();
        in_batches.consume(&mut seen).unwrap();
        assert_eq!(seen, expected);
    }
}

#[test]
fn consume_on_empty_monitor_calls_the_sink_zero_times() {
    let mut monitor = SoftDirtyCacheMonitor::new(None, 0);
    let mut calls = 0;
    let mut sink = FnSink::new(|_event| calls += 1);
    assert_eq!(monitor.consume(&mut sink), Ok(()));
    assert_eq!(monitor.consume(&mut sink), Ok(()));
    drop(sink);
    assert_eq!(calls, 0);
}

#[test]
fn second_consume_hands_over_nothing() {
    let mut monitor = SoftDirtyCacheMonitor::new(None, 0);
    monitor.poll(&vec![fault_record(1, 1), fault_record(2, 2), fault_record(3, 3)]).unwrap();
    let mut calls = 0;
    let mut sink = FnSink::new(|_event| calls += 1);
    monitor.consume(&mut sink).unwrap();
    monitor.consume(&mut sink).unwrap();
    drop(sink);
    assert_eq!(calls, 3);
}

#[test]
fn scoped_monitor_resets_its_process_and_lists_nothing() {
    let mut monitor = SoftDirtyCacheMonitor::new(Some(77), 0);
    assert_eq!(monitor.poll(&Vec::new()), Ok(PollAction::ResetProcess { pid: 77 }));
    assert_eq!(monitor.reset_targets(&Vec::new()), vec![77]);
    assert_eq!(monitor.reset_targets(&names(&["1", "2", "77", "self"])), vec![77]);
}

#[test]
fn unscoped_monitor_resets_every_listed_process() {
    let mut monitor = SoftDirtyCacheMonitor::new(None, 0);
    assert_eq!(monitor.poll(&Vec::new()), Ok(PollAction::ResetAllProcesses));
    assert_eq!(
        monitor.reset_targets(&names(&["1", "2", "acpi", "300", "self", "4000000"])),
        vec![1, 2, 300, 4_000_000]
    );
    assert_eq!(monitor.reset_targets(&Vec::new()), Vec::<u32>::new());
}

#[test]
fn perf_monitor_needs_one_attached_cpu() {
    let monitor = PerfSampleMonitor::new(Some(9), 4000, &attached_on(4, 1)).unwrap();
    assert_eq!(monitor.attached_cpus(), 1);
    assert_eq!(monitor.pid(), Some(9));
    assert_eq!(monitor.period(), 4000);
    assert_eq!(monitor.byte_order(), ByteOrder::host());
    assert_eq!(monitor.queue_len(), 0);
    let monitor = PerfSampleMonitor::with_byte_order(None, 1, ByteOrder::Big, &attached_on(4, 4)).unwrap();
    assert_eq!(monitor.attached_cpus(), 4);
    assert_eq!(monitor.pid(), None);
    assert_eq!(monitor.byte_order(), ByteOrder::Big);
}

#[test]
fn perf_monitor_without_attached_cpu_is_refused() {
    let refused = PerfSampleMonitor::with_byte_order(None, 1, ByteOrder::Little, &attached_on(4, 0));
    assert_eq!(refused.err(), Some(MonitorError::NoCpusAttached { failures: 4 }));
    let refused = PerfSampleMonitor::with_byte_order(None, 1, ByteOrder::Little, &PerfAttach::new(0));
    assert_eq!(refused.err(), Some(MonitorError::NoCpusAttached { failures: 0 }));
    let refused = PerfSampleMonitor::new(Some(1), 1, &attached_on(16, 0));
    assert_eq!(refused.err(), Some(MonitorError::NoCpusAttached { failures: 16 }));
    let refused = PerfSampleMonitor::new(Some(1), 1, &PerfAttach::new(3));
    assert_eq!(refused.err(), Some(MonitorError::AttachUnfinished));
}

#[test]
fn perf_monitor_before_the_end_of_the_fan_out_is_refused() {
    let mut fan_out = PerfAttach::new(2);
    let refused = PerfSampleMonitor::with_byte_order(None, 1, ByteOrder::Little, &fan_out);
    assert_eq!(refused.err(), Some(MonitorError::AttachUnfinished));
    fan_out.advance(AttachEvent::Opened { fd: 3 });
    fan_out.advance(AttachEvent::Attached { ok: true });
    let refused = PerfSampleMonitor::with_byte_order(None, 1, ByteOrder::Little, &fan_out);
    assert_eq!(refused.err(), Some(MonitorError::AttachUnfinished));
}

#[test]
fn perf_monitor_end_to_end() {
    let mut monitor = PerfSampleMonitor::new(None, 99, &attached_on(2, 2)).unwrap();
    let delivered = vec![
        sample_chunk(100, 101, 0, 0xffff_ffff_8100_0000),
        fault_record(1, 2),
        vec![0; 24],
        sample_chunk(200, 201, 1, 0x7f00_0000_1000),
        vec![0; 29],
    ];
    assert_eq!(monitor.poll(&delivered), Ok(PollAction::Nothing));
    monitor.deliver(&sample_chunk(300, 301, 1, 1));
    monitor.deliver(&[0; 27]);
    assert_eq!(monitor.queue_len(), 3);
    let mut seen = Vec::new();
    assert_eq!(monitor.consume(&mut seen), Ok(()));
    assert_eq!(
        seen,
        vec![
            CacheMonitorValue::PerfSample { pid: 100, tid: 101, cpu: 0, address: 0xffff_ffff_8100_0000 },
            CacheMonitorValue::PerfSample { pid: 200, tid: 201, cpu: 1, address: 0x7f00_0000_1000 },
            CacheMonitorValue::PerfSample { pid: 300, tid: 301, cpu: 1, address: 1 },
        ]
    );
    assert_eq!(monitor.consume(&mut seen), Ok(()));
    assert_eq!(seen.len(), 3);
    assert_eq!(monitor.attached_cpus(), 2);
}

#[test]
fn monitors_read_records_in_their_byte_order() {
    let mut chunk = Vec::new();
    chunk.extend_from_slice(&0x0102_0304u32.to_be_bytes());
    chunk.extend_from_slice(&[0; 4]);
    chunk.extend_from_slice(&0x1122_3344_5566_7788u64.to_be_bytes());
    let mut big = SoftDirtyCacheMonitor::with_byte_order(None, 0, ByteOrder::Big);
    let mut little = SoftDirtyCacheMonitor::with_byte_order(None, 0, ByteOrder::Little);
    big.deliver(&chunk);
    little.deliver(&chunk);
    let mut seen = Vec::new();
    big.consume(&mut seen).unwrap();
    little.consume(&mut seen).unwrap();
    assert_eq!(
        seen,
        vec![
            CacheMonitorValue::SoftDirtyFault { tid: 0x0102_0304, address: 0x1122_3344_5566_7788 },
            CacheMonitorValue::SoftDirtyFault { tid: 0x0403_0201, address: 0x8877_6655_4433_2211 },
        ]
    );
}
