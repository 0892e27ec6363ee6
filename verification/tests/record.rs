use scxcash::record::{
    decode, decode_perf_sample, decode_soft_dirty, ByteOrder, RecordKind, PERF_SAMPLE_CHUNK_LEN,
    PERF_SAMPLE_HEADER_LEN, PERF_SAMPLE_RECORD_LEN, SOFT_DIRTY_RECORD_LEN,
};
use scxcash::{CacheMonitorValue, MonitorError};

fn soft_dirty_le(tid: u32, address: u64) -> Vec<u8> {
    let mut chunk = Vec::new();
    chunk.extend_from_slice(&tid.to_le_bytes());
    chunk.extend_from_slice(&[0xaa; 4]);
    chunk.extend_from_slice(&address.to_le_bytes());
    chunk
}

fn perf_sample_be(pid: u32, tid: u32, cpu: u32, address: u64) -> Vec<u8> {
    let mut chunk = vec![0xde, 0xad, 0xbe, 0xef];
    chunk.extend_from_slice(&pid.to_be_bytes());
    chunk.extend_from_slice(&tid.to_be_bytes());
    chunk.extend_from_slice(&cpu.to_be_bytes());
    chunk.extend_from_slice(&[0x55; 4]);
    chunk.extend_from_slice(&address.to_be_bytes());
    chunk
}

#[test]
fn lengths_add_up() {
    assert_eq!(SOFT_DIRTY_RECORD_LEN, 16);
    assert_eq!(PERF_SAMPLE_RECORD_LEN, 24);
    assert_eq!(PERF_SAMPLE_HEADER_LEN, 4);
    assert_eq!(PERF_SAMPLE_CHUNK_LEN, PERF_SAMPLE_RECORD_LEN + PERF_SAMPLE_HEADER_LEN);
}

#[test]
fn soft_dirty_record_little_endian() {
    let chunk = soft_dirty_le(42, 0x1000);
    assert_eq!(
        decode_soft_dirty(&chunk, ByteOrder::Little),
        Ok(CacheMonitorValue::SoftDirtyFault { tid: 42, address: 0x1000 })
    );
}

#[test]
fn soft_dirty_record_exact_bytes() {
    let chunk: [u8; 16] = [
        0x78, 0x56, 0x34, 0x12, 0, 0, 0, 0, 0xef, 0xcd, 0xab, 0x89, 0x67, 0x45, 0x23, 0x01,
    ];
    assert_eq!(
        decode_soft_dirty(&chunk, ByteOrder::Little),
        Ok(CacheMonitorValue::SoftDirtyFault { tid: 0x1234_5678, address: 0x0123_4567_89ab_cdef })
    );
    assert_eq!(
        decode_soft_dirty(&chunk, ByteOrder::Big),
        Ok(CacheMonitorValue::SoftDirtyFault { tid: 0x7856_3412, address: 0xefcd_ab89_6745_2301 })
    );
}

#[test]
fn soft_dirty_record_extreme_values() {
    let chunk = soft_dirty_le(u32::MAX, u64::MAX);
    assert_eq!(
        decode_soft_dirty(&chunk, ByteOrder::Little),
        Ok(CacheMonitorValue::SoftDirtyFault { tid: u32::MAX, address: u64::MAX })
    );
    let chunk = soft_dirty_le(0, 0);
    assert_eq!(
        decode_soft_dirty(&chunk, ByteOrder::Little),
        Ok(CacheMonitorValue::SoftDirtyFault { tid: 0, address: 0 })
    );
}

#[test]
fn soft_dirty_wrong_lengths_are_refused() {
    for len in [0usize, 1, 8, 12, 15, 17, 24, 28, 32] {
        let chunk = vec![7u8; len];
        assert_eq!(
            decode_soft_dirty(&chunk, ByteOrder::Little),
            Err(MonitorError::FormatMismatch { expected: 16, actual: len })
        );
    }
}

#[test]
fn perf_sample_record_big_endian() {
    let chunk = perf_sample_be(10, 11, 3, 0xffff_8000_0000_1234);
    assert_eq!(chunk.len(), 28);
    assert_eq!(
        decode_perf_sample(&chunk, ByteOrder::Big),
        Ok(CacheMonitorValue::PerfSample { pid: 10, tid: 11, cpu: 3, address: 0xffff_8000_0000_1234 })
    );
}

#[test]
fn perf_sample_record_exact_bytes() {
    let chunk: [u8; 28] = [
        9, 9, 9, 9, // header
        1, 0, 0, 0, // pid
        2, 0, 0, 0, // tid
        3, 0, 0, 0, // cpu
        8, 8, 8, 8, // padding
        0x00, 0x20, 0, 0, 0, 0, 0, 0, // address
    ];
    assert_eq!(
        decode_perf_sample(&chunk, ByteOrder::Little),
        Ok(CacheMonitorValue::PerfSample { pid: 1, tid: 2, cpu: 3, address: 0x2000 })
    );
}

#[test]
fn perf_sample_wrong_lengths_are_refused() {
    for len in [0usize, 4, 16, 24, 27, 29, 32] {
        let chunk = vec![1u8; len];
        assert_eq!(
            decode_perf_sample(&chunk, ByteOrder::Big),
            Err(MonitorError::FormatMismatch { expected: 28, actual: len })
        );
    }
}

#[test]
fn decode_goes_by_kind() {
    let fault = soft_dirty_le(5, 6);
    let sample = perf_sample_be(1, 2, 3, 4);
    assert_eq!(
        decode(RecordKind::SoftDirty, &fault, ByteOrder::Little),
        Ok(CacheMonitorValue::SoftDirtyFault { tid: 5, address: 6 })
    );
    assert_eq!(
        decode(RecordKind::PerfSample, &sample, ByteOrder::Big),
        Ok(CacheMonitorValue::PerfSample { pid: 1, tid: 2, cpu: 3, address: 4 })
    );
    assert_eq!(
        decode(RecordKind::SoftDirty, &sample, ByteOrder::Big),
        Err(MonitorError::FormatMismatch { expected: 16, actual: 28 })
    );
    assert_eq!(
        decode(RecordKind::PerfSample, &fault, ByteOrder::Little),
        Err(MonitorError::FormatMismatch { expected: 28, actual: 16 })
    );
}

#[test]
fn host_order_is_the_order_of_native_bytes() {
    let little = u32::from_ne_bytes([1, 0, 0, 0]) == 1;
    let expected = if little { ByteOrder::Little } else { ByteOrder::Big };
    assert_eq!(ByteOrder::host(), expected);
    let mut chunk = Vec::new();
    chunk.extend_from_slice(&77u32.to_ne_bytes());
    chunk.extend_from_slice(&[0; 4]);
    chunk.extend_from_slice(&0xabcdu64.to_ne_bytes());
    assert_eq!(
        decode_soft_dirty(&chunk, ByteOrder::host()),
        Ok(CacheMonitorValue::SoftDirtyFault { tid: 77, address: 0xabcd })
    );
}

#[test]
fn events_carry_their_source_tag() {
    assert_eq!(CacheMonitorValue::SoftDirtyFault { tid: 1, address: 2 }.source_tag(), "soft_dirty_fault");
    assert_eq!(
        CacheMonitorValue::PerfSample { pid: 1, tid: 2, cpu: 3, address: 4 }.source_tag(),
        "perf_sample"
    );
}

#[test]
fn order_is_read_off_the_layout_of_one() {
    assert_eq!(ByteOrder::holding_one_as([1, 0]), ByteOrder::Little);
    assert_eq!(ByteOrder::holding_one_as([0, 1]), ByteOrder::Big);
    assert_eq!(ByteOrder::holding_one_as(1u16.to_le_bytes()), ByteOrder::Little);
    assert_eq!(ByteOrder::holding_one_as(1u16.to_be_bytes()), ByteOrder::Big);
    assert_eq!(ByteOrder::holding_one_as(1u16.to_ne_bytes()), ByteOrder::host());
    assert_eq!(ByteOrder::holding_one_as([1, 1]), ByteOrder::Little);
    assert_eq!(ByteOrder::holding_one_as([0, 0]), ByteOrder::Big);
    assert_eq!(ByteOrder::holding_one_as([2, 1]), ByteOrder::Big);
}
