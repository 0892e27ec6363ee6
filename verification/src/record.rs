//! Decoding of the fixed-size records that the kernel side writes.
//!
//! A record is a C structure laid out by the usual alignment rules, in the
//! byte order of the machine that wrote it. Nothing is read from a chunk
//! before its length has been checked: a chunk of any other length than the
//! one expected holds no record.

use vstd::prelude::*;
use crate::error::MonitorError;
use crate::event::CacheMonitorValue;

verus! {

/// Length in bytes of a soft-dirty fault record: a 32-bit thread id, four
/// bytes of padding, a 64-bit address.
pub const SOFT_DIRTY_RECORD_LEN: usize = 16;

/// Length in bytes of a perf sample record: three 32-bit ids (process,
/// thread, CPU), four bytes of padding, a 64-bit address.
pub const PERF_SAMPLE_RECORD_LEN: usize = 24;

/// Length in bytes of the header that precedes a perf sample record in its
/// chunk.
pub const PERF_SAMPLE_HEADER_LEN: usize = 4;

/// Length in bytes of a chunk that holds a perf sample: header and record.
pub const PERF_SAMPLE_CHUNK_LEN: usize = PERF_SAMPLE_HEADER_LEN + PERF_SAMPLE_RECORD_LEN;

/// The length in bytes of a chunk that holds a record of `kind`.
pub open spec fn chunk_len(kind: RecordKind) -> nat {
    match kind {
        RecordKind::SoftDirty => SOFT_DIRTY_RECORD_LEN as nat,
        RecordKind::PerfSample => PERF_SAMPLE_CHUNK_LEN as nat,
    }
}

/// The order in which the bytes of an integer lie in a record.
#[derive(Debug, Clone, Copy, PartialEq, Eq)]
pub enum ByteOrder {
    /// Least significant byte first.
    Little,
    /// Most significant byte first.
    Big,
}

/// `u16::to_ne_bytes` of std: the two bytes of `value` as this machine holds
/// them in memory. Which of the two orders that is depends on the machine, so
/// all that is claimed is that it is one of them.
#[verifier::external_body]
fn native_bytes(value: u16) -> (bytes: [u8; 2])
    ensures
        (bytes[0] == value % 0x100 && bytes[1] == value / 0x100) || (bytes[1] == value % 0x100
            && bytes[0] == value / 0x100),
{
    value.to_ne_bytes()
}

impl ByteOrder {
    /// The order in which this machine lays out integers, and so the order of
    /// the records that its kernel writes.
    pub fn host() -> ByteOrder {
        // One has its only set bit in its lowest byte, so that the place of
        // that byte in memory tells the order.
        let one = native_bytes(1);
        Self::holding_one_as(one)
    }
}

/// The byte order of a machine that holds the 16-bit number one in memory as
/// `bytes`: least significant byte first where the first byte is the 1, most
/// significant byte first otherwise.
pub open spec fn order_holding_one_as(bytes: Seq<u8>) -> ByteOrder {
    if bytes[0] == 1 {
        ByteOrder::Little
    } else {
        ByteOrder::Big
    }
}

impl ByteOrder {
    /// The byte order of a machine that holds the 16-bit number one in
    /// memory as `bytes`.
    ///
    /// The order is [`ByteOrder::Little`] where the first byte is the 1, and
    /// [`ByteOrder::Big`] otherwise. Read in that order, the two bytes of
    /// either layout of the number one give the number one back.
    pub fn holding_one_as(bytes: [u8; 2]) -> (order: ByteOrder)
        ensures
            order == order_holding_one_as(bytes@),
            bytes[0] == 1 && bytes[1] == 0 ==> order == ByteOrder::Little,
            bytes[0] == 0 && bytes[1] == 1 ==> order == ByteOrder::Big,
    {
        if bytes[0] == 1 {
            ByteOrder::Little
        } else {
            ByteOrder::Big
        }
    }
}

/// Which of the two channels a chunk came from, and so which record it
/// should hold.
#[derive(Debug, Clone, Copy, PartialEq, Eq)]
pub enum RecordKind {
    /// A soft-dirty fault record.
    SoftDirty,
    /// A perf sample record behind its header.
    PerfSample,
}

/// The 32-bit value whose bytes, least significant first, are `b0` to `b3`.
pub open spec fn u32_of_bytes(b0: u8, b1: u8, b2: u8, b3: u8) -> int {
    b0 + b1 * 0x100 + b2 * 0x1_0000 + b3 * 0x100_0000
}

/// The 32-bit value that lies at `at` in `bytes`.
pub open spec fn u32_at(bytes: Seq<u8>, at: int, order: ByteOrder) -> int {
    match order {
        ByteOrder::Little => u32_of_bytes(bytes[at], bytes[at + 1], bytes[at + 2], bytes[at + 3]),
        ByteOrder::Big => u32_of_bytes(bytes[at + 3], bytes[at + 2], bytes[at + 1], bytes[at]),
    }
}

/// The 64-bit value that lies at `at` in `bytes`.
pub open spec fn u64_at(bytes: Seq<u8>, at: int, order: ByteOrder) -> int {
    match order {
        ByteOrder::Little => u32_at(bytes, at, order) + u32_at(bytes, at + 4, order)
            * 0x1_0000_0000,
        ByteOrder::Big => u32_at(bytes, at + 4, order) + u32_at(bytes, at, order) * 0x1_0000_0000,
    }
}

/// The event that a soft-dirty fault record of the right length holds.
pub open spec fn soft_dirty_fault_of(bytes: Seq<u8>, order: ByteOrder) -> CacheMonitorValue {
    CacheMonitorValue::SoftDirtyFault {
        tid: u32_at(bytes, 0, order) as u32,
        address: u64_at(bytes, 8, order) as u64,
    }
}

/// The event that a perf sample chunk of the right length holds.
pub open spec fn perf_sample_of(bytes: Seq<u8>, order: ByteOrder) -> CacheMonitorValue {
    CacheMonitorValue::PerfSample {
        pid: u32_at(bytes, 4, order) as u32,
        tid: u32_at(bytes, 8, order) as u32,
        cpu: u32_at(bytes, 12, order) as u32,
        address: u64_at(bytes, 20, order) as u64,
    }
}

/// What decoding a chunk as a soft-dirty fault record gives.
pub open spec fn decoded_soft_dirty(bytes: Seq<u8>, order: ByteOrder) -> Result<
    CacheMonitorValue,
    MonitorError,
> {
    if bytes.len() == SOFT_DIRTY_RECORD_LEN {
        Ok(soft_dirty_fault_of(bytes, order))
    } else {
        Err(
            MonitorError::FormatMismatch {
                expected: SOFT_DIRTY_RECORD_LEN,
                actual: bytes.len() as usize,
            },
        )
    }
}

/// What decoding a chunk as a perf sample gives.
pub open spec fn decoded_perf_sample(bytes: Seq<u8>, order: ByteOrder) -> Result<
    CacheMonitorValue,
    MonitorError,
> {
    if bytes.len() == PERF_SAMPLE_CHUNK_LEN {
        Ok(perf_sample_of(bytes, order))
    } else {
        Err(
            MonitorError::FormatMismatch {
                expected: PERF_SAMPLE_CHUNK_LEN,
                actual: bytes.len() as usize,
            },
        )
    }
}

/// What decoding a chunk as a record of `kind` gives.
pub open spec fn decoded(kind: RecordKind, bytes: Seq<u8>, order: ByteOrder) -> Result<
    CacheMonitorValue,
    MonitorError,
> {
    match kind {
        RecordKind::SoftDirty => decoded_soft_dirty(bytes, order),
        RecordKind::PerfSample => decoded_perf_sample(bytes, order),
    }
}

/// The events that `chunks` hold, in the order of the chunks. A chunk that
/// does not decode contributes nothing.
pub open spec fn harvest(kind: RecordKind, chunks: Seq<Vec<u8>>, order: ByteOrder) -> Seq<
    CacheMonitorValue,
>
    decreases chunks.len(),
{
    if chunks.len() == 0 {
        Seq::empty()
    } else {
        let earlier = harvest(kind, chunks.drop_last(), order);
        match decoded(kind, chunks.last()@, order) {
            Ok(event) => earlier.push(event),
            Err(_) => earlier,
        }
    }
}

/// Reads the 32-bit value at `at`.
fn read_u32(data: &[u8], at: usize, order: ByteOrder) -> (value: u32)
    requires
        at + 4 <= data@.len(),
    ensures
        value == u32_at(data@, at as int, order),
{
    let len = data.len();
    let b0: u32 = data[at] as u32;
    let b1: u32 = data[at + 1] as u32;
    let b2: u32 = data[at + 2] as u32;
    let b3: u32 = data[at + 3] as u32;
    match order {
        ByteOrder::Little => b0 + b1 * 0x100 + b2 * 0x1_0000 + b3 * 0x100_0000,
        ByteOrder::Big => b3 + b2 * 0x100 + b1 * 0x1_0000 + b0 * 0x100_0000,
    }
}

/// Reads the 64-bit value at `at`.
fn read_u64(data: &[u8], at: usize, order: ByteOrder) -> (value: u64)
    requires
        at + 8 <= data@.len(),
    ensures
        value == u64_at(data@, at as int, order),
{
    let len = data.len();
    let first: u64 = read_u32(data, at, order) as u64;
    let second: u64 = read_u32(data, at + 4, order) as u64;
    match order {
        ByteOrder::Little => first + second * 0x1_0000_0000,
        ByteOrder::Big => second + first * 0x1_0000_0000,
    }
}

/// Decodes a chunk of the soft-dirty channel.
///
/// A chunk of exactly [`SOFT_DIRTY_RECORD_LEN`] bytes gives the fault it
/// records. Any other chunk is refused with the two lengths.
pub fn decode_soft_dirty(data: &[u8], order: ByteOrder) -> (decoded: Result<
    CacheMonitorValue,
    MonitorError,
>)
    ensures
        decoded == decoded_soft_dirty(data@, order),
{
    if data.len() != SOFT_DIRTY_RECORD_LEN {
        return Err(
            MonitorError::FormatMismatch { expected: SOFT_DIRTY_RECORD_LEN, actual: data.len() },
        );
    }
    let tid = read_u32(data, 0, order);
    let address = read_u64(data, 8, order);
    Ok(CacheMonitorValue::SoftDirtyFault { tid, address })
}

/// Decodes a chunk of the perf sample channel.
///
/// A chunk of exactly [`PERF_SAMPLE_CHUNK_LEN`] bytes, that is a header of
/// [`PERF_SAMPLE_HEADER_LEN`] bytes and a record of
/// [`PERF_SAMPLE_RECORD_LEN`] bytes behind it, gives the sample it records.
/// Any other chunk is refused with the two lengths.
pub fn decode_perf_sample(data: &[u8], order: ByteOrder) -> (decoded: Result<
    CacheMonitorValue,
    MonitorError,
>)
    ensures
        decoded == decoded_perf_sample(data@, order),
{
    if data.len() != PERF_SAMPLE_CHUNK_LEN {
        return Err(
            MonitorError::FormatMismatch { expected: PERF_SAMPLE_CHUNK_LEN, actual: data.len() },
        );
    }
    let pid = read_u32(data, PERF_SAMPLE_HEADER_LEN, order);
    let tid = read_u32(data, PERF_SAMPLE_HEADER_LEN + 4, order);
    let cpu = read_u32(data, PERF_SAMPLE_HEADER_LEN + 8, order);
    let address = read_u64(data, PERF_SAMPLE_HEADER_LEN + 16, order);
    Ok(CacheMonitorValue::PerfSample { pid, tid, cpu, address })
}

/// Decodes a chunk as a record of `kind`.
pub fn decode(kind: RecordKind, data: &[u8], order: ByteOrder) -> (result: Result<
    CacheMonitorValue,
    MonitorError,
>)
    ensures
        result == decoded(kind, data@, order),
{
    match kind {
        RecordKind::SoftDirty => decode_soft_dirty(data, order),
        RecordKind::PerfSample => decode_perf_sample(data, order),
    }
}

/// A chunk holds an event exactly if it has the length that its kind calls
/// for: a chunk of any other length adds nothing to what is harvested.
pub proof fn lemma_wrong_length_holds_nothing(
    kind: RecordKind,
    chunks: Seq<Vec<u8>>,
    chunk: Vec<u8>,
    order: ByteOrder,
)
    ensures
        decoded(kind, chunk@, order) is Ok <==> chunk@.len() == chunk_len(kind),
        chunk@.len() != chunk_len(kind) ==> harvest(kind, chunks.push(chunk), order) == harvest(
            kind,
            chunks,
            order,
        ),
        chunk@.len() == chunk_len(kind) ==> harvest(kind, chunks.push(chunk), order) == harvest(
            kind,
            chunks,
            order,
        ).push(decoded(kind, chunk@, order)->Ok_0),
{
    assert(chunks.push(chunk).drop_last() == chunks);
}

/// Chunks taken in batch by batch hold the same events, in the same order,
/// as the same chunks taken in at once.
pub proof fn lemma_harvest_in_batches(
    kind: RecordKind,
    first: Seq<Vec<u8>>,
    second: Seq<Vec<u8>>,
    order: ByteOrder,
)
    ensures
        harvest(kind, first + second, order) == harvest(kind, first, order) + harvest(
            kind,
            second,
            order,
        ),
    decreases second.len(),
{
    if second.len() > 0 {
        lemma_harvest_in_batches(kind, first, second.drop_last(), order);
        assert((first + second).drop_last() == first + second.drop_last());
    }
}

} // verus!
