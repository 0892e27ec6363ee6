//! The two monitors and what they have in common.
//!
//! A monitor takes in the chunks that its kernel channel delivered, keeps the
//! events they hold in a queue, and hands the queue to a sink on request. It
//! does not reach for the kernel itself: polling returns what the caller is
//! to do on its behalf.

use vstd::prelude::*;
use crate::attach::{AttachAction, PerfAttach};
use crate::error::MonitorError;
use crate::event::CacheMonitorValue;
use crate::procfs::{listed_pids, pids_of_names};
use crate::queue::{EventQueue, EventSink};
use crate::record::{decode, decoded, harvest, ByteOrder, RecordKind};
use crate::ring::{is_ring_capacity, ring_capacity};
use crate::sampling::{as_signed, to_signed};

verus! {

/// What the caller is to do after a poll.
#[derive(Debug, Clone, Copy, PartialEq, Eq)]
pub enum PollAction {
    /// Nothing.
    Nothing,
    /// Clear the soft-dirty state of process `pid`.
    ResetProcess { pid: u32 },
    /// List the processes of the system and clear the soft-dirty state of
    /// each.
    ResetAllProcesses,
}

/// A source of events that is polled and drained by its owner.
pub trait CacheMonitor {
    /// The events that wait to be consumed, oldest first.
    spec fn queued(&self) -> Seq<CacheMonitorValue>;

    /// The events that this monitor reads out of `chunks`.
    spec fn harvested(&self, chunks: Seq<Vec<u8>>) -> Seq<CacheMonitorValue>;

    /// What this monitor asks for after each poll.
    spec fn follow_up(&self) -> PollAction;

    /// Takes in the chunks that the kernel channel delivered since the last
    /// poll, and says what is to be done next.
    ///
    /// The events that the chunks hold are queued behind those that wait
    /// already; where there are no chunks the queue stays as it is. Polling
    /// never fails.
    fn poll(&mut self, chunks: &Vec<Vec<u8>>) -> (action: Result<PollAction, MonitorError>)
        ensures
            action == Ok::<PollAction, MonitorError>(old(self).follow_up()),
            final(self).queued() == old(self).queued() + old(self).harvested(chunks@),
            chunks@.len() == 0 ==> final(self).queued() == old(self).queued(),
            final(self).follow_up() == old(self).follow_up(),
            forall|later: Seq<Vec<u8>>| final(self).harvested(later) == old(self).harvested(later),
    ;

    /// Hands every queued event to `sink`, oldest first, and leaves the queue
    /// empty. Consuming never fails and takes nothing in from the kernel.
    fn consume<S: EventSink + ?Sized>(&mut self, sink: &mut S) -> (done: Result<(), MonitorError>)
        requires
            old(sink).willing(),
        ensures
            final(sink).willing(),
            done == Ok::<(), MonitorError>(()),
            final(self).queued() == EventQueue::after_consume(old(self).queued()),
            final(sink).received() == EventQueue::handed_over(
                old(sink).received(),
                old(self).queued(),
            ),
            old(self).queued().len() == 0 ==> final(sink).received() == old(sink).received(),
            final(self).follow_up() == old(self).follow_up(),
            forall|later: Seq<Vec<u8>>| final(self).harvested(later) == old(self).harvested(later),
    ;
}

/// Decodes `chunks` as records of `kind` and queues the events they hold.
fn harvest_into(queue: &mut EventQueue, kind: RecordKind, chunks: &Vec<Vec<u8>>, order: ByteOrder)
    ensures
        final(queue)@ == old(queue)@ + harvest(kind, chunks@, order),
{
    let mut at: usize = 0;
    while at < chunks.len()
        invariant
            at <= chunks.len(),
            queue@ == old(queue)@ + harvest(kind, chunks@.take(at as int), order),
        decreases chunks.len() - at,
    {
        assert(chunks@.take(at + 1).drop_last() == chunks@.take(at as int));
        match decode(kind, chunks[at].as_slice(), order) {
            Ok(event) => {
                queue.push(event);
            },
            Err(_) => {},
        }
        at = at + 1;
    }
    assert(chunks@.take(at as int) == chunks@);
}

/// What a soft-dirty monitor is made of.
pub struct SoftDirtyState {
    /// The process that is watched; `None` for every process.
    pub pid: Option<u32>,
    /// The number of entries of the delivery channel.
    pub max_entries: u32,
    /// The byte order of the records.
    pub order: ByteOrder,
    /// The events that wait to be consumed, oldest first.
    pub queued: Seq<CacheMonitorValue>,
}

/// Watches for faults on pages whose soft-dirty state was cleared.
pub struct SoftDirtyCacheMonitor {
    pid: Option<u32>,
    max_entries: u32,
    order: ByteOrder,
    events: EventQueue,
}

impl View for SoftDirtyCacheMonitor {
    type V = SoftDirtyState;

    closed spec fn view(&self) -> SoftDirtyState {
        SoftDirtyState {
            pid: self.pid,
            max_entries: self.max_entries,
            order: self.order,
            queued: self.events@,
        }
    }
}

impl SoftDirtyCacheMonitor {
    /// A monitor of process `pid`, or of every process where there is none,
    /// whose channel is sized for a request of `ring_size` entries. Records
    /// are read in the byte order of this machine. Nothing is queued.
    pub fn new(pid: Option<u32>, ring_size: u64) -> (monitor: SoftDirtyCacheMonitor)
        ensures
            monitor@.pid == pid,
            is_ring_capacity(monitor@.max_entries, ring_size),
            monitor@.queued == Seq::<CacheMonitorValue>::empty(),
    {
        Self::with_byte_order(pid, ring_size, ByteOrder::host())
    }

    /// A monitor like that of [`new`](Self::new), whose records are read in
    /// `order`.
    pub fn with_byte_order(pid: Option<u32>, ring_size: u64, order: ByteOrder) -> (monitor:
        SoftDirtyCacheMonitor)
        ensures
            monitor@.pid == pid,
            is_ring_capacity(monitor@.max_entries, ring_size),
            monitor@.order == order,
            monitor@.queued == Seq::<CacheMonitorValue>::empty(),
    {
        SoftDirtyCacheMonitor {
            pid,
            max_entries: ring_capacity(ring_size),
            order,
            events: EventQueue::new(),
        }
    }

    /// The process that is watched; `None` for every process.
    pub fn pid(&self) -> (pid: Option<u32>)
        ensures
            pid == self@.pid,
    {
        self.pid
    }

    /// The number of entries that the delivery channel is created with.
    pub fn max_entries(&self) -> (entries: u32)
        ensures
            entries == self@.max_entries,
    {
        self.max_entries
    }

    /// The byte order in which records are read.
    pub fn byte_order(&self) -> (order: ByteOrder)
        ensures
            order == self@.order,
    {
        self.order
    }

    /// The number of events that wait to be consumed.
    pub fn queue_len(&self) -> (n: usize)
        ensures
            n == self@.queued.len(),
    {
        self.events.len()
    }

    /// The process id that the kernel side filters on, where one process is
    /// watched: the id as the signed number that the kernel holds.
    pub fn filter_tgid(&self) -> (tgid: Option<i32>)
        ensures
            self@.pid is None ==> tgid is None,
            self@.pid matches Some(pid) ==> tgid == Some(as_signed(pid) as i32),
    {
        match self.pid {
            Some(pid) => Some(to_signed(pid)),
            None => None,
        }
    }

    /// Takes in one chunk of the delivery channel.
    ///
    /// A chunk that has the length of a fault record is decoded and the fault
    /// queued. A chunk of any other length is dropped, and nothing else
    /// happens.
    pub fn deliver(&mut self, chunk: &[u8])
        ensures
            final(self)@.pid == old(self)@.pid,
            final(self)@.max_entries == old(self)@.max_entries,
            final(self)@.order == old(self)@.order,
            final(self)@.queued == match decoded(RecordKind::SoftDirty, chunk@, old(self)@.order) {
                Ok(event) => old(self)@.queued.push(event),
                Err(_) => old(self)@.queued,
            },
    {
        match decode(RecordKind::SoftDirty, chunk, self.order) {
            Ok(event) => {
                self.events.push(event);
            },
            Err(_) => {},
        }
    }

    /// The processes whose soft-dirty state is cleared after a poll, given
    /// the names of the entries of the process directory.
    ///
    /// A monitor of one process clears that process and pays no regard to the
    /// entries. A monitor of every process clears each process that has an
    /// entry, in the order of the entries.
    pub fn reset_targets(&self, entries: &Vec<Vec<u8>>) -> (targets: Vec<u32>)
        ensures
            self@.pid matches Some(pid) ==> targets@ == seq![pid],
            self@.pid is None ==> targets@ == pids_of_names(entries@),
    {
        match self.pid {
            Some(pid) => {
                let mut targets: Vec<u32> = Vec::new();
                targets.push(pid);
                targets
            },
            None => listed_pids(entries),
        }
    }
}

impl CacheMonitor for SoftDirtyCacheMonitor {
    open spec fn queued(&self) -> Seq<CacheMonitorValue> {
        self@.queued
    }

    open spec fn harvested(&self, chunks: Seq<Vec<u8>>) -> Seq<CacheMonitorValue> {
        harvest(RecordKind::SoftDirty, chunks, self@.order)
    }

    /// After each poll the soft-dirty state is cleared again, so that later
    /// faults show: for the watched process alone where there is one (its
    /// peers are then never listed), for every process otherwise.
    open spec fn follow_up(&self) -> PollAction {
        match self@.pid {
            Some(pid) => PollAction::ResetProcess { pid },
            None => PollAction::ResetAllProcesses,
        }
    }

    fn poll(&mut self, chunks: &Vec<Vec<u8>>) -> (action: Result<PollAction, MonitorError>)
        ensures
            final(self)@.pid == old(self)@.pid,
            final(self)@.max_entries == old(self)@.max_entries,
            final(self)@.order == old(self)@.order,
            old(self)@.pid matches Some(pid) ==> action == Ok::<PollAction, MonitorError>(
                PollAction::ResetProcess { pid },
            ),
            old(self)@.pid is None ==> action == Ok::<PollAction, MonitorError>(
                PollAction::ResetAllProcesses,
            ),
    {
        harvest_into(&mut self.events, RecordKind::SoftDirty, chunks, self.order);
        match self.pid {
            Some(pid) => Ok(PollAction::ResetProcess { pid }),
            None => Ok(PollAction::ResetAllProcesses),
        }
    }

    fn consume<S: EventSink + ?Sized>(&mut self, sink: &mut S) -> (done: Result<(), MonitorError>)
        ensures
            final(self)@.pid == old(self)@.pid,
            final(self)@.max_entries == old(self)@.max_entries,
            final(self)@.order == old(self)@.order,
    {
        self.events.consume(sink);
        Ok(())
    }
}

/// What a perf sample monitor is made of.
pub struct PerfSampleState {
    /// The process that is sampled; `None` for every process.
    pub pid: Option<u32>,
    /// The number of samples taken per second.
    pub period: u64,
    /// The byte order of the records.
    pub order: ByteOrder,
    /// The number of CPUs on which the sampling program is attached.
    pub attached: u32,
    /// The events that wait to be consumed, oldest first.
    pub queued: Seq<CacheMonitorValue>,
}

/// Collects hardware-counter samples from the CPUs of the machine.
pub struct PerfSampleMonitor {
    pid: Option<u32>,
    period: u64,
    order: ByteOrder,
    attached: u32,
    events: EventQueue,
}

impl View for PerfSampleMonitor {
    type V = PerfSampleState;

    closed spec fn view(&self) -> PerfSampleState {
        PerfSampleState {
            pid: self.pid,
            period: self.period,
            order: self.order,
            attached: self.attached,
            queued: self.events@,
        }
    }
}

impl PerfSampleMonitor {
    /// A monitor that samples `pid`, or every process where there is none,
    /// `period` times per second, on the CPUs on which `attach` got the
    /// sampling program attached. Records are read in the byte order of this
    /// machine.
    ///
    /// There is a monitor exactly if the fan-out has run to its end and the
    /// program is attached on at least one CPU; that some CPUs failed does
    /// not stand in the way. Nothing is queued in it.
    pub fn new(pid: Option<u32>, period: u64, attach: &PerfAttach) -> (monitor: Result<
        PerfSampleMonitor,
        MonitorError,
    >)
        ensures
            attach@.pending != AttachAction::Finish ==> monitor == Err::<
                PerfSampleMonitor,
                MonitorError,
            >(MonitorError::AttachUnfinished),
            attach@.pending == AttachAction::Finish && attach@.attached == 0 ==> monitor == Err::<
                PerfSampleMonitor,
                MonitorError,
            >(MonitorError::NoCpusAttached { failures: attach@.failures }),
            attach@.pending == AttachAction::Finish && attach@.attached > 0 ==> {
                &&& monitor matches Ok(made)
                &&& made@.pid == pid
                &&& made@.period == period
                &&& made@.attached == attach@.attached
                &&& made@.queued == Seq::<CacheMonitorValue>::empty()
            },
    {
        Self::with_byte_order(pid, period, ByteOrder::host(), attach)
    }

    /// A monitor like that of [`new`](Self::new), whose records are read in
    /// `order`.
    pub fn with_byte_order(
        pid: Option<u32>,
        period: u64,
        order: ByteOrder,
        attach: &PerfAttach,
    ) -> (monitor: Result<PerfSampleMonitor, MonitorError>)
        ensures
            attach@.pending != AttachAction::Finish ==> monitor == Err::<
                PerfSampleMonitor,
                MonitorError,
            >(MonitorError::AttachUnfinished),
            attach@.pending == AttachAction::Finish && attach@.attached == 0 ==> monitor == Err::<
                PerfSampleMonitor,
                MonitorError,
            >(MonitorError::NoCpusAttached { failures: attach@.failures }),
            attach@.pending == AttachAction::Finish && attach@.attached > 0 ==> monitor is Ok
                && monitor->Ok_0@ == (PerfSampleState {
                pid,
                period,
                order,
                attached: attach@.attached,
                queued: Seq::empty(),
            }),
    {
        match attach.outcome() {
            None => Err(MonitorError::AttachUnfinished),
            Some(Err(error)) => Err(error),
            Some(Ok(attached)) => Ok(
                PerfSampleMonitor { pid, period, order, attached, events: EventQueue::new() },
            ),
        }
    }

    /// The process that is sampled; `None` for every process.
    pub fn pid(&self) -> (pid: Option<u32>)
        ensures
            pid == self@.pid,
    {
        self.pid
    }

    /// The number of samples taken per second.
    pub fn period(&self) -> (period: u64)
        ensures
            period == self@.period,
    {
        self.period
    }

    /// The byte order in which records are read.
    pub fn byte_order(&self) -> (order: ByteOrder)
        ensures
            order == self@.order,
    {
        self.order
    }

    /// The number of CPUs on which the sampling program is attached.
    pub fn attached_cpus(&self) -> (n: u32)
        ensures
            n == self@.attached,
    {
        self.attached
    }

    /// The number of events that wait to be consumed.
    pub fn queue_len(&self) -> (n: usize)
        ensures
            n == self@.queued.len(),
    {
        self.events.len()
    }

    /// Takes in one chunk of the sample channel.
    ///
    /// A chunk that has the length of a sample record and its header is
    /// decoded and the sample queued. A chunk of any other length is dropped,
    /// and nothing else happens.
    pub fn deliver(&mut self, chunk: &[u8])
        ensures
            final(self)@.pid == old(self)@.pid,
            final(self)@.period == old(self)@.period,
            final(self)@.order == old(self)@.order,
            final(self)@.attached == old(self)@.attached,
            final(self)@.queued == match decoded(RecordKind::PerfSample, chunk@, old(self)@.order) {
                Ok(event) => old(self)@.queued.push(event),
                Err(_) => old(self)@.queued,
            },
    {
        match decode(RecordKind::PerfSample, chunk, self.order) {
            Ok(event) => {
                self.events.push(event);
            },
            Err(_) => {},
        }
    }
}

impl CacheMonitor for PerfSampleMonitor {
    open spec fn queued(&self) -> Seq<CacheMonitorValue> {
        self@.queued
    }

    open spec fn harvested(&self, chunks: Seq<Vec<u8>>) -> Seq<CacheMonitorValue> {
        harvest(RecordKind::PerfSample, chunks, self@.order)
    }

    /// Polling a perf sample monitor asks for nothing.
    open spec fn follow_up(&self) -> PollAction {
        PollAction::Nothing
    }

    fn poll(&mut self, chunks: &Vec<Vec<u8>>) -> (action: Result<PollAction, MonitorError>)
        ensures
            final(self)@.pid == old(self)@.pid,
            final(self)@.period == old(self)@.period,
            final(self)@.order == old(self)@.order,
            final(self)@.attached == old(self)@.attached,
    {
        harvest_into(&mut self.events, RecordKind::PerfSample, chunks, self.order);
        Ok(PollAction::Nothing)
    }

    fn consume<S: EventSink + ?Sized>(&mut self, sink: &mut S) -> (done: Result<(), MonitorError>)
        ensures
            final(self)@.pid == old(self)@.pid,
            final(self)@.period == old(self)@.period,
            final(self)@.order == old(self)@.order,
            final(self)@.attached == old(self)@.attached,
    {
        self.events.consume(sink);
        Ok(())
    }
}

} // verus!

