//! Per-CPU fan-out of the sampling program.
//!
//! Attaching goes CPU by CPU: open a sampling context, attach the program to
//! it, record the descriptor in the kernel-side lookup structure. Each of
//! these steps is carried out by the caller; this module decides, from what
//! the caller reports back, which step comes next, and keeps the tally that
//! settles whether the setup as a whole stands.

use vstd::prelude::*;
use crate::error::MonitorError;

verus! {

/// A step the caller is asked to carry out.
#[derive(Debug, Clone, Copy, PartialEq, Eq)]
pub enum AttachAction {
    /// Open a sampling context on `cpu`.
    Open { cpu: u32 },
    /// Attach the sampling program to the context `fd`, opened on `cpu`.
    Attach { cpu: u32, fd: i32 },
    /// Record `fd` in slot `cpu` of the lookup structure. Where `close_first`
    /// is set the program could not be attached: the descriptor is closed
    /// before it is recorded.
    Register { cpu: u32, fd: i32, close_first: bool },
    /// Every CPU has been tried; nothing is left to do.
    Finish,
}

/// What came of the step the caller was asked to carry out.
#[derive(Debug, Clone, Copy, PartialEq, Eq)]
pub enum AttachEvent {
    /// The open call returned `fd`; a negative value means it failed.
    Opened { fd: i32 },
    /// The program was attached (`ok`), or the attempt failed.
    Attached { ok: bool },
    /// The descriptor was recorded (`ok`), or the attempt failed.
    Registered { ok: bool },
}

/// The tally of a fan-out over `cpus` CPUs and the step that is outstanding.
#[derive(Debug, Clone, Copy, PartialEq, Eq)]
pub struct AttachState {
    /// How many CPUs there are to try, numbered from 0.
    pub cpus: u32,
    /// The step the caller has been asked to carry out.
    pub pending: AttachAction,
    /// CPUs on which the program is attached.
    pub attached: u32,
    /// CPUs on which opening or attaching failed.
    pub failures: u32,
}

impl AttachState {
    /// The step that opens `cpu`, or the end when there is no such CPU.
    pub open spec fn open_or_finish(cpus: u32, cpu: int) -> AttachAction {
        if cpu < cpus {
            AttachAction::Open { cpu: cpu as u32 }
        } else {
            AttachAction::Finish
        }
    }

    /// The state before anything has been tried.
    pub open spec fn start(cpus: u32) -> AttachState {
        AttachState {
            cpus,
            pending: Self::open_or_finish(cpus, 0),
            attached: 0,
            failures: 0,
        }
    }

    /// The tally accounts for every CPU that has been decided: the ones
    /// before the CPU now being worked on, and that one too once its
    /// descriptor is waiting to be recorded.
    pub open spec fn wf(self) -> bool {
        match self.pending {
            AttachAction::Open { cpu } => cpu < self.cpus && self.attached + self.failures == cpu,
            AttachAction::Attach { cpu, fd } => {
                &&& cpu < self.cpus
                &&& fd >= 0
                &&& self.attached + self.failures == cpu
            },
            AttachAction::Register { cpu, fd, close_first } => {
                &&& cpu < self.cpus
                &&& fd >= 0
                &&& self.attached + self.failures == cpu + 1
            },
            AttachAction::Finish => self.attached + self.failures == self.cpus,
        }
    }

    /// The state that follows when `event` is reported.
    ///
    /// An event that does not answer the outstanding step changes nothing.
    pub open spec fn after(self, event: AttachEvent) -> AttachState {
        match (self.pending, event) {
            (AttachAction::Open { cpu }, AttachEvent::Opened { fd }) => {
                if fd < 0 {
                    AttachState {
                        pending: Self::open_or_finish(self.cpus, cpu + 1),
                        failures: (self.failures + 1) as u32,
                        ..self
                    }
                } else {
                    AttachState { pending: AttachAction::Attach { cpu, fd }, ..self }
                }
            },
            (AttachAction::Attach { cpu, fd }, AttachEvent::Attached { ok }) => {
                if ok {
                    AttachState {
                        pending: AttachAction::Register { cpu, fd, close_first: false },
                        attached: (self.attached + 1) as u32,
                        ..self
                    }
                } else {
                    AttachState {
                        pending: AttachAction::Register { cpu, fd, close_first: true },
                        failures: (self.failures + 1) as u32,
                        ..self
                    }
                }
            },
            (AttachAction::Register { cpu, .. }, AttachEvent::Registered { .. }) => {
                AttachState { pending: Self::open_or_finish(self.cpus, cpu + 1), ..self }
            },
            _ => self,
        }
    }

    /// The state reached from `self` when `events` are reported one after
    /// the other.
    pub open spec fn after_all(self, events: Seq<AttachEvent>) -> AttachState
        decreases events.len(),
    {
        if events.len() == 0 {
            self
        } else {
            self.after_all(events.drop_last()).after(events.last())
        }
    }

    /// Whether the setup stands, once it is over: with the number of attached
    /// CPUs if there is one, with the number of failures if there is none.
    /// `None` while a step is outstanding.
    pub open spec fn outcome(self) -> Option<Result<u32, MonitorError>> {
        if self.pending != AttachAction::Finish {
            None
        } else if self.attached == 0 {
            Some(Err(MonitorError::NoCpusAttached { failures: self.failures }))
        } else {
            Some(Ok(self.attached))
        }
    }
}

/// The fan-out of the sampling program over the CPUs of the machine.
pub struct PerfAttach {
    state: AttachState,
}

impl View for PerfAttach {
    type V = AttachState;

    closed spec fn view(&self) -> AttachState {
        self.state
    }
}

/// `num_cpus::get`: the number of logical CPUs that this process can run on.
/// The number depends on the machine and on how the process is confined; all
/// that is claimed of it is what the crate documents of every outcome, that
/// it is never below one.
#[verifier::external_body]
fn logical_cpus() -> (count: usize)
    ensures
        count >= 1,
{
    num_cpus::get()
}

/// The number of CPUs that a fan-out covers where `count` CPUs are reported:
/// `count` itself or, where that is more than CPU numbers can tell apart, as
/// many as they can.
pub open spec fn covered_cpus(count: usize) -> u32 {
    if count > u32::MAX {
        u32::MAX
    } else {
        count as u32
    }
}

impl PerfAttach {
    #[verifier::type_invariant]
    spec fn inv(self) -> bool {
        self.state.wf()
    }

    /// A fan-out over the logical CPUs of this machine, of which none has
    /// been tried.
    ///
    /// How many CPUs there are is for the machine to say, but there is at
    /// least one: the fan-out starts by asking for CPU 0 to be opened, and
    /// its tally is empty.
    pub fn for_host() -> (attach: PerfAttach)
        ensures
            exists|count: usize|
                count >= 1 && attach@ == AttachState::start(#[trigger] covered_cpus(count)),
            attach@.cpus >= 1,
            attach@.pending == (AttachAction::Open { cpu: 0 }),
            attach@.attached == 0,
            attach@.failures == 0,
            attach@.wf(),
    {
        Self::for_cpu_count(logical_cpus())
    }

    /// A fan-out over the CPUs of a machine that reports `count` of them.
    /// Where `count` is at least one, so is the number of CPUs covered.
    pub fn for_cpu_count(count: usize) -> (attach: PerfAttach)
        ensures
            attach@ == AttachState::start(covered_cpus(count)),
            count >= 1 ==> attach@.cpus >= 1,
            attach@.wf(),
    {
        let reported: u64 = count as u64;
        let cpus: u32 = if reported > 0xffff_ffff {
            u32::MAX
        } else {
            reported as u32
        };
        Self::new(cpus)
    }

    /// A fan-out over the CPUs `0..cpus`, of which none has been tried.
    pub fn new(cpus: u32) -> (attach: PerfAttach)
        ensures
            attach@ == AttachState::start(cpus),
            attach@.wf(),
    {
        let pending = if cpus > 0 {
            AttachAction::Open { cpu: 0 }
        } else {
            AttachAction::Finish
        };
        PerfAttach { state: AttachState { cpus, pending, attached: 0, failures: 0 } }
    }

    /// The step the caller is asked to carry out now.
    pub fn pending(&self) -> (action: AttachAction)
        ensures
            action == self@.pending,
            self@.wf(),
    {
        proof {
            use_type_invariant(self);
        }
        self.state.pending
    }

    /// The number of CPUs on which the program is attached.
    pub fn attached(&self) -> (n: u32)
        ensures
            n == self@.attached,
    {
        self.state.attached
    }

    /// The number of CPUs on which opening or attaching failed.
    pub fn failures(&self) -> (n: u32)
        ensures
            n == self@.failures,
    {
        self.state.failures
    }

    /// Takes in what came of the outstanding step and returns the step that
    /// follows.
    ///
    /// A failed open counts as a failure and moves on to the next CPU. A
    /// failed attach counts as a failure too, and the descriptor is then
    /// closed before it is recorded. Whether recording worked makes no
    /// difference to what follows. An event that does not answer the
    /// outstanding step is ignored, and that step is returned again.
    pub fn advance(&mut self, event: AttachEvent) -> (action: AttachAction)
        ensures
            final(self)@ == old(self)@.after(event),
            final(self)@.wf(),
            action == final(self)@.pending,
    {
        proof {
            use_type_invariant(&*self);
        }
        let cpus = self.state.cpus;
        let attached = self.state.attached;
        let failures = self.state.failures;
        let next = match (self.state.pending, event) {
            (AttachAction::Open { cpu }, AttachEvent::Opened { fd }) => {
                if fd < 0 {
                    AttachState {
                        cpus,
                        pending: Self::open_or_finish(cpus, cpu),
                        attached,
                        failures: failures + 1,
                    }
                } else {
                    AttachState { cpus, pending: AttachAction::Attach { cpu, fd }, attached, failures }
                }
            },
            (AttachAction::Attach { cpu, fd }, AttachEvent::Attached { ok }) => {
                if ok {
                    AttachState {
                        cpus,
                        pending: AttachAction::Register { cpu, fd, close_first: false },
                        attached: attached + 1,
                        failures,
                    }
                } else {
                    AttachState {
                        cpus,
                        pending: AttachAction::Register { cpu, fd, close_first: true },
                        attached,
                        failures: failures + 1,
                    }
                }
            },
            (AttachAction::Register { cpu, .. }, AttachEvent::Registered { .. }) => {
                AttachState { cpus, pending: Self::open_or_finish(cpus, cpu), attached, failures }
            },
            (pending, _) => AttachState { cpus, pending, attached, failures },
        };
        let action = next.pending;
        self.state = next;
        action
    }

    /// The step that opens the CPU after `cpu`, or the end when `cpu` is the
    /// last one.
    fn open_or_finish(cpus: u32, cpu: u32) -> (action: AttachAction)
        requires
            cpu < cpus,
        ensures
            action == AttachState::open_or_finish(cpus, cpu + 1),
    {
        if cpu + 1 < cpus {
            AttachAction::Open { cpu: cpu + 1 }
        } else {
            AttachAction::Finish
        }
    }

    /// Whether the setup stands, once every CPU has been tried.
    ///
    /// `None` while a step is outstanding. Afterwards the setup stands if the
    /// program is attached on at least one CPU, and the result is the number
    /// of such CPUs; with none, it is the error that carries the number of
    /// failures.
    pub fn outcome(&self) -> (verdict: Option<Result<u32, MonitorError>>)
        ensures
            verdict == self@.outcome(),
    {
        match self.state.pending {
            AttachAction::Finish => {
                if self.state.attached == 0 {
                    Some(Err(MonitorError::NoCpusAttached { failures: self.state.failures }))
                } else {
                    Some(Ok(self.state.attached))
                }
            },
            _ => None,
        }
    }
}

/// Every step keeps the tally in line with the CPUs decided so far.
pub proof fn lemma_after_keeps_wf(state: AttachState, event: AttachEvent)
    requires
        state.wf(),
    ensures
        state.after(event).wf(),
        state.after(event).cpus == state.cpus,
{
}

/// Whatever is reported, in whatever order, the tally stays in line with the
/// CPUs decided so far.
pub proof fn lemma_after_all_keeps_wf(state: AttachState, events: Seq<AttachEvent>)
    requires
        state.wf(),
    ensures
        state.after_all(events).wf(),
        state.after_all(events).cpus == state.cpus,
    decreases events.len(),
{
    if events.len() > 0 {
        lemma_after_all_keeps_wf(state, events.drop_last());
        lemma_after_keeps_wf(state.after_all(events.drop_last()), events.last());
    }
}

/// A fan-out over `cpus` CPUs that has run to its end, whatever was reported
/// on the way, has decided every CPU: with `failures` of them failed, the
/// program is attached on the other `cpus - failures`. The setup stands
/// exactly if the program is attached on at least one CPU, and then with
/// that many; where every CPU failed, it fails with the error that says so.
pub proof fn lemma_outcome_counts_cpus(cpus: u32, events: Seq<AttachEvent>)
    requires
        AttachState::start(cpus).after_all(events).pending == AttachAction::Finish,
    ensures
        ({
            let end = AttachState::start(cpus).after_all(events);
            &&& end.cpus == cpus
            &&& end.failures <= cpus
            &&& end.attached == cpus - end.failures
            &&& end.outcome() is Some
            &&& end.outcome()->Some_0 is Ok <==> end.attached >= 1
            &&& end.failures < cpus ==> end.outcome() == Some(
                Ok::<u32, MonitorError>((cpus - end.failures) as u32),
            )
            &&& end.failures == cpus ==> end.outcome() == Some(
                Err::<u32, MonitorError>(MonitorError::NoCpusAttached { failures: cpus }),
            )
        }),
{
    lemma_after_all_keeps_wf(AttachState::start(cpus), events);
}

} // verus!
