//! The protocols that move one call across the host/guest boundary.
//!
//! A [`CallSession`] drives an outgoing call from the host into a guest
//! method; an [`ImportSession`] serves a call the guest makes into a host
//! service. Each is a state machine: the caller performs the [`Action`] it
//! asks for against the engine and feeds back the [`Event`] that came of it.
//! Each session keeps a ledger of the guest buffers allocated and freed in
//! the course of the call.
use vstd::prelude::*;
use crate::bitwise::{from_bitwise, high_half, into_bitwise, low_half, packed};
use crate::error::ErrorKind;

verus! {

/// The step of an outgoing call at which it failed.
#[derive(Clone, Copy, Debug, PartialEq, Eq, Structural)]
pub enum CallStep {
    Alloc,
    Write,
    Invoke,
    Read,
    Decode,
}

/// What the engine reported for the last action.
#[derive(Clone, Copy, Debug, PartialEq, Eq, Structural)]
pub enum Event {
    /// The guest allocator returned offset `ptr`.
    Allocated { ptr: u32 },
    /// The guest allocator trapped.
    AllocFailed,
    /// The bytes were written to guest memory.
    Written,
    /// The write was out of bounds.
    WriteFailed,
    /// The guest method returned the packed output buffer `out`.
    Returned { out: u64 },
    /// The guest method trapped.
    Trapped,
    /// The bytes were read from guest memory.
    ReadDone,
    /// The read was out of bounds.
    ReadFailed,
    /// The guest deallocator returned.
    Freed,
    /// The guest deallocator trapped.
    FreeFailed,
    /// The bytes decoded to a value of the expected type.
    Decoded,
    /// The bytes did not decode, or a value did not encode.
    DecodeFailed,
    /// The host service ran and its result encoded to `len` bytes.
    Served { len: usize },
}

/// What the engine is asked to do next.
#[derive(Clone, Copy, Debug, PartialEq, Eq, Structural)]
pub enum Action {
    /// Call the guest's `alloc(len)`.
    Alloc { len: u32 },
    /// Write the pending bytes, `len` of them, at guest offset `ptr`.
    Write { ptr: u32, len: u32 },
    /// Call the guest method with the packed input buffer.
    Invoke { packed: u64 },
    /// Read `len` bytes at guest offset `ptr`.
    Read { ptr: u32, len: u32 },
    /// Call the guest's `dealloc(packed)`.
    Dealloc { packed: u64 },
    /// Decode the bytes read into the expected type.
    Decode,
    /// Decode the arguments, run the host service and encode its result.
    Serve,
    /// Hand the decoded result to the caller.
    Deliver,
    /// Return the packed output buffer to the guest.
    Return { packed: u64 },
    /// Report the failure.
    Fail { kind: ErrorKind },
}

/// Where an outgoing call stands.
#[derive(Clone, Copy, Debug, PartialEq, Eq, Structural)]
pub enum CallStage {
    Allocating { len: u32 },
    Writing { ptr: u32, len: u32 },
    RollingBack { ptr: u32, len: u32 },
    Invoking { ptr: u32, len: u32 },
    Reading { out: u64 },
    Releasing { out: u64 },
    Decoding { leaked: bool },
    Delivered { leaked: bool },
    Failed { kind: ErrorKind, at: CallStep },
}

/// An outgoing call from the host into a guest method, with the count of
/// guest buffers allocated and freed so far. By the guest ABI the method
/// frees its input buffer and allocates its output buffer.
#[derive(Clone, Copy, Debug, PartialEq, Eq, Structural)]
pub struct CallSession {
    pub stage: CallStage,
    pub allocated: u32,
    pub freed: u32,
}

/// The error kind that a failure at step `at` surfaces as.
pub open spec fn kind_of_step(at: CallStep) -> ErrorKind {
    match at {
        CallStep::Alloc => ErrorKind::Allocation,
        CallStep::Write => ErrorKind::Memory,
        CallStep::Invoke => ErrorKind::GuestTrap,
        CallStep::Read => ErrorKind::Memory,
        CallStep::Decode => ErrorKind::Encoding,
    }
}

impl CallSession {
    /// The ledger matches the stage: how many buffers a call has allocated
    /// and freed on reaching each stage.
    pub open spec fn wf(self) -> bool {
        match self.stage {
            CallStage::Allocating { .. } => self.allocated == 0 && self.freed == 0,
            CallStage::Writing { .. } => self.allocated == 1 && self.freed == 0,
            CallStage::RollingBack { .. } => self.allocated == 1 && self.freed == 0,
            CallStage::Invoking { .. } => self.allocated == 1 && self.freed == 0,
            CallStage::Reading { .. } => self.allocated == 2 && self.freed == 1,
            CallStage::Releasing { .. } => self.allocated == 2 && self.freed == 1,
            CallStage::Decoding { leaked } | CallStage::Delivered { leaked } => {
                self.allocated == 2 && self.freed == (if leaked { 1u32 } else { 2u32 })
            },
            CallStage::Failed { kind, at } => {
                &&& kind == kind_of_step(at)
                &&& match at {
                    CallStep::Alloc => self.allocated == 0 && self.freed == 0,
                    CallStep::Write => self.allocated == 1 && self.freed <= 1,
                    CallStep::Invoke => self.allocated == 1 && self.freed == 0,
                    CallStep::Read => self.allocated == 2 && self.freed == 1,
                    CallStep::Decode => self.allocated == 2 && 1 <= self.freed <= 2,
                }
            },
        }
    }

    /// Buffers of this call still allocated in guest memory.
    pub open spec fn live(self) -> int {
        self.allocated - self.freed
    }

    /// The call has ended, delivered or failed.
    pub open spec fn is_done(self) -> bool {
        self.stage is Delivered || self.stage is Failed
    }

    /// A call whose encoded argument tuple is `len` bytes long.
    pub open spec fn initial(len: u32) -> CallSession {
        CallSession { stage: CallStage::Allocating { len }, allocated: 0, freed: 0 }
    }

    /// The session after event `e`. An event that does not answer the
    /// pending action leaves the session as it is.
    pub open spec fn next(self, e: Event) -> CallSession {
        let CallSession { stage, allocated: a, freed: f } = self;
        match (stage, e) {
            (CallStage::Allocating { len }, Event::Allocated { ptr }) => {
                if ptr == 0 && len > 0 {
                    CallSession {
                        stage: CallStage::Failed { kind: ErrorKind::Allocation, at: CallStep::Alloc },
                        ..self
                    }
                } else {
                    CallSession { stage: CallStage::Writing { ptr, len }, allocated: (a + 1) as u32, ..self }
                }
            },
            (CallStage::Allocating { .. }, Event::AllocFailed) => CallSession {
                stage: CallStage::Failed { kind: ErrorKind::Allocation, at: CallStep::Alloc },
                ..self
            },
            (CallStage::Writing { ptr, len }, Event::Written) => CallSession {
                stage: CallStage::Invoking { ptr, len },
                ..self
            },
            (CallStage::Writing { ptr, len }, Event::WriteFailed) => CallSession {
                stage: CallStage::RollingBack { ptr, len },
                ..self
            },
            (CallStage::RollingBack { .. }, Event::Freed) => CallSession {
                stage: CallStage::Failed { kind: ErrorKind::Memory, at: CallStep::Write },
                freed: (f + 1) as u32,
                ..self
            },
            (CallStage::RollingBack { .. }, Event::FreeFailed) => CallSession {
                stage: CallStage::Failed { kind: ErrorKind::Memory, at: CallStep::Write },
                ..self
            },
            (CallStage::Invoking { .. }, Event::Returned { out }) => CallSession {
                stage: CallStage::Reading { out },
                allocated: (a + 1) as u32,
                freed: (f + 1) as u32,
            },
            (CallStage::Invoking { .. }, Event::Trapped) => CallSession {
                stage: CallStage::Failed { kind: ErrorKind::GuestTrap, at: CallStep::Invoke },
                ..self
            },
            (CallStage::Reading { out }, Event::ReadDone) => CallSession {
                stage: CallStage::Releasing { out },
                ..self
            },
            (CallStage::Reading { .. }, Event::ReadFailed) => CallSession {
                stage: CallStage::Failed { kind: ErrorKind::Memory, at: CallStep::Read },
                ..self
            },
            (CallStage::Releasing { .. }, Event::Freed) => CallSession {
                stage: CallStage::Decoding { leaked: false },
                freed: (f + 1) as u32,
                ..self
            },
            (CallStage::Releasing { .. }, Event::FreeFailed) => CallSession {
                stage: CallStage::Decoding { leaked: true },
                ..self
            },
            (CallStage::Decoding { leaked }, Event::Decoded) => CallSession {
                stage: CallStage::Delivered { leaked },
                ..self
            },
            (CallStage::Decoding { .. }, Event::DecodeFailed) => CallSession {
                stage: CallStage::Failed { kind: ErrorKind::Encoding, at: CallStep::Decode },
                ..self
            },
            _ => self,
        }
    }

    /// What the engine must do next at each stage.
    pub open spec fn pending(self) -> Action {
        match self.stage {
            CallStage::Allocating { len } => Action::Alloc { len },
            CallStage::Writing { ptr, len } => Action::Write { ptr, len },
            CallStage::RollingBack { ptr, len } => Action::Dealloc { packed: packed(ptr, len) },
            CallStage::Invoking { ptr, len } => Action::Invoke { packed: packed(ptr, len) },
            CallStage::Reading { out } => Action::Read { ptr: low_half(out), len: high_half(out) },
            CallStage::Releasing { out } => Action::Dealloc { packed: out },
            CallStage::Decoding { .. } => Action::Decode,
            CallStage::Delivered { .. } => Action::Deliver,
            CallStage::Failed { kind, .. } => Action::Fail { kind },
        }
    }

    /// The session after a run of events.
    pub open spec fn run(self, events: Seq<Event>) -> CallSession
        decreases events.len(),
    {
        if events.len() == 0 {
            self
        } else {
            self.next(events[0]).run(events.drop_first())
        }
    }

    /// Begins a call whose encoded argument tuple is `len` bytes long. A
    /// tuple longer than a 32-bit length can describe is an encoding error.
    pub fn start(len: usize) -> (r: Result<CallSession, ErrorKind>)
        ensures
            len <= u32::MAX ==> r == Ok::<CallSession, ErrorKind>(CallSession::initial(len as u32)),
            len > u32::MAX ==> r == Err::<CallSession, ErrorKind>(ErrorKind::Encoding),
    {
        if len > u32::MAX as usize {
            Err(ErrorKind::Encoding)
        } else {
            Ok(CallSession { stage: CallStage::Allocating { len: len as u32 }, allocated: 0, freed: 0 })
        }
    }

    /// The action the engine must perform next.
    pub fn action(&self) -> (r: Action)
        ensures
            r == self.pending(),
    {
        match self.stage {
            CallStage::Allocating { len } => Action::Alloc { len },
            CallStage::Writing { ptr, len } => Action::Write { ptr, len },
            CallStage::RollingBack { ptr, len } => Action::Dealloc { packed: into_bitwise(ptr, len) },
            CallStage::Invoking { ptr, len } => Action::Invoke { packed: into_bitwise(ptr, len) },
            CallStage::Reading { out } => {
                let (ptr, len) = from_bitwise(out);
                Action::Read { ptr, len }
            },
            CallStage::Releasing { out } => Action::Dealloc { packed: out },
            CallStage::Decoding { .. } => Action::Decode,
            CallStage::Delivered { .. } => Action::Deliver,
            CallStage::Failed { kind, .. } => Action::Fail { kind },
        }
    }

    /// Whether the call has ended.
    pub fn done(&self) -> (r: bool)
        ensures
            r == self.is_done(),
    {
        match self.stage {
            CallStage::Delivered { .. } | CallStage::Failed { .. } => true,
            _ => false,
        }
    }

    /// Feeds back what the engine reported and returns the next action.
    pub fn step(&mut self, e: Event) -> (r: Action)
        requires
            old(self).wf(),
        ensures
            *final(self) == old(self).next(e),
            final(self).wf(),
            r == final(self).pending(),
    {
        let a = self.allocated;
        let f = self.freed;
        let next = match (self.stage, e) {
            (CallStage::Allocating { len }, Event::Allocated { ptr }) => {
                if ptr == 0 && len > 0 {
                    CallSession {
                        stage: CallStage::Failed { kind: ErrorKind::Allocation, at: CallStep::Alloc },
                        allocated: a,
                        freed: f,
                    }
                } else {
                    CallSession { stage: CallStage::Writing { ptr, len }, allocated: a + 1, freed: f }
                }
            },
            (CallStage::Allocating { .. }, Event::AllocFailed) => CallSession {
                stage: CallStage::Failed { kind: ErrorKind::Allocation, at: CallStep::Alloc },
                allocated: a,
                freed: f,
            },
            (CallStage::Writing { ptr, len }, Event::Written) => CallSession {
                stage: CallStage::Invoking { ptr, len },
                allocated: a,
                freed: f,
            },
            (CallStage::Writing { ptr, len }, Event::WriteFailed) => CallSession {
                stage: CallStage::RollingBack { ptr, len },
                allocated: a,
                freed: f,
            },
            (CallStage::RollingBack { .. }, Event::Freed) => CallSession {
                stage: CallStage::Failed { kind: ErrorKind::Memory, at: CallStep::Write },
                allocated: a,
                freed: f + 1,
            },
            (CallStage::RollingBack { .. }, Event::FreeFailed) => CallSession {
                stage: CallStage::Failed { kind: ErrorKind::Memory, at: CallStep::Write },
                allocated: a,
                freed: f,
            },
            (CallStage::Invoking { .. }, Event::Returned { out }) => CallSession {
                stage: CallStage::Reading { out },
                allocated: a + 1,
                freed: f + 1,
            },
            (CallStage::Invoking { .. }, Event::Trapped) => CallSession {
                stage: CallStage::Failed { kind: ErrorKind::GuestTrap, at: CallStep::Invoke },
                allocated: a,
                freed: f,
            },
            (CallStage::Reading { out }, Event::ReadDone) => CallSession {
                stage: CallStage::Releasing { out },
                allocated: a,
                freed: f,
            },
            (CallStage::Reading { .. }, Event::ReadFailed) => CallSession {
                stage: CallStage::Failed { kind: ErrorKind::Memory, at: CallStep::Read },
                allocated: a,
                freed: f,
            },
            (CallStage::Releasing { .. }, Event::Freed) => CallSession {
                stage: CallStage::Decoding { leaked: false },
                allocated: a,
                freed: f + 1,
            },
            (CallStage::Releasing { .. }, Event::FreeFailed) => CallSession {
                stage: CallStage::Decoding { leaked: true },
                allocated: a,
                freed: f,
            },
            (CallStage::Decoding { leaked }, Event::Decoded) => CallSession {
                stage: CallStage::Delivered { leaked },
                allocated: a,
                freed: f,
            },
            (CallStage::Decoding { .. }, Event::DecodeFailed) => CallSession {
                stage: CallStage::Failed { kind: ErrorKind::Encoding, at: CallStep::Decode },
                allocated: a,
                freed: f,
            },
            _ => *self,
        };
        *self = next;
        self.action()
    }
}

/// Running a session keeps its ledger in step with its stage.
pub proof fn lemma_run_wf(s: CallSession, events: Seq<Event>)
    requires
        s.wf(),
    ensures
        s.run(events).wf(),
    decreases events.len(),
{
    if events.len() > 0 {
        lemma_run_wf(s.next(events[0]), events.drop_first());
    }
}

/// A call that delivers its result, with the trailing `dealloc` done,
/// allocated exactly two guest buffers (the argument tuple and the result)
/// and freed exactly those two: no buffer of the call is left live. A call
/// whose trailing `dealloc` fails still delivers, with the result buffer
/// lost; that case is left out here.
pub proof fn lemma_completed_call_balanced(len: u32, events: Seq<Event>)
    ensures
        CallSession::initial(len).run(events).stage == (CallStage::Delivered { leaked: false })
            ==> {
            let s = CallSession::initial(len).run(events);
            s.allocated == 2 && s.freed == 2 && s.live() == 0
        },
{
    lemma_run_wf(CallSession::initial(len), events);
}

/// When every engine step succeeds (the allocator gives a non-zero offset,
/// the write, the guest method, the read, the trailing `dealloc` and the
/// decode all succeed), the call delivers its result having allocated and
/// freed exactly two buffers.
pub proof fn lemma_successful_call(len: u32, ptr: u32, out: u64)
    requires
        ptr != 0,
    ensures
        CallSession::initial(len).run(
            seq![
                Event::Allocated { ptr },
                Event::Written,
                Event::Returned { out },
                Event::ReadDone,
                Event::Freed,
                Event::Decoded,
            ],
        ) == (CallSession { stage: CallStage::Delivered { leaked: false }, allocated: 2, freed: 2 }),
{
    let evs = seq![
        Event::Allocated { ptr },
        Event::Written,
        Event::Returned { out },
        Event::ReadDone,
        Event::Freed,
        Event::Decoded,
    ];
    let s0 = CallSession::initial(len);
    let s1 = s0.next(evs[0]);
    let s2 = s1.next(evs[1]);
    let s3 = s2.next(evs[2]);
    let s4 = s3.next(evs[3]);
    let s5 = s4.next(evs[4]);
    let s6 = s5.next(evs[5]);
    assert(s1 == CallSession { stage: CallStage::Writing { ptr, len }, allocated: 1, freed: 0 });
    assert(s6 == CallSession { stage: CallStage::Delivered { leaked: false }, allocated: 2, freed: 2 });
    assert(s6.run(evs.subrange(6, 6)) == s6);
    assert(evs.subrange(5, 6).drop_first() =~= evs.subrange(6, 6));
    assert(s5.run(evs.subrange(5, 6)) == s6);
    assert(evs.subrange(4, 6).drop_first() =~= evs.subrange(5, 6));
    assert(s4.run(evs.subrange(4, 6)) == s6);
    assert(evs.subrange(3, 6).drop_first() =~= evs.subrange(4, 6));
    assert(s3.run(evs.subrange(3, 6)) == s6);
    assert(evs.subrange(2, 6).drop_first() =~= evs.subrange(3, 6));
    assert(s2.run(evs.subrange(2, 6)) == s6);
    assert(evs.subrange(1, 6).drop_first() =~= evs.subrange(2, 6));
    assert(s1.run(evs.subrange(1, 6)) == s6);
    assert(evs.drop_first() =~= evs.subrange(1, 6));
    assert(s0.run(evs) == s6);
}

/// A call that fails after its arguments were written to guest memory
/// leaves at most one buffer live, and its error names the failing step.
pub proof fn lemma_late_failure_leaks_at_most_one(len: u32, events: Seq<Event>)
    ensures
        ({
            let s = CallSession::initial(len).run(events);
            s.stage is Failed && s.stage->at != CallStep::Alloc && s.stage->at != CallStep::Write
                ==> s.live() <= 1 && s.stage->kind == kind_of_step(s.stage->at)
        }),
{
    lemma_run_wf(CallSession::initial(len), events);
}

/// Where a call from the guest into a host service stands.
#[derive(Clone, Copy, Debug, PartialEq, Eq, Structural)]
pub enum ImportStage {
    Reading { packed: u64 },
    Releasing { packed: u64 },
    Serving,
    Allocating { len: u32 },
    Writing { ptr: u32, len: u32 },
    Returning { packed: u64 },
    Trapped { kind: ErrorKind },
}

/// A call from the guest into a host service, with the count of guest
/// buffers the host allocated and freed for it. The host frees the
/// argument buffer the guest handed over and allocates the result buffer
/// it hands back.
#[derive(Clone, Copy, Debug, PartialEq, Eq, Structural)]
pub struct ImportSession {
    pub stage: ImportStage,
    pub allocated: u32,
    pub freed: u32,
}

impl ImportSession {
    /// The ledger matches the stage.
    pub open spec fn wf(self) -> bool {
        match self.stage {
            ImportStage::Reading { .. } | ImportStage::Releasing { .. } => self.allocated == 0
                && self.freed == 0,
            ImportStage::Serving | ImportStage::Allocating { .. } => self.allocated == 0
                && self.freed == 1,
            ImportStage::Writing { .. } | ImportStage::Returning { .. } => self.allocated == 1
                && self.freed == 1,
            ImportStage::Trapped { .. } => self.allocated <= 1 && self.freed <= 1,
        }
    }

    /// A guest call whose packed argument buffer is `packed`.
    pub open spec fn initial(packed: u64) -> ImportSession {
        ImportSession { stage: ImportStage::Reading { packed }, allocated: 0, freed: 0 }
    }

    /// The session after event `e`. An event that does not answer the
    /// pending action leaves the session as it is.
    pub open spec fn next(self, e: Event) -> ImportSession {
        let ImportSession { stage, allocated: a, freed: f } = self;
        let trap = |kind: ErrorKind| ImportSession { stage: ImportStage::Trapped { kind }, ..self };
        match (stage, e) {
            (ImportStage::Reading { packed }, Event::ReadDone) => ImportSession {
                stage: ImportStage::Releasing { packed },
                ..self
            },
            (ImportStage::Reading { .. }, Event::ReadFailed) => trap(ErrorKind::Memory),
            (ImportStage::Releasing { .. }, Event::Freed) => ImportSession {
                stage: ImportStage::Serving,
                freed: (f + 1) as u32,
                ..self
            },
            (ImportStage::Releasing { .. }, Event::FreeFailed) => trap(ErrorKind::GuestTrap),
            (ImportStage::Serving, Event::Served { len }) => {
                if len > u32::MAX {
                    trap(ErrorKind::Encoding)
                } else {
                    ImportSession { stage: ImportStage::Allocating { len: len as u32 }, ..self }
                }
            },
            (ImportStage::Serving, Event::DecodeFailed) => trap(ErrorKind::Encoding),
            (ImportStage::Allocating { len }, Event::Allocated { ptr }) => {
                if ptr == 0 && len > 0 {
                    trap(ErrorKind::Allocation)
                } else {
                    ImportSession {
                        stage: ImportStage::Writing { ptr, len },
                        allocated: (a + 1) as u32,
                        ..self
                    }
                }
            },
            (ImportStage::Allocating { .. }, Event::AllocFailed) => trap(ErrorKind::Allocation),
            (ImportStage::Writing { ptr, len }, Event::Written) => ImportSession {
                stage: ImportStage::Returning { packed: packed(ptr, len) },
                ..self
            },
            (ImportStage::Writing { .. }, Event::WriteFailed) => trap(ErrorKind::Memory),
            _ => self,
        }
    }

    /// What the engine must do next at each stage.
    pub open spec fn pending(self) -> Action {
        match self.stage {
            ImportStage::Reading { packed } => Action::Read {
                ptr: low_half(packed),
                len: high_half(packed),
            },
            ImportStage::Releasing { packed } => Action::Dealloc { packed },
            ImportStage::Serving => Action::Serve,
            ImportStage::Allocating { len } => Action::Alloc { len },
            ImportStage::Writing { ptr, len } => Action::Write { ptr, len },
            ImportStage::Returning { packed } => Action::Return { packed },
            ImportStage::Trapped { kind } => Action::Fail { kind },
        }
    }

    /// The session after a run of events.
    pub open spec fn run(self, events: Seq<Event>) -> ImportSession
        decreases events.len(),
    {
        if events.len() == 0 {
            self
        } else {
            self.next(events[0]).run(events.drop_first())
        }
    }

    /// Begins serving a guest call that handed over the buffer `packed`.
    pub fn start(packed: u64) -> (r: ImportSession)
        ensures
            r == ImportSession::initial(packed),
    {
        ImportSession { stage: ImportStage::Reading { packed }, allocated: 0, freed: 0 }
    }

    /// The action the engine must perform next.
    pub fn action(&self) -> (r: Action)
        ensures
            r == self.pending(),
    {
        match self.stage {
            ImportStage::Reading { packed } => {
                let (ptr, len) = from_bitwise(packed);
                Action::Read { ptr, len }
            },
            ImportStage::Releasing { packed } => Action::Dealloc { packed },
            ImportStage::Serving => Action::Serve,
            ImportStage::Allocating { len } => Action::Alloc { len },
            ImportStage::Writing { ptr, len } => Action::Write { ptr, len },
            ImportStage::Returning { packed } => Action::Return { packed },
            ImportStage::Trapped { kind } => Action::Fail { kind },
        }
    }

    /// Whether the guest call has been answered or has trapped.
    pub fn done(&self) -> (r: bool)
        ensures
            r == (self.stage is Returning || self.stage is Trapped),
    {
        match self.stage {
            ImportStage::Returning { .. } | ImportStage::Trapped { .. } => true,
            _ => false,
        }
    }

    /// Feeds back what the engine reported and returns the next action.
    pub fn step(&mut self, e: Event) -> (r: Action)
        requires
            old(self).wf(),
        ensures
            *final(self) == old(self).next(e),
            final(self).wf(),
            r == final(self).pending(),
    {
        let a = self.allocated;
        let f = self.freed;
        let trapped = |kind: ErrorKind| -> (r: ImportSession)
            ensures
                r == (ImportSession { stage: ImportStage::Trapped { kind }, allocated: a, freed: f }),
            { ImportSession { stage: ImportStage::Trapped { kind }, allocated: a, freed: f } };
        let next = match (self.stage, e) {
            (ImportStage::Reading { packed }, Event::ReadDone) => ImportSession {
                stage: ImportStage::Releasing { packed },
                allocated: a,
                freed: f,
            },
            (ImportStage::Reading { .. }, Event::ReadFailed) => trapped(ErrorKind::Memory),
            (ImportStage::Releasing { .. }, Event::Freed) => ImportSession {
                stage: ImportStage::Serving,
                allocated: a,
                freed: f + 1,
            },
            (ImportStage::Releasing { .. }, Event::FreeFailed) => trapped(ErrorKind::GuestTrap),
            (ImportStage::Serving, Event::Served { len }) => {
                if len > u32::MAX as usize {
                    trapped(ErrorKind::Encoding)
                } else {
                    ImportSession {
                        stage: ImportStage::Allocating { len: len as u32 },
                        allocated: a,
                        freed: f,
                    }
                }
            },
            (ImportStage::Serving, Event::DecodeFailed) => trapped(ErrorKind::Encoding),
            (ImportStage::Allocating { len }, Event::Allocated { ptr }) => {
                if ptr == 0 && len > 0 {
                    trapped(ErrorKind::Allocation)
                } else {
                    ImportSession { stage: ImportStage::Writing { ptr, len }, allocated: a + 1, freed: f }
                }
            },
            (ImportStage::Allocating { .. }, Event::AllocFailed) => trapped(ErrorKind::Allocation),
            (ImportStage::Writing { ptr, len }, Event::Written) => ImportSession {
                stage: ImportStage::Returning { packed: into_bitwise(ptr, len) },
                allocated: a,
                freed: f,
            },
            (ImportStage::Writing { .. }, Event::WriteFailed) => trapped(ErrorKind::Memory),
            _ => *self,
        };
        *self = next;
        self.action()
    }
}

/// Running a host-service session keeps its ledger in step with its stage.
pub proof fn lemma_import_run_wf(s: ImportSession, events: Seq<Event>)
    requires
        s.wf(),
    ensures
        s.run(events).wf(),
    decreases events.len(),
{
    if events.len() > 0 {
        lemma_import_run_wf(s.next(events[0]), events.drop_first());
    }
}

/// A host-service call that answers the guest freed exactly the argument
/// buffer it received and allocated exactly the result buffer it hands
/// back.
pub proof fn lemma_answered_import_balanced(packed: u64, events: Seq<Event>)
    ensures
        ({
            let s = ImportSession::initial(packed).run(events);
            s.stage is Returning ==> s.allocated == 1 && s.freed == 1
        }),
{
    lemma_import_run_wf(ImportSession::initial(packed), events);
}

} // verus!
