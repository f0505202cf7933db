//! The conditions under which replay cannot continue, and the one that is
//! recovered locally.
//!
//! Trace corruption, a divergence between the recording and what the tracee
//! actually did, and an unexpected tracee death are all surfaced to the
//! driving loop, which aborts the session: the tool's guarantee is exact
//! reproduction, so there is no safe partial mode.  Only transient kernel
//! contention on a clone-class syscall is retried, and that case never
//! reaches this type.

use vstd::prelude::*;

use crate::kernel_abi::SupportedArch;
use crate::trace::FrameTime;
use crate::trace::Ticks;
use crate::trace::TraceTaskEventKind;

verus! {

#[derive(Copy, Clone, PartialEq, Eq, Structural, Debug)]
pub enum ReplayError {
    /// The trace holds no further lifecycle event of the kind the current
    /// frame requires: the trace is corrupt.
    TraceTaskEventMissing { kind: TraceTaskEventKind },
    /// The matching lifecycle event carries a different frame time than the
    /// frame being replayed.
    TraceTaskEventTimeMismatch { expected: FrameTime, found: FrameTime },
    /// The recorded lifecycle event names a different parent than the task
    /// being replayed.
    WrongCloneParent { expected: i32, found: i32 },
    /// At a resume point the tracee sits in a different syscall than the
    /// recording expects; reported with both numbers so both names can be
    /// shown.
    SyscallMismatch { arch: SupportedArch, expected: i64, observed: i64 },
    /// A frame carries one architecture tag and the task another without
    /// an exec in between: a programming-invariant violation.
    ArchMismatch { expected: SupportedArch, found: SupportedArch },
    /// The tick count at a restart-syscall frame does not match the
    /// recording.
    TickMismatch { expected: Ticks, observed: Ticks },
    /// The tracee died in the middle of an operation.
    UnexpectedExit { tid: i32 },
    /// A signal that cannot be ignored is pending where none was recorded.
    PendingSignal { tid: i32, sig: i32 },
    /// A clone-class syscall failed with an error other than transient
    /// contention, which replay cannot reproduce.
    CloneFailed { result: i64 },
    /// The live register file diverged from the recorded one.
    RegisterMismatch,
    /// A frame needs the syscall buffer, but the task has none mapped.
    MissingSyscallBuffer,
    /// A recorded scratch mapping does not have the shape scratch memory
    /// requires.
    BadScratchMapping,
    /// A recorded memory write names a task the session does not know.
    RecordForUnknownTask { rec_tid: i32 },
    /// The live state is impossible for the step being replayed: either
    /// the engine was driven out of the order its state machine allows, or
    /// the tracee reported a state no syscall boundary can produce.
    BadMachineState,
}

impl ReplayError {
    /// A short diagnostic label; the driver prints it when aborting.
    pub fn describe(&self) -> (r: &'static str)
        ensures
            (self matches ReplayError::TraceTaskEventMissing { .. }) ==> r@
                == "unable to find the recorded task event; trace is corrupt"@,
            (self matches ReplayError::TraceTaskEventTimeMismatch { .. }) ==> r@
                == "recorded task event is at the wrong frame time"@,
            (self matches ReplayError::WrongCloneParent { .. }) ==> r@
                == "recorded clone event names a different parent"@,
            (self matches ReplayError::SyscallMismatch { .. }) ==> r@
                == "tracee is in a different syscall than the recording"@,
            (self matches ReplayError::ArchMismatch { .. }) ==> r@
                == "architecture tag does not match the task"@,
            (self matches ReplayError::TickMismatch { .. }) ==> r@
                == "tick count diverged from the recording"@,
            (self matches ReplayError::UnexpectedExit { .. }) ==> r@
                == "tracee died unexpectedly"@,
            (self matches ReplayError::PendingSignal { .. }) ==> r@
                == "unexpected pending signal"@,
            (self matches ReplayError::CloneFailed { .. }) ==> r@
                == "clone-class syscall failed irrecoverably"@,
            self is RegisterMismatch ==> r@ == "registers diverged from the recording"@,
            self is MissingSyscallBuffer ==> r@ == "task has no syscall buffer mapped"@,
            self is BadScratchMapping ==> r@ == "recorded scratch mapping has the wrong shape"@,
            (self matches ReplayError::RecordForUnknownTask { .. }) ==> r@
                == "recorded write names an unknown task"@,
            self is BadMachineState ==> r@ == "replay step driven out of order"@,
    {
        match self {
            ReplayError::TraceTaskEventMissing { .. } => "unable to find the recorded task event; trace is corrupt",
            ReplayError::TraceTaskEventTimeMismatch { .. } => "recorded task event is at the wrong frame time",
            ReplayError::WrongCloneParent { .. } => "recorded clone event names a different parent",
            ReplayError::SyscallMismatch { .. } => "tracee is in a different syscall than the recording",
            ReplayError::ArchMismatch { .. } => "architecture tag does not match the task",
            ReplayError::TickMismatch { .. } => "tick count diverged from the recording",
            ReplayError::UnexpectedExit { .. } => "tracee died unexpectedly",
            ReplayError::PendingSignal { .. } => "unexpected pending signal",
            ReplayError::CloneFailed { .. } => "clone-class syscall failed irrecoverably",
            ReplayError::RegisterMismatch => "registers diverged from the recording",
            ReplayError::MissingSyscallBuffer => "task has no syscall buffer mapped",
            ReplayError::BadScratchMapping => "recorded scratch mapping has the wrong shape",
            ReplayError::RecordForUnknownTask { .. } => "recorded write names an unknown task",
            ReplayError::BadMachineState => "replay step driven out of order",
        }
    }
}

} // verus!
