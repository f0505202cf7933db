//! Per-traced-thread state.
//!
//! A task is the single point of control for one traced OS thread.  The
//! tracing primitives themselves (resume, wait, register and memory
//! transfers) are the driver's; every observed status enters the model
//! through exactly one place, `did_waitpid`, and every decision the engine
//! makes reads this state.

use vstd::prelude::*;

use crate::errors::ReplayError;
use crate::kernel_abi::PTRACE_CONT;
use crate::kernel_abi::PTRACE_SINGLESTEP;
use crate::kernel_abi::PTRACE_SYSCALL;
use crate::kernel_abi::PTRACE_SYSEMU;
use crate::kernel_abi::PTRACE_SYSEMU_SINGLESTEP;
use crate::kernel_abi::SupportedArch;
use crate::registers::Registers;
use crate::registers::X64UserRegs;
use crate::registers::compare_register_files;
use crate::trace::Ticks;
use crate::trace::TraceFrame;
use crate::wait_status::WaitStatus;

verus! {

/// Semantic clone properties a new task inherits, derived from the raw
/// flags of the clone-class syscall that created it.
#[derive(Copy, Clone, PartialEq, Eq, Structural, Debug)]
pub enum CloneFlags {
    /// The child gets a semantic copy of all parent resources (and becomes
    /// a new thread group).  This is the semantics of the fork() syscall.
    CloneShareNothing,
    /// Child will share the table of signal dispositions with its parent.
    CloneShareSighandlers,
    /// Child will join its parent's thread group.
    CloneShareThreadGroup,
    /// Child will share its parent's address space.
    CloneShareVm,
    /// Child will share its parent's file descriptor table.
    CloneShareFiles,
    /// Kernel will clear and notify tid futex on task exit.
    CloneCleartid,
    /// Set the thread area to what's specified by the `tls` arg.
    CloneSetTls,
}

/// The clone properties of one clone-class syscall, decoded from its raw
/// flag word.
#[derive(Copy, Clone, PartialEq, Eq, Structural, Debug)]
pub struct CloneFlagSet {
    pub share_sighandlers: bool,
    pub share_thread_group: bool,
    pub share_vm: bool,
    pub share_files: bool,
    pub cleartid: bool,
    pub set_tls: bool,
}

/// The properties a raw clone flag word carries.
pub open spec fn spec_clone_flag_set(flags: u64) -> CloneFlagSet {
    CloneFlagSet {
        share_sighandlers: flags & crate::kernel_abi::CLONE_SIGHAND != 0,
        share_thread_group: flags & crate::kernel_abi::CLONE_THREAD != 0,
        share_vm: flags & crate::kernel_abi::CLONE_VM != 0,
        share_files: flags & crate::kernel_abi::CLONE_FILES != 0,
        cleartid: flags & crate::kernel_abi::CLONE_CHILD_CLEARTID != 0,
        set_tls: flags & crate::kernel_abi::CLONE_SETTLS != 0,
    }
}

/// Decode a raw clone flag word into the properties the engine dispatches
/// on.  A fork passes zero flags and therefore shares nothing.
pub fn clone_flags_to_task_flags(flags: u64) -> (r: CloneFlagSet)
    ensures
        r == spec_clone_flag_set(flags),
{
    CloneFlagSet {
        share_sighandlers: flags & crate::kernel_abi::CLONE_SIGHAND != 0,
        share_thread_group: flags & crate::kernel_abi::CLONE_THREAD != 0,
        share_vm: flags & crate::kernel_abi::CLONE_VM != 0,
        share_files: flags & crate::kernel_abi::CLONE_FILES != 0,
        cleartid: flags & crate::kernel_abi::CLONE_CHILD_CLEARTID != 0,
        set_tls: flags & crate::kernel_abi::CLONE_SETTLS != 0,
    }
}

/// Ways to resume execution; a strong type so callers cannot confuse the
/// raw request values.
#[derive(Copy, Clone, PartialEq, Eq, Structural, Debug)]
pub enum ResumeRequest {
    ResumeCont,
    ResumeSinglestep,
    ResumeSyscall,
    ResumeSysemu,
    ResumeSysemuSinglestep,
}

impl ResumeRequest {
    /// The raw request value the tracing primitive takes.
    pub fn raw(&self) -> (r: u32)
        ensures
            r == match *self {
                ResumeRequest::ResumeCont => PTRACE_CONT,
                ResumeRequest::ResumeSinglestep => PTRACE_SINGLESTEP,
                ResumeRequest::ResumeSyscall => PTRACE_SYSCALL,
                ResumeRequest::ResumeSysemu => PTRACE_SYSEMU,
                ResumeRequest::ResumeSysemuSinglestep => PTRACE_SYSEMU_SINGLESTEP,
            },
    {
        match self {
            ResumeRequest::ResumeCont => PTRACE_CONT,
            ResumeRequest::ResumeSinglestep => PTRACE_SINGLESTEP,
            ResumeRequest::ResumeSyscall => PTRACE_SYSCALL,
            ResumeRequest::ResumeSysemu => PTRACE_SYSEMU,
            ResumeRequest::ResumeSysemuSinglestep => PTRACE_SYSEMU_SINGLESTEP,
        }
    }
}

/// Whether a resume suspends the caller until the OS reports a status
/// change for the task.
#[derive(Copy, Clone, PartialEq, Eq, Structural, Debug)]
pub enum WaitRequest {
    /// After resuming, wait until the tracee's status changes.
    ResumeWait,
    /// Don't wait after resuming; a later explicit wait is required.
    ResumeNonblocking,
}

/// How many ticks the tracee may retire before an interrupt is requested;
/// bounds tracee runaway and preserves determinism.
#[derive(Copy, Clone, PartialEq, Eq, Structural, Debug)]
pub enum TicksRequest {
    /// No ticks are expected; the counters need not run.
    ResumeNoTicks,
    /// Run without a tick bound.
    ResumeUnlimitedTicks,
    /// Request an interrupt after the largest allowed tick count.
    MaxTicksRequest,
}

/// Why a task object is being created.
#[derive(Copy, Clone, PartialEq, Eq, Structural, Debug)]
pub enum CloneReason {
    /// Cloning a task in the same session due to tracee fork()/vfork()/clone().
    TraceeClone,
    /// Cloning a task into a new session as the leader for a checkpoint.
    SessionCloneLeader,
    /// Cloning a task into the same session to recreate threads while
    /// restoring a checkpoint.
    SessionCloneNonleader,
}

/// Known register-comparison quirks a validation pass may paper over.
#[derive(Copy, Clone, PartialEq, Eq, Structural, Debug)]
pub enum ReplayTaskIgnore {
    IgnoreNone,
    /// Some narrow-architecture kernels have been observed to mutate the
    /// fourth argument register across syscall entry/exit; allow the
    /// validation pass to cover that up.
    IgnoreEsi,
}

impl Default for ReplayTaskIgnore {
    fn default() -> (r: ReplayTaskIgnore)
        ensures
            r == ReplayTaskIgnore::IgnoreNone,
    {
        ReplayTaskIgnore::IgnoreNone
    }
}

/// Why a trap was reported; carried by the session driver.
#[derive(Copy, Clone, PartialEq, Eq, Structural, Debug)]
pub struct TrapReason {
}

/// A stable identity for one task: the OS id may be reused, the serial
/// never is.
#[derive(Copy, Clone, PartialEq, Eq, Structural, Debug)]
pub struct TaskUid {
    pub tid: i32,
    pub serial: u32,
}

/// One traced thread under replay.
#[derive(Clone, Debug)]
pub struct ReplayTask {
    /// The real OS id of the tracee.
    pub tid: i32,
    /// The id the task had in the recording; may differ from `tid` across
    /// namespaces.
    pub rec_tid: i32,
    /// Creation serial, disambiguating OS id reuse.
    pub serial: u32,
    /// The architecture the task currently executes as.
    pub arch: SupportedArch,
    /// The cached register file, valid while the task is stopped.
    pub registers: Registers,
    /// True when `registers` has changes not yet flushed to the tracee.
    pub registers_dirty: bool,
    /// Ticks the task has seen since the last absorbed status.
    pub ticks: Ticks,
    /// Tracee address of the scratch buffer.
    pub scratch_ptr: u64,
    /// The full size of the scratch buffer.
    pub scratch_size: u64,
    /// Tracee address of the syscall-buffer header, or zero when none is
    /// mapped.
    pub syscallbuf_child: u64,
    pub syscallbuf_size: u64,
    /// The stack argument passed to the clone that created the task; for a
    /// thread this is the top of its user-allocated stack.
    pub top_of_stack: u64,
    /// Set when the thread group destabilized: the task may look runnable
    /// without being schedulable, and only a wait on any live task is safe.
    pub unstable: bool,
    /// The most recent absorbed status.
    pub wait_status: WaitStatus,
    /// True when the OS reported a stop that has not been resumed.
    pub is_stopped: bool,
    /// True once the dying-task stop has been observed for the task.
    pub seen_ptrace_exit_event: bool,
    /// Index of the owning thread group in the session; the task holds the
    /// owning link, the group only a lookup back.
    pub tg: usize,
    /// Index of the address space the task runs in.
    pub vm: usize,
}

impl ReplayTask {
    /// The register cache always carries the task's architecture.
    pub open spec fn wf(self) -> bool {
        self.registers.spec_arch() == self.arch
    }

    pub fn new(
        tid: i32,
        rec_tid: i32,
        serial: u32,
        arch: SupportedArch,
        tg: usize,
        vm: usize,
    ) -> (r: ReplayTask)
        ensures
            r.wf(),
            r.tid == tid,
            r.rec_tid == rec_tid,
            r.serial == serial,
            r.arch == arch,
            r.registers == Registers::spec_new(arch),
            !r.registers_dirty,
            r.ticks == 0,
            r.scratch_ptr == 0,
            r.scratch_size == 0,
            r.syscallbuf_child == 0,
            r.syscallbuf_size == 0,
            r.top_of_stack == 0,
            !r.unstable,
            r.wait_status.spec_raw() == 0,
            !r.is_stopped,
            !r.seen_ptrace_exit_event,
            r.tg == tg,
            r.vm == vm,
    {
        ReplayTask {
            tid,
            rec_tid,
            serial,
            arch,
            registers: Registers::new(arch),
            registers_dirty: false,
            ticks: 0,
            scratch_ptr: 0,
            scratch_size: 0,
            syscallbuf_child: 0,
            syscallbuf_size: 0,
            top_of_stack: 0,
            unstable: false,
            wait_status: WaitStatus::new(0),
            is_stopped: false,
            seen_ptrace_exit_event: false,
            tg,
            vm,
        }
    }

    pub fn tuid(&self) -> (r: TaskUid)
        ensures
            r == (TaskUid { tid: self.tid, serial: self.serial }),
    {
        TaskUid { tid: self.tid, serial: self.serial }
    }

    /// The cached register file.
    pub fn regs_ref(&self) -> (r: &Registers)
        ensures
            *r == self.registers,
    {
        &self.registers
    }

    /// Replace the cached register file.  Lazy: the cache is marked dirty
    /// and must be flushed before the task is resumed.
    pub fn set_regs(&mut self, regs: &Registers)
        requires
            regs.spec_arch() == old(self).arch,
        ensures
            *final(self) == (ReplayTask {
                registers: *regs,
                registers_dirty: true,
                ..*old(self)
            }),
            final(self).wf(),
    {
        self.registers = *regs;
        self.registers_dirty = true;
    }

    /// Hand out the dirty register file in the exact layout the OS control
    /// primitive expects, clearing the dirty flag.  Returns `None` when the
    /// cache is clean and no flush is owed.
    pub fn flush_regs(&mut self) -> (r: Option<X64UserRegs>)
        ensures
            *final(self) == (ReplayTask { registers_dirty: false, ..*old(self) }),
            r == if old(self).registers_dirty {
                Some(old(self).registers.spec_get_ptrace())
            } else {
                None::<X64UserRegs>
            },
    {
        if self.registers_dirty {
            self.registers_dirty = false;
            Some(self.registers.get_ptrace())
        } else {
            None
        }
    }

    /// Record that the task has been resumed.  Dirty registers must have
    /// been flushed first, or the tracee would run with stale state.
    pub fn will_resume(&mut self)
        requires
            !old(self).registers_dirty,
        ensures
            *final(self) == (ReplayTask { is_stopped: false, ..*old(self) }),
    {
        self.is_stopped = false;
    }

    /// Absorb one freshly observed status, together with the tick count
    /// and register file read at the stop.  This is the single point where
    /// a status enters the model; it must run exactly once per OS status
    /// transition, which the stopped flag enforces.
    pub fn did_waitpid(&mut self, status: WaitStatus, ticks_now: Ticks, regs_now: &Registers)
        requires
            !old(self).is_stopped,
            regs_now.spec_arch() == old(self).arch,
        ensures
            *final(self) == (ReplayTask {
                wait_status: status,
                ticks: ticks_now,
                registers: *regs_now,
                registers_dirty: false,
                is_stopped: true,
                seen_ptrace_exit_event: old(self).seen_ptrace_exit_event
                    || status.spec_is_ptrace_exit_event(),
                ..*old(self)
            }),
            final(self).wf(),
    {
        self.wait_status = status;
        self.ticks = ticks_now;
        self.registers = *regs_now;
        self.registers_dirty = false;
        self.is_stopped = true;
        if status.is_ptrace_exit_event() {
            self.seen_ptrace_exit_event = true;
        }
    }

    /// Total ticks the task has executed as of the last absorbed status.
    pub fn tick_count(&self) -> (r: Ticks)
        ensures
            r == self.ticks,
    {
        self.ticks
    }

    /// True when the last absorbed status says the task died or began to
    /// die while the engine expected it to stop in a syscall.
    pub fn wait_unexpected_exit(&self) -> (r: bool)
        ensures
            r == (self.wait_status.spec_is_exited() || self.wait_status.spec_is_ptrace_exit_event()
                || self.seen_ptrace_exit_event),
    {
        self.wait_status.is_exited() || self.wait_status.is_ptrace_exit_event()
            || self.seen_ptrace_exit_event
    }

    /// The recorded register file after the fourth-argument fudge: if the
    /// validation pass was told to ignore that register and it differs, the
    /// recorded value is overwritten with the live one.
    pub open spec fn spec_fudged_rec_regs(
        self,
        rec: Registers,
        ignore: ReplayTaskIgnore,
    ) -> Registers {
        if ignore == ReplayTaskIgnore::IgnoreEsi && self.registers.spec_arg4() != rec.spec_arg4() {
            rec.spec_with_arg4(self.registers.spec_arg4())
        } else {
            rec
        }
    }

    /// Assert that the live register values match the recorded ones.
    /// Nothing is validated before the initial exec, since the recorded
    /// process did not exist yet.  A mismatch is trace divergence: fatal,
    /// never retried.
    pub fn validate_regs(
        &self,
        frame: &mut TraceFrame,
        ignore: ReplayTaskIgnore,
        done_initial_exec: bool,
    ) -> (r: Result<(), ReplayError>)
        ensures
            !done_initial_exec ==> *final(frame) == *old(frame) && r == Ok::<(), ReplayError>(()),
            done_initial_exec ==> {
                &&& *final(frame) == (TraceFrame {
                    regs: self.spec_fudged_rec_regs(old(frame).regs, ignore),
                    ..*old(frame)
                })
                &&& r == if self.registers == final(frame).regs {
                    Ok::<(), ReplayError>(())
                } else {
                    Err::<(), ReplayError>(ReplayError::RegisterMismatch)
                }
            },
    {
        if !done_initial_exec {
            return Ok(());
        }
        let is_ignore_esi = match ignore {
            ReplayTaskIgnore::IgnoreEsi => true,
            ReplayTaskIgnore::IgnoreNone => false,
        };
        if is_ignore_esi {
            let live_arg4 = self.registers.arg4();
            let rec_arg4 = frame.regs.arg4();
            if live_arg4 != rec_arg4 {
                frame.regs.set_arg4(live_arg4);
            }
        }
        if compare_register_files(&self.registers, &frame.regs) {
            Ok(())
        } else {
            Err(ReplayError::RegisterMismatch)
        }
    }

    /// Set the syscall-result register (and the entry syscall number,
    /// which some recorded filters force to change) to the recorded
    /// values.
    pub fn set_return_value_from_trace(&mut self, frame: &TraceFrame)
        requires
            old(self).wf(),
        ensures
            final(self).wf(),
            *final(self) == (ReplayTask {
                registers: old(self).registers.spec_with_syscall_result(
                    frame.regs.spec_syscall_result(),
                ).spec_with_original_syscallno(frame.regs.spec_original_syscallno() as i64),
                registers_dirty: true,
                ..*old(self)
            }),
    {
        let mut r = *self.regs_ref();
        r.set_syscall_result(frame.regs.syscall_result());
        r.set_original_syscallno(frame.regs.original_syscallno());
        self.set_regs(&r);
    }
}

} // verus!
