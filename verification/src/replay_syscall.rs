//! The syscall replay engine: drives one task through one recorded frame.
//!
//! Every step is a decision over plain values.  The driver owns the tracing
//! primitives; it performs the action each function returns (resume the
//! tracee one way or another), absorbs the resulting stop into the task via
//! `did_waitpid`, and hands control back.  The process-creation path is a
//! small state machine, because a clone must be re-executed for real under
//! tight control: disallowed flags are masked out of the live argument
//! before the syscall is issued, transient kernel contention is retried
//! from the saved entry registers, and the recorded argument values are
//! restored afterwards so a later validation pass never observes the
//! substitution.  Masking must precede the issue and restoring must follow
//! completion, in that order.

use vstd::prelude::*;

use crate::errors::ReplayError;
use crate::kernel_abi::CLONE_VM;
use crate::kernel_abi::DISALLOWED_CLONE_FLAGS;
use crate::kernel_abi::EAGAIN;
use crate::kernel_abi::ENOSYS;
use crate::kernel_abi::MAP_ANONYMOUS;
use crate::kernel_abi::MAP_FIXED;
use crate::kernel_abi::MAP_PRIVATE;
use crate::kernel_abi::PROT_READ;
use crate::kernel_abi::PROT_WRITE;
use crate::kernel_abi::PTRACE_EVENT_CLONE;
use crate::kernel_abi::PTRACE_EVENT_FORK;
use crate::kernel_abi::PTRACE_EVENT_VFORK;
use crate::kernel_abi::SYSCALLBUF_HDR_NOTIFY_OFFSET;
use crate::kernel_abi::SupportedArch;
use crate::kernel_abi::is_clone_syscall;
use crate::kernel_abi::is_ignored_signal;
use crate::kernel_abi::is_rdcall_notify_syscall_hook_exit_syscall;
use crate::kernel_abi::is_restart_syscall_syscall;
use crate::kernel_abi::is_vfork_syscall;
use crate::kernel_abi::spec_is_clone_class_syscall;
use crate::kernel_abi::spec_is_clone_syscall;
use crate::kernel_abi::spec_is_ignored_signal;
use crate::kernel_abi::spec_is_rdcall_notify_syscall_hook_exit_syscall;
use crate::kernel_abi::spec_is_restart_syscall_syscall;
use crate::kernel_abi::spec_is_vfork_syscall;
use crate::kernel_abi::syscall_instruction_length;
use crate::kernel_abi::clone_number;
use crate::registers::Registers;
use crate::registers::u64_of_i64;
use crate::replay_task::ReplayTask;
use crate::replay_task::clone_flags_to_task_flags;
use crate::replay_task::spec_clone_flag_set;
use crate::session::spec_clone_task_child;
use crate::kernel_abi::spec_clone_number;
use crate::session::Session;
use crate::session::spec_apply_records;
use crate::session::spec_frame_records_end;
use crate::session::spec_space_views;
use crate::trace::KernelMapping;
use crate::trace::MappedData;
use crate::trace::MappedDataSource;
use crate::trace::TraceFrame;
use crate::trace::TraceTaskEventKind;

verus! {

/// What the session driver does with the current frame next.
#[derive(Copy, Clone, PartialEq, Eq, Structural, Debug)]
pub enum ReplayTraceStepType {
    /// Enter the next syscall.
    TstepEnterSyscall,
    /// Advance to the syscall exit.
    TstepExitSyscall,
    /// The frame is fully replayed; retire it.
    TstepRetire,
}

#[derive(Copy, Clone, PartialEq, Eq, Structural, Debug)]
pub struct ReplayTraceStepSyscall {
    pub arch: SupportedArch,
    pub number: i32,
}

#[derive(Copy, Clone, PartialEq, Eq, Structural, Debug)]
pub enum ReplayTraceStepData {
    NoData,
    Syscall(ReplayTraceStepSyscall),
}

/// The per-frame decision value handed to the session driver.  Ephemeral:
/// never persisted.
#[derive(Copy, Clone, PartialEq, Eq, Structural, Debug)]
pub struct ReplayTraceStep {
    pub action: ReplayTraceStepType,
    pub data: ReplayTraceStepData,
}

} // verus!

verus! {

/// Where the clone replay stands.
#[derive(Copy, Clone, PartialEq, Eq, Structural, Debug)]
pub enum ClonePhase {
    /// The syscall was issued; waiting for the stop that reports the new
    /// task, or for a transient failure to retry.
    AwaitingCloneEvent,
    /// The new task id is known; waiting for the parent's syscall exit.
    AwaitingExit,
    /// The exit was absorbed and the recorded registers restored.
    Completed,
}

/// What the driver must do next for the clone replay.
#[derive(Copy, Clone, PartialEq, Eq, Structural, Debug)]
pub enum CloneAction {
    /// Resume the task and wait for the next stop.
    Resume,
    /// Resume until the syscall exit and wait.
    ResumeSyscall,
    /// The kernel work is done; attach the new task.
    Finish,
}

/// The state of one clone-class syscall being re-executed.
#[derive(Copy, Clone, PartialEq, Eq, Structural, Debug)]
pub struct CloneMachine {
    pub phase: ClonePhase,
    /// The register file the syscall was issued with: masked flags, rewound
    /// instruction pointer.  Retries reset to exactly this.
    pub entry_regs: Registers,
    /// The recorded register file of the frame, restored after completion.
    pub recorded_regs: Registers,
    /// The syscall actually issued; a vfork is issued as a clone.
    pub sys: i32,
    pub arch: SupportedArch,
    /// The masked flag word the kernel saw (zero for a fork).
    pub flags: u64,
    /// The new task's id as the kernel reported it; meaningful once the
    /// clone event has been observed.
    pub new_tid: i32,
}

/// The clone-flag word as issued, after masking: no disallowed flag
/// survives, everything else does.
pub open spec fn spec_masked_flags(raw: u64) -> u64 {
    raw & !DISALLOWED_CLONE_FLAGS
}

/// Start replaying a clone-class syscall: mask the disallowed flags out of
/// the live argument (a vfork becomes a clone that shares the address
/// space, since a real vfork would block the tracer), rewind the
/// instruction pointer onto the syscall instruction, and hand the doctored
/// register file to the task.  Returns `None` when the recording says the
/// syscall never reached the kernel, in which case there is nothing to
/// re-execute.
pub fn prepare_clone_start(t: &mut ReplayTask, frame: &TraceFrame) -> (r:
    Result<Option<CloneMachine>, ReplayError>)
    requires
        old(t).wf(),
        spec_is_clone_class_syscall(frame.ev.number, frame.ev.arch),
    ensures
        final(t).wf(),
        frame.ev.failed_during_preparation ==> r == Ok::<Option<CloneMachine>, ReplayError>(None)
            && *final(t) == *old(t),
        !frame.ev.failed_during_preparation && frame.ev.arch != old(t).arch ==> r == Err::<
            Option<CloneMachine>,
            ReplayError,
        >(ReplayError::ArchMismatch { expected: old(t).arch, found: frame.ev.arch }) && *final(t)
            == *old(t),
        !frame.ev.failed_during_preparation && frame.ev.arch == old(t).arch
            && frame.regs.spec_arch() != old(t).arch ==> r == Err::<
            Option<CloneMachine>,
            ReplayError,
        >(ReplayError::ArchMismatch { expected: old(t).arch, found: frame.regs.spec_arch() })
            && *final(t) == *old(t),
        !frame.ev.failed_during_preparation && frame.ev.arch == old(t).arch
            && frame.regs.spec_arch() == old(t).arch && old(t).registers.spec_ip() < 2 ==> r
            == Err::<Option<CloneMachine>, ReplayError>(ReplayError::BadMachineState) && *final(t)
            == *old(t),
        !frame.ev.failed_during_preparation && frame.ev.arch == old(t).arch
            && frame.regs.spec_arch() == old(t).arch && old(t).registers.spec_ip() >= 2
            ==> match r {
            Ok(Some(m)) => {
                &&& m.phase == ClonePhase::AwaitingCloneEvent
                &&& m.arch == frame.ev.arch
                &&& m.recorded_regs == frame.regs
                // every later machine step reads the recorded file at the
                // task's own width
                &&& m.recorded_regs.spec_arch() == old(t).arch
                // a vfork is converted into a clone sharing the address
                // space; everything else keeps its own number
                &&& (spec_is_vfork_syscall(frame.ev.number, frame.ev.arch) ==> m.sys
                    == crate::kernel_abi::spec_clone_number(frame.ev.arch) && m.flags == CLONE_VM
                    && m.entry_regs.spec_clone_flags_arg() == CLONE_VM
                    && m.entry_regs.spec_arg2() == 0)
                // the disallowed flags are masked out of the live argument
                // before the syscall is issued
                &&& (spec_is_clone_syscall(frame.ev.number, frame.ev.arch) ==> m.sys
                    == frame.ev.number && m.flags == spec_masked_flags(
                    old(t).registers.spec_clone_flags_arg(),
                ) && m.entry_regs.spec_clone_flags_arg() == m.flags
                    && m.entry_regs.spec_clone_flags_arg() & DISALLOWED_CLONE_FLAGS == 0)
                &&& (!spec_is_clone_syscall(frame.ev.number, frame.ev.arch)
                    && !spec_is_vfork_syscall(frame.ev.number, frame.ev.arch) ==> m.sys
                    == frame.ev.number && m.flags == 0)
                // the issue point is rewound onto the syscall instruction
                &&& m.entry_regs.spec_syscallno() == m.sys as int
                &&& m.entry_regs.spec_ip() == old(t).registers.spec_ip() - 2
                &&& m.entry_regs.spec_arch() == old(t).arch
                // the doctored file is handed to the task, to be flushed
                // before the resume
                &&& *final(t) == (ReplayTask {
                    registers: m.entry_regs,
                    registers_dirty: true,
                    ..*old(t)
                })
            },
            _ => false,
        },
{
    if frame.ev.failed_during_preparation {
        // Creation failed during recording; nothing special to do.
        return Ok(None);
    }
    if !arch_eq(frame.ev.arch, t.arch) {
        return Err(ReplayError::ArchMismatch { expected: t.arch, found: frame.ev.arch });
    }
    if !arch_eq(frame.regs.arch(), t.arch) {
        return Err(ReplayError::ArchMismatch { expected: t.arch, found: frame.regs.arch() });
    }
    let mut r = *t.regs_ref();
    let ip = r.ip();
    if ip < 2 {
        return Err(ReplayError::BadMachineState);
    }
    let mut sys: i32 = frame.ev.number;
    let mut flags: u64 = 0;
    if is_clone_syscall(sys, frame.ev.arch) {
        // If the untraced flag were allowed the child would escape the
        // tracer; the cleared-child-tid futex is emulated by the engine
        // itself; namespace flags had their effects recorded already; and
        // a vfork-style block would deadlock the single-stepped schedule.
        let raw = r.clone_flags_arg();
        flags = raw & !DISALLOWED_CLONE_FLAGS;
        proof {
            lemma_masked_flags_fit(raw);
        }
        r.set_clone_flags_arg(flags);
    } else if is_vfork_syscall(sys, frame.ev.arch) {
        // A real vfork blocks the parent in the kernel until the child
        // execs or exits; issue a clone sharing the address space instead,
        // which is the same to the child but leaves the parent immediately
        // resumable.  The recorded schedule never runs the parent before
        // the child is done, so replay stays faithful.
        sys = clone_number(frame.ev.arch);
        flags = CLONE_VM;
        r.set_clone_flags_arg(CLONE_VM);
        r.set_arg2(0);
    }
    r.set_syscallno(sys as i64);
    let insn_len = syscall_instruction_length(frame.ev.arch);
    r.set_ip(ip - insn_len);
    t.set_regs(&r);
    let m = CloneMachine {
        phase: ClonePhase::AwaitingCloneEvent,
        entry_regs: r,
        recorded_regs: frame.regs,
        sys,
        arch: frame.ev.arch,
        flags,
        new_tid: 0,
    };
    Ok(Some(m))
}

/// A masked flag word keeps no disallowed bit, and a word that fits the
/// narrow register width still fits after masking.
pub proof fn lemma_masked_flags_fit(raw: u64)
    ensures
        spec_masked_flags(raw) & DISALLOWED_CLONE_FLAGS == 0,
        raw < 0x1_0000_0000 ==> spec_masked_flags(raw) < 0x1_0000_0000,
        CLONE_VM & DISALLOWED_CLONE_FLAGS == 0,
{
    assert((raw & !0x7ea24000u64) & 0x7ea24000u64 == 0) by (bit_vector);
    assert(raw < 0x1_0000_0000 ==> (raw & !0x7ea24000u64) < 0x1_0000_0000) by (bit_vector);
    assert(0x100u64 & 0x7ea24000u64 == 0) by (bit_vector);
}

fn arch_eq(a: SupportedArch, b: SupportedArch) -> (r: bool)
    ensures
        r == (a == b),
{
    match (a, b) {
        (SupportedArch::X86, SupportedArch::X86) => true,
        (SupportedArch::X64, SupportedArch::X64) => true,
        _ => false,
    }
}

/// Handle one absorbed stop while waiting for the kernel to report the new
/// task.  An ignored signal is simply resumed past.  Transient kernel
/// contention (the clone-class call failed with the try-again error) is
/// recovered locally: the task is reset to the saved entry registers and
/// the same syscall reissued; the machine does not advance and the trace
/// is not touched.  Any other divergence is fatal.
pub fn clone_handle_stop(
    m: &mut CloneMachine,
    t: &mut ReplayTask,
    new_tid_msg: Option<i32>,
) -> (r: Result<CloneAction, ReplayError>)
    requires
        old(m).phase == ClonePhase::AwaitingCloneEvent,
        old(t).wf(),
        old(t).is_stopped,
        old(m).entry_regs.spec_arch() == old(t).arch,
    ensures
        final(t).wf(),
        ({
            let status = old(t).wait_status;
            let dead = status.spec_is_exited() || status.spec_is_ptrace_exit_event() || old(
                t,
            ).seen_ptrace_exit_event;
            let clone_event = status.spec_has_ptrace_event() && (status.spec_ptrace_event_code()
                == PTRACE_EVENT_CLONE || status.spec_ptrace_event_code() == PTRACE_EVENT_FORK
                || status.spec_ptrace_event_code() == PTRACE_EVENT_VFORK);
            if dead {
                &&& r == Err::<CloneAction, ReplayError>(
                    ReplayError::UnexpectedExit { tid: old(t).tid },
                )
                &&& *final(t) == *old(t)
                &&& *final(m) == *old(m)
            } else if clone_event {
                match new_tid_msg {
                    Some(n) => if n > 0 {
                        &&& r == Ok::<CloneAction, ReplayError>(CloneAction::ResumeSyscall)
                        &&& *final(m) == (CloneMachine {
                            phase: ClonePhase::AwaitingExit,
                            new_tid: n,
                            ..*old(m)
                        })
                        &&& *final(t) == *old(t)
                    } else {
                        r == Err::<CloneAction, ReplayError>(ReplayError::BadMachineState)
                            && *final(t) == *old(t) && *final(m) == *old(m)
                    },
                    None => r == Err::<CloneAction, ReplayError>(ReplayError::BadMachineState)
                        && *final(t) == *old(t) && *final(m) == *old(m),
                }
            } else if status.spec_is_stopped() && !status.spec_is_syscall_stop() {
                if spec_is_ignored_signal(status.spec_stop_sig() as i32) {
                    &&& r == Ok::<CloneAction, ReplayError>(CloneAction::Resume)
                    &&& *final(t) == *old(t)
                    &&& *final(m) == *old(m)
                } else {
                    &&& r == Err::<CloneAction, ReplayError>(
                        ReplayError::PendingSignal {
                            tid: old(t).tid,
                            sig: status.spec_stop_sig() as i32,
                        },
                    )
                    &&& *final(t) == *old(t)
                    &&& *final(m) == *old(m)
                }
            } else if old(t).registers.spec_original_syscallno() != old(m).sys as int {
                &&& r == Err::<CloneAction, ReplayError>(
                    ReplayError::SyscallMismatch {
                        arch: old(m).arch,
                        expected: old(m).sys as i64,
                        observed: old(t).registers.spec_original_syscallno() as i64,
                    },
                )
                &&& *final(t) == *old(t)
                &&& *final(m) == *old(m)
            } else if crate::registers::spec_i64_of_u64(old(t).registers.spec_syscall_result())
                == -EAGAIN {
                // transient kernel contention: reset to the saved entry
                // registers and reissue the same syscall
                &&& r == Ok::<CloneAction, ReplayError>(CloneAction::Resume)
                &&& *final(t) == (ReplayTask {
                    registers: old(m).entry_regs,
                    registers_dirty: true,
                    ..*old(t)
                })
                &&& *final(m) == *old(m)
            } else {
                &&& r == Err::<CloneAction, ReplayError>(
                    ReplayError::CloneFailed {
                        result: crate::registers::spec_i64_of_u64(
                            old(t).registers.spec_syscall_result(),
                        ) as i64,
                    },
                )
                &&& *final(t) == *old(t)
                &&& *final(m) == *old(m)
            }
        }),
{
    if t.wait_unexpected_exit() {
        return Err(ReplayError::UnexpectedExit { tid: t.tid });
    }
    let ev = t.wait_status.maybe_ptrace_event();
    let is_clone_event = match ev {
        Some(code) => code == PTRACE_EVENT_CLONE || code == PTRACE_EVENT_FORK || code
            == PTRACE_EVENT_VFORK,
        None => false,
    };
    if is_clone_event {
        match new_tid_msg {
            Some(n) => {
                if n > 0 {
                    m.phase = ClonePhase::AwaitingExit;
                    m.new_tid = n;
                    return Ok(CloneAction::ResumeSyscall);
                }
                return Err(ReplayError::BadMachineState);
            },
            None => {
                return Err(ReplayError::BadMachineState);
            },
        }
    }
    if t.wait_status.is_stopped() && !t.wait_status.is_syscall_stop() {
        let sig = match t.wait_status.maybe_stop_sig() {
            Some(s) => s,
            None => 0,
        };
        if is_ignored_signal(sig) {
            return Ok(CloneAction::Resume);
        }
        return Err(ReplayError::PendingSignal { tid: t.tid, sig });
    }
    let cur = t.regs_ref().original_syscallno();
    if cur != m.sys as i64 {
        return Err(
            ReplayError::SyscallMismatch { arch: m.arch, expected: m.sys as i64, observed: cur },
        );
    }
    let res = t.regs_ref().syscall_result_signed();
    if res == -EAGAIN {
        let entry = m.entry_regs;
        t.set_regs(&entry);
        return Ok(CloneAction::Resume);
    }
    Err(ReplayError::CloneFailed { result: res })
}

/// Handle the stop at the parent's syscall exit: check that the tracee is
/// still synchronized with the recording, then restore the recorded
/// argument registers — hiding the masked flags and any vfork-to-clone
/// substitution from every later observer — and pretend the syscall is
/// still in progress so the exit replays like any other.
pub fn clone_handle_exit_stop(m: &mut CloneMachine, t: &mut ReplayTask) -> (r:
    Result<CloneAction, ReplayError>)
    requires
        old(m).phase == ClonePhase::AwaitingExit,
        old(t).wf(),
        old(t).is_stopped,
        old(m).recorded_regs.spec_arch() == old(t).arch,
    ensures
        final(t).wf(),
        ({
            let status = old(t).wait_status;
            let dead = status.spec_is_exited() || status.spec_is_ptrace_exit_event() || old(
                t,
            ).seen_ptrace_exit_event;
            if dead {
                r == Err::<CloneAction, ReplayError>(
                    ReplayError::UnexpectedExit { tid: old(t).tid },
                ) && *final(t) == *old(t) && *final(m) == *old(m)
            } else if old(t).registers.spec_original_syscallno() != old(m).sys as int {
                r == Err::<CloneAction, ReplayError>(
                    ReplayError::SyscallMismatch {
                        arch: old(m).arch,
                        expected: old(m).sys as i64,
                        observed: old(t).registers.spec_original_syscallno() as i64,
                    },
                ) && *final(t) == *old(t) && *final(m) == *old(m)
            } else {
                &&& r == Ok::<CloneAction, ReplayError>(CloneAction::Finish)
                &&& *final(m) == (CloneMachine { phase: ClonePhase::Completed, ..*old(m) })
                // the recorded values are restored into the visible
                // registers: a later validation pass sees the recording,
                // never the substitution
                &&& final(t).registers.spec_arg1() == old(m).recorded_regs.spec_arg1()
                &&& final(t).registers.spec_arg2() == old(m).recorded_regs.spec_arg2()
                &&& final(t).registers.spec_original_syscallno() == old(
                    m,
                ).recorded_regs.spec_original_syscallno()
                // still "inside" the syscall, result pending
                &&& crate::registers::spec_i64_of_u64(final(t).registers.spec_syscall_result())
                    == -ENOSYS
                &&& final(t).registers_dirty
                &&& final(t).registers.spec_arch() == old(t).arch
                &&& final(t).tid == old(t).tid && final(t).rec_tid == old(t).rec_tid
                &&& final(t).tg == old(t).tg && final(t).vm == old(t).vm
                &&& final(t).arch == old(t).arch
                &&& final(t).ticks == old(t).ticks
            }
        }),
{
    if t.wait_unexpected_exit() {
        return Err(ReplayError::UnexpectedExit { tid: t.tid });
    }
    let cur = t.regs_ref().original_syscallno();
    if cur != m.sys as i64 {
        return Err(
            ReplayError::SyscallMismatch { arch: m.arch, expected: m.sys as i64, observed: cur },
        );
    }
    let mut r = *t.regs_ref();
    let rec = m.recorded_regs;
    r.set_arg1(rec.arg1());
    r.set_arg2(rec.arg2());
    r.set_syscall_result(u64_of_i64(-ENOSYS));
    r.set_original_syscallno(rec.original_syscallno());
    t.set_regs(&r);
    m.phase = ClonePhase::Completed;
    proof {
        crate::registers::lemma_reg_roundtrips();
    }
    Ok(CloneAction::Finish)
}

/// The raw arguments of a clone syscall that task attachment needs.  The
/// argument order differs between the two layouts: the narrow one passes
/// the thread-area pointer before the child-tid pointer, the wide one
/// after.
#[derive(Copy, Clone, PartialEq, Eq, Structural, Debug)]
pub struct CloneParameters {
    pub stack: u64,
    pub ptid: u64,
    pub tls: u64,
    pub ctid: u64,
}

pub open spec fn spec_extract_clone_parameters(regs: Registers) -> CloneParameters {
    match regs.spec_arch() {
        SupportedArch::X86 => CloneParameters {
            stack: regs.spec_arg2(),
            ptid: regs.spec_arg3(),
            tls: regs.spec_arg4(),
            ctid: regs.spec_arg5(),
        },
        SupportedArch::X64 => CloneParameters {
            stack: regs.spec_arg2(),
            ptid: regs.spec_arg3(),
            ctid: regs.spec_arg4(),
            tls: regs.spec_arg5(),
        },
    }
}

pub fn extract_clone_parameters(regs: &Registers) -> (r: CloneParameters)
    ensures
        r == spec_extract_clone_parameters(*regs),
{
    match regs.arch() {
        SupportedArch::X86 => CloneParameters {
            stack: regs.arg2(),
            ptid: regs.arg3(),
            tls: regs.arg4(),
            ctid: regs.arg5(),
        },
        SupportedArch::X64 => CloneParameters {
            stack: regs.arg2(),
            ptid: regs.arg3(),
            ctid: regs.arg4(),
            tls: regs.arg5(),
        },
    }
}

/// Whether a mapping must be recreated in a child that does not share the
/// parent's address space: only mappings the tracer holds a local view of,
/// and never the per-thread bookkeeping or the syscall buffer.
pub open spec fn spec_needs_recreation() -> spec_fn(crate::address_space::Mapping) -> bool {
    |mp: crate::address_space::Mapping|
        mp.has_local_addr && !mp.is_thread_locals && !mp.is_syscallbuf
}

/// The tracee-shared mappings of a space that a non-sharing child must
/// have recreated, via an injected remote syscall sequence the driver
/// performs.
pub fn shared_mappings_to_recreate(space: &crate::address_space::AddressSpace) -> (r: Vec<
    crate::address_space::Mapping,
>)
    ensures
        r@ == space.maps@.filter(spec_needs_recreation()),
{
    let mut out: Vec<crate::address_space::Mapping> = Vec::new();
    let mut i: usize = 0;
    while i < space.maps.len()
        invariant
            i <= space.maps@.len(),
            out@ == space.maps@.take(i as int).filter(spec_needs_recreation()),
        decreases space.maps@.len() - i,
    {
        let mp = space.maps[i];
        proof {
            assert(space.maps@.take(i as int + 1) =~= space.maps@.take(i as int).push(
                space.maps@[i as int],
            ));
            space.maps@.take(i as int).lemma_filter_push(
                space.maps@[i as int],
                spec_needs_recreation(),
            );
        }
        if mp.has_local_addr && !mp.is_thread_locals && !mp.is_syscallbuf {
            out.push(mp);
        }
        i = i + 1;
    }
    proof {
        assert(space.maps@.take(space.maps@.len() as int) =~= space.maps@);
    }
    out
}

/// Install the recorded scratch mapping in the task: remember its
/// placement, record it in the task's address space, and hand the driver
/// the exact mapping request to install at a fixed address.  Scratch must
/// be zero-sourced, readable and writable (the buffering shim uses it to
/// buffer cloned data during replay), and private and anonymous; a
/// recorded mapping of any other shape is corrupt.
pub fn init_scratch_memory(
    session: &mut Session,
    t: usize,
    km: &KernelMapping,
    data: &MappedData,
) -> (r: Result<KernelMapping, ReplayError>)
    requires
        old(session).wf(),
        t < old(session).tasks@.len(),
    ensures
        final(session).wf(),
        ({
            let shape_ok = data.source == MappedDataSource::SourceZero && km.prot & PROT_READ != 0
                && km.prot & PROT_WRITE != 0 && km.flags & MAP_PRIVATE != 0 && km.flags
                & MAP_ANONYMOUS != 0;
            if !shape_ok {
                r == Err::<KernelMapping, ReplayError>(ReplayError::BadScratchMapping)
                    && *final(session) == *old(session)
            } else {
                let vm = old(session).tasks@[t as int].vm as int;
                &&& r == Ok::<KernelMapping, ReplayError>(
                    KernelMapping { flags: km.flags | MAP_FIXED, ..*km },
                )
                &&& final(session).tasks@ == old(session).tasks@.update(
                    t as int,
                    ReplayTask {
                        scratch_ptr: km.start,
                        scratch_size: km.size,
                        ..old(session).tasks@[t as int]
                    },
                )
                &&& final(session).spaces@.len() == old(session).spaces@.len()
                &&& final(session).spaces@[vm].maps@ == old(session).spaces@[vm].maps@.push(
                    crate::address_space::Mapping {
                        km: *km,
                        is_thread_locals: false,
                        is_syscallbuf: false,
                        has_local_addr: false,
                    },
                )
                &&& forall|k: int|
                    0 <= k < old(session).spaces@.len() && k != vm ==> final(session).spaces@[k]
                        == old(session).spaces@[k]
                &&& final(session).spaces@[vm].writes == old(session).spaces@[vm].writes
                &&& final(session).spaces@[vm].breakpoints == old(session).spaces@[vm].breakpoints
                &&& final(session).spaces@[vm].watchpoints == old(session).spaces@[vm].watchpoints
                &&& final(session).groups == old(session).groups
                &&& final(session).trace == old(session).trace
                &&& final(session).next_serial == old(session).next_serial
                &&& final(session).done_initial_exec == old(session).done_initial_exec
            }
        }),
{
    let source_ok = match data.source {
        MappedDataSource::SourceZero => true,
        _ => false,
    };
    if !source_ok || km.prot & PROT_READ == 0 || km.prot & PROT_WRITE == 0 || km.flags
        & MAP_PRIVATE == 0 || km.flags & MAP_ANONYMOUS == 0 {
        return Err(ReplayError::BadScratchMapping);
    }
    proof {
        assert(old(session).tasks@[t as int].vm < old(session).spaces@.len());
    }
    session.tasks[t].scratch_ptr = km.start;
    session.tasks[t].scratch_size = km.size;
    let vm = session.tasks[t].vm;
    let space = &mut session.spaces[vm];
    space.add_mapping(
        crate::address_space::Mapping {
            km: *km,
            is_thread_locals: false,
            is_syscallbuf: false,
            has_local_addr: false,
        },
    );
    proof {
        assert(session.tasks@ =~= old(session).tasks@.update(
            t as int,
            ReplayTask {
                scratch_ptr: km.start,
                scratch_size: km.size,
                ..old(session).tasks@[t as int]
            },
        ));
        assert forall|i: int|
            0 <= i < session.tasks@.len() implies (#[trigger] session.tasks@[i]).wf()
            && session.tasks@[i].tg < session.groups@.len() && session.tasks@[i].vm
            < session.spaces@.len() by {
            assert(old(session).tasks@[i].wf());
        }
        assert forall|g: int|
            0 <= g < session.groups@.len() implies (#[trigger] session.groups@[
            g]).members_in_bounds(session.tasks@) by {
            assert(old(session).groups@[g].members_in_bounds(old(session).tasks@));
        }
    }
    Ok(KernelMapping { start: km.start, size: km.size, prot: km.prot, flags: km.flags | MAP_FIXED })
}

/// The task table after the task at `t` has taken the frame's recorded
/// register file (still unflushed).
pub open spec fn spec_tasks_with_regs(
    tasks: Seq<ReplayTask>,
    t: int,
    regs: Registers,
) -> Seq<ReplayTask> {
    tasks.update(t, ReplayTask { registers: regs, registers_dirty: true, ..tasks[t] })
}

/// Proceed to the next recorded syscall.  If the frame is the kernel's
/// restart-syscall pseudo-call, the syscall already happened identically
/// during recording: verify the tick count against the recording, restore
/// the recorded registers and memory writes, and retire the step without
/// emitting a syscall entry.  Otherwise emit an entry step; if the syscall
/// is the buffering shim's hook-exit notification, flag the tracee's
/// syscall-buffer header first so the shim knows the exit was observed.
pub fn rep_prepare_run_to_syscall(session: &mut Session, t: usize) -> (r: Result<
    ReplayTraceStep,
    ReplayError,
>)
    requires
        old(session).wf(),
        t < old(session).tasks@.len(),
        old(session).trace.frame_pos < old(session).trace.frames.len(),
    ensures
        final(session).wf(),
        ({
            let frame = old(session).trace.spec_current_frame();
            let task = old(session).tasks@[t as int];
            let restart = spec_is_restart_syscall_syscall(frame.ev.number, frame.ev.arch);
            let notify = spec_is_rdcall_notify_syscall_hook_exit_syscall(
                frame.ev.number,
                frame.ev.arch,
            );
            let entry_step = ReplayTraceStep {
                action: ReplayTraceStepType::TstepEnterSyscall,
                data: ReplayTraceStepData::Syscall(
                    ReplayTraceStepSyscall { arch: frame.ev.arch, number: frame.ev.number },
                ),
            };
            if restart {
                if task.ticks != frame.ticks {
                    r == Err::<ReplayTraceStep, ReplayError>(
                        ReplayError::TickMismatch { expected: frame.ticks, observed: task.ticks },
                    ) && *final(session) == *old(session)
                } else if frame.regs.spec_arch() != task.arch {
                    r == Err::<ReplayTraceStep, ReplayError>(
                        ReplayError::ArchMismatch {
                            expected: task.arch,
                            found: frame.regs.spec_arch(),
                        },
                    ) && *final(session) == *old(session)
                } else {
                    let upd = spec_tasks_with_regs(old(session).tasks@, t as int, frame.regs);
                    let recs = old(session).trace.raw_recs@;
                    let pos = old(session).trace.raw_pos as int;
                    let end = spec_frame_records_end(recs, pos, frame.time);
                    match spec_apply_records(
                        spec_space_views(old(session).spaces@),
                        upd,
                        recs,
                        pos,
                        end,
                    ) {
                        Some(v) => {
                            &&& r == Ok::<ReplayTraceStep, ReplayError>(
                                ReplayTraceStep {
                                    action: ReplayTraceStepType::TstepRetire,
                                    data: ReplayTraceStepData::NoData,
                                },
                            )
                            &&& final(session).tasks@ == upd
                            &&& spec_space_views(final(session).spaces@) == v
                            &&& final(session).trace.raw_pos == end
                            &&& final(session).trace.frame_pos == old(session).trace.frame_pos
                            &&& final(session).groups == old(session).groups
                        },
                        None => r is Err && (r matches Err(
                            ReplayError::RecordForUnknownTask { .. },
                        )),
                    }
                }
            } else if notify {
                if task.syscallbuf_child == 0 || task.syscallbuf_child > 0xffff_ffff_ffff_fff0 {
                    r == Err::<ReplayTraceStep, ReplayError>(ReplayError::MissingSyscallBuffer)
                        && *final(session) == *old(session)
                } else {
                    &&& r == Ok::<ReplayTraceStep, ReplayError>(entry_step)
                    &&& final(session).tasks == old(session).tasks
                    &&& final(session).groups == old(session).groups
                    &&& final(session).trace == old(session).trace
                    &&& spec_space_views(final(session).spaces@) == spec_space_views(
                        old(session).spaces@,
                    ).update(
                        task.vm as int,
                        spec_space_views(old(session).spaces@)[task.vm as int].push(
                            ((task.syscallbuf_child + SYSCALLBUF_HDR_NOTIFY_OFFSET) as u64, seq![1u8]),
                        ),
                    )
                }
            } else {
                r == Ok::<ReplayTraceStep, ReplayError>(entry_step) && *final(session) == *old(
                    session,
                )
            }
        }),
{
    let frame = session.trace.current_frame();
    let sys_num = frame.ev.number;
    let sys_arch = frame.ev.arch;

    if is_restart_syscall_syscall(sys_num, sys_arch) {
        if session.tasks[t].tick_count() != frame.ticks {
            return Err(
                ReplayError::TickMismatch {
                    expected: frame.ticks,
                    observed: session.tasks[t].ticks,
                },
            );
        }
        if !arch_eq(frame.regs.arch(), session.tasks[t].arch) {
            return Err(
                ReplayError::ArchMismatch {
                    expected: session.tasks[t].arch,
                    found: frame.regs.arch(),
                },
            );
        }
        let task = &mut session.tasks[t];
        task.set_regs(&frame.regs);
        proof {
            assert(session.tasks@ =~= spec_tasks_with_regs(
                old(session).tasks@,
                t as int,
                frame.regs,
            ));
            assert forall|i: int|
                0 <= i < session.tasks@.len() implies (#[trigger] session.tasks@[i]).wf()
                && session.tasks@[i].tg < session.groups@.len() && session.tasks@[i].vm
                < session.spaces@.len() by {
                assert(old(session).tasks@[i].wf());
            }
            assert forall|g: int|
                0 <= g < session.groups@.len() implies (#[trigger] session.groups@[
                g]).members_in_bounds(session.tasks@) by {
                assert(old(session).groups@[g].members_in_bounds(old(session).tasks@));
            }
        }
        session.apply_all_data_records_from_trace()?;
        return Ok(
            ReplayTraceStep {
                action: ReplayTraceStepType::TstepRetire,
                data: ReplayTraceStepData::NoData,
            },
        );
    }

    let step = ReplayTraceStep {
        action: ReplayTraceStepType::TstepEnterSyscall,
        data: ReplayTraceStepData::Syscall(
            ReplayTraceStepSyscall { arch: sys_arch, number: sys_num },
        ),
    };

    if is_rdcall_notify_syscall_hook_exit_syscall(sys_num, sys_arch) {
        let buf = session.tasks[t].syscallbuf_child;
        if buf == 0 || buf > 0xffff_ffff_ffff_fff0 {
            return Err(ReplayError::MissingSyscallBuffer);
        }
        let vm = session.tasks[t].vm;
        proof {
            assert(old(session).tasks@[t as int].vm < old(session).spaces@.len());
        }
        let ghost views0 = spec_space_views(session.spaces@);
        let mut flag_byte: Vec<u8> = Vec::new();
        flag_byte.push(1u8);
        let addr = buf + SYSCALLBUF_HDR_NOTIFY_OFFSET;
        let space = &mut session.spaces[vm];
        space.write_bytes(addr, flag_byte);
        proof {
            assert(spec_space_views(session.spaces@) =~~= views0.update(
                vm as int,
                views0[vm as int].push((addr, seq![1u8])),
            ));
        }
        return Ok(step);
    }

    Ok(step)
}

/// Replay the body-specific part of one step.  Entering a syscall and
/// retiring a frame need no work here; at a syscall exit the recorded
/// result is written into the task's visible registers, the frame's
/// remaining memory writes are applied, and the live register file is
/// validated against the recording.
pub fn rep_process_syscall(session: &mut Session, t: usize, step: &ReplayTraceStep) -> (r: Result<
    (),
    ReplayError,
>)
    requires
        old(session).wf(),
        t < old(session).tasks@.len(),
        old(session).trace.frame_pos < old(session).trace.frames.len(),
    ensures
        final(session).wf(),
        step.action != ReplayTraceStepType::TstepExitSyscall ==> r == Ok::<(), ReplayError>(())
            && *final(session) == *old(session),
        step.action == ReplayTraceStepType::TstepExitSyscall ==> ({
            let frame = old(session).trace.spec_current_frame();
            let task = old(session).tasks@[t as int];
            let new_regs = task.registers.spec_with_syscall_result(
                frame.regs.spec_syscall_result(),
            ).spec_with_original_syscallno(frame.regs.spec_original_syscallno() as i64);
            let upd = spec_tasks_with_regs(old(session).tasks@, t as int, new_regs);
            let recs = old(session).trace.raw_recs@;
            let pos = old(session).trace.raw_pos as int;
            let end = spec_frame_records_end(recs, pos, frame.time);
            match spec_apply_records(spec_space_views(old(session).spaces@), upd, recs, pos, end) {
                Some(v) => {
                    &&& final(session).tasks@ == upd
                    &&& spec_space_views(final(session).spaces@) == v
                    &&& final(session).trace.raw_pos == end
                    &&& final(session).trace.frame_pos == old(session).trace.frame_pos
                    &&& final(session).groups == old(session).groups
                    &&& r == if !old(session).done_initial_exec || new_regs == frame.regs {
                        Ok::<(), ReplayError>(())
                    } else {
                        Err::<(), ReplayError>(ReplayError::RegisterMismatch)
                    }
                },
                None => r is Err && (r matches Err(
                    ReplayError::RecordForUnknownTask { .. },
                )),
            }
        }),
{
    let is_exit = match step.action {
        ReplayTraceStepType::TstepExitSyscall => true,
        _ => false,
    };
    if !is_exit {
        return Ok(());
    }
    let frame = session.trace.current_frame();
    let task = &mut session.tasks[t];
    task.set_return_value_from_trace(&frame);
    proof {
        assert forall|i: int|
            0 <= i < session.tasks@.len() implies (#[trigger] session.tasks@[i]).wf()
            && session.tasks@[i].tg < session.groups@.len() && session.tasks@[i].vm
            < session.spaces@.len() by {
            assert(old(session).tasks@[i].wf());
        }
        assert forall|g: int|
            0 <= g < session.groups@.len() implies (#[trigger] session.groups@[
            g]).members_in_bounds(session.tasks@) by {
            assert(old(session).groups@[g].members_in_bounds(old(session).tasks@));
        }
    }
    session.apply_all_data_records_from_trace()?;
    let mut fr = frame;
    let done_initial_exec = session.done_initial_exec;
    session.tasks[t].validate_regs(
        &mut fr,
        crate::replay_task::ReplayTaskIgnore::IgnoreNone,
        done_initial_exec,
    )?;
    Ok(())
}

/// If scratch data was incidentally recorded for a desched'd but
/// write-only buffered syscall, do a no-op restore of that saved data to
/// keep the trace in sync.  Whether the task sits in such an untraced
/// syscall is the driver's observation.
pub fn maybe_noop_restore_syscallbuf_scratch(session: &mut Session, in_untraced_syscall: bool) -> (
    r: Result<bool, ReplayError>)
    requires
        old(session).wf(),
        old(session).trace.frame_pos < old(session).trace.frames.len(),
    ensures
        final(session).wf(),
        !in_untraced_syscall ==> r == Ok::<bool, ReplayError>(false) && *final(session) == *old(
            session,
        ),
        in_untraced_syscall ==> crate::session::spec_set_data_from_trace_post(
            *old(session),
            *final(session),
            r,
        ),
{
    if in_untraced_syscall {
        // An untraced buffered syscall always runs with the task's own
        // architecture; its recorded scratch chunk is restored verbatim.
        session.set_data_from_trace()
    } else {
        Ok(false)
    }
}

/// A child's register file after attachment: the recorded entry number
/// and the two substituted argument registers written over the inherited
/// parent file, exactly as the parent's own restoration did.
pub open spec fn spec_fixed_clone_regs(base: Registers, rec: Registers) -> Registers {
    base.spec_with_original_syscallno(rec.spec_original_syscallno() as i64).spec_with_arg1(
        rec.spec_arg1(),
    ).spec_with_arg2(rec.spec_arg2())
}

/// Attach the task a completed clone created, reconciling ids against the
/// recording: the id the kernel reported is not comparable across pid
/// namespaces, so the recorded clone event — matched by frame time and
/// event kind, skipping unrelated events — supplies the child's id in the
/// trace's own namespace.  The child's registers are corrected to hide the
/// same substituted fields the parent's hid; the frame's recorded memory
/// writes are applied; and unless the clone shared the parent's address
/// space, inherited break- and watchpoints are dropped (keeping them has
/// no use and risks double-firing) and the tracer-shared mappings to
/// recreate in the child are handed back for the driver to install, along
/// with the child's scratch mapping.
pub fn clone_finish(session: &mut Session, t: usize, m: &CloneMachine) -> (r: Result<
    (usize, Vec<crate::address_space::Mapping>, KernelMapping),
    ReplayError,
>)
    requires
        old(session).wf(),
        t < old(session).tasks@.len(),
        m.phase == ClonePhase::Completed,
        m.recorded_regs.spec_arch() == old(session).tasks@[t as int].arch,
        old(session).trace.frame_pos < old(session).trace.frames.len(),
        old(session).next_serial < 0xffff_fffd,
    ensures
        final(session).wf(),
        ({
            let time = old(session).trace.spec_current_frame().time;
            let events = old(session).trace.task_events@;
            let epos = old(session).trace.task_event_pos as int;
            let parent = old(session).tasks@[t as int];
            match crate::trace::spec_find_task_event(
                events,
                epos,
                time,
                TraceTaskEventKind::Clone,
            ) {
                None => r == Err::<
                    (usize, Vec<crate::address_space::Mapping>, KernelMapping),
                    ReplayError,
                >(ReplayError::TraceTaskEventMissing { kind: TraceTaskEventKind::Clone }),
                Some(ei) => {
                    if events[ei].time != time {
                        r == Err::<
                            (usize, Vec<crate::address_space::Mapping>, KernelMapping),
                            ReplayError,
                        >(
                            ReplayError::TraceTaskEventTimeMismatch {
                                expected: time,
                                found: events[ei].time,
                            },
                        )
                    } else if events[ei].parent_tid != parent.rec_tid {
                        r == Err::<
                            (usize, Vec<crate::address_space::Mapping>, KernelMapping),
                            ReplayError,
                        >(
                            ReplayError::WrongCloneParent {
                                expected: parent.rec_tid,
                                found: events[ei].parent_tid,
                            },
                        )
                    } else {
                        // The attached child, in full: the kernel-reported id
                        // paired with the reconciled recorded id, inheriting
                        // the parent's register file with the recorded entry
                        // values written over the substituted fields.
                        let fs = spec_clone_flag_set(m.flags);
                        let psys = parent.registers.spec_original_syscallno();
                        let stack = if psys == spec_clone_number(m.arch) as int {
                            spec_extract_clone_parameters(parent.registers).stack
                        } else {
                            0
                        };
                        let child0 = spec_clone_task_child(
                            *old(session),
                            t as int,
                            fs,
                            stack,
                            m.new_tid,
                            events[ei].tid,
                        );
                        let child1 = ReplayTask {
                            registers: spec_fixed_clone_regs(parent.registers, m.recorded_regs),
                            registers_dirty: true,
                            ..child0
                        };
                        let tasks1 = old(session).tasks@.push(child1);
                        let views1 = if fs.share_vm {
                            spec_space_views(old(session).spaces@)
                        } else {
                            spec_space_views(old(session).spaces@).push(
                                Seq::<(u64, Seq<u8>)>::empty(),
                            )
                        };
                        let recs = old(session).trace.raw_recs@;
                        let pos = old(session).trace.raw_pos as int;
                        let end = spec_frame_records_end(recs, pos, time);
                        match spec_apply_records(views1, tasks1, recs, pos, end) {
                            // a recorded write naming no live task is the
                            // only record-application failure
                            None => r is Err && (r matches Err(
                                ReplayError::RecordForUnknownTask { .. },
                            )),
                            Some(v) => {
                                let region_avail = old(session).trace.mapped_pos < old(
                                    session,
                                ).trace.mapped_regions@.len();
                                let region = old(session).trace.mapped_regions@[old(
                                    session,
                                ).trace.mapped_pos as int];
                                let shape_ok = region.data.source
                                    == MappedDataSource::SourceZero && region.km.prot & PROT_READ
                                    != 0 && region.km.prot & PROT_WRITE != 0 && region.km.flags
                                    & MAP_PRIVATE != 0 && region.km.flags & MAP_ANONYMOUS != 0;
                                if !region_avail || !shape_ok {
                                    r == Err::<
                                        (usize, Vec<crate::address_space::Mapping>, KernelMapping),
                                        ReplayError,
                                    >(ReplayError::BadScratchMapping)
                                } else {
                                    // success is owed
                                    match r {
                                        Err(_) => false,
                                        Ok((idx, reqs, scratch_req)) => {
                                            &&& idx == old(session).tasks@.len()
                                            // the child exists, with the
                                            // recorded scratch placement
                                            &&& final(session).tasks@ == old(
                                                session,
                                            ).tasks@.push(
                                                ReplayTask {
                                                    scratch_ptr: region.km.start,
                                                    scratch_size: region.km.size,
                                                    ..child1
                                                },
                                            )
                                            // the frame's recorded writes were
                                            // applied, in order, before return
                                            &&& spec_space_views(final(session).spaces@) == v
                                            &&& final(session).trace.raw_pos == end
                                            // exactly one recorded mapping was
                                            // consumed; the request to install
                                            // is that mapping, at a fixed
                                            // address
                                            &&& final(session).trace.mapped_pos == old(
                                                session,
                                            ).trace.mapped_pos + 1
                                            &&& scratch_req == (KernelMapping {
                                                flags: region.km.flags | MAP_FIXED,
                                                ..region.km
                                            })
                                            // no frame was passed over
                                            &&& final(session).trace.frame_pos == old(
                                                session,
                                            ).trace.frame_pos
                                            &&& final(session).trace.frames == old(
                                                session,
                                            ).trace.frames
                                            // a child that does not share the
                                            // space inherits no break- or
                                            // watchpoints, and gets the
                                            // tracer-shared mappings recreated
                                            &&& (!fs.share_vm ==> final(session).spaces@[
                                                child1.vm as int].breakpoints@.len() == 0)
                                            &&& (!fs.share_vm ==> final(session).spaces@[
                                                child1.vm as int].watchpoints@.len() == 0)
                                            &&& (!fs.share_vm ==> reqs@ == old(session).spaces@[
                                                parent.vm as int].maps@.filter(
                                                spec_needs_recreation(),
                                            ))
                                            &&& (fs.share_vm ==> reqs@ =~= Seq::<
                                                crate::address_space::Mapping,
                                            >::empty())
                                            // group wiring as the clone flags
                                            // demand
                                            &&& (fs.share_thread_group ==> {
                                                &&& final(session).groups@.len() == old(
                                                    session,
                                                ).groups@.len()
                                                &&& final(session).groups@[
                                                    parent.tg as int].tasks@ == old(
                                                    session,
                                                ).groups@[parent.tg as int].tasks@.push(idx)
                                                &&& forall|g: int|
                                                    0 <= g < old(session).groups@.len() && g
                                                        != parent.tg as int
                                                        ==> final(session).groups@[g] == old(
                                                        session,
                                                    ).groups@[g]
                                            })
                                            &&& (!fs.share_thread_group ==> {
                                                &&& final(session).groups@.len() == old(
                                                    session,
                                                ).groups@.len() + 1
                                                &&& final(session).groups@[
                                                    child1.tg as int].tgid == events[ei].tid
                                                &&& final(session).groups@[
                                                    child1.tg as int].real_tgid == m.new_tid
                                                &&& final(session).groups@[
                                                    child1.tg as int].parent == Some(parent.tg)
                                                &&& final(session).groups@[
                                                    child1.tg as int].tasks@ =~= seq![idx]
                                                &&& final(session).groups@[
                                                    parent.tg as int].children@ == old(
                                                    session,
                                                ).groups@[parent.tg as int].children@.push(
                                                    child1.tg,
                                                )
                                                &&& forall|g: int|
                                                    0 <= g < old(session).groups@.len() && g
                                                        != parent.tg as int
                                                        ==> final(session).groups@[g] == old(
                                                        session,
                                                    ).groups@[g]
                                            })
                                        },
                                    }
                                }
                            },
                        }
                    }
                },
            }
        }),
{
    let ghost parent = old(session).tasks@[t as int];
    let time = session.trace.current_frame_time();
    let tte = match session.trace.read_task_trace_event(time, TraceTaskEventKind::Clone) {
        Ok(tte) => tte,
        Err(e) => {
            return Err(e);
        },
    };
    if tte.parent_tid != session.tasks[t].rec_tid {
        return Err(
            ReplayError::WrongCloneParent {
                expected: session.tasks[t].rec_tid,
                found: tte.parent_tid,
            },
        );
    }
    let flagset = clone_flags_to_task_flags(m.flags);
    let share_vm = flagset.share_vm;
    // The raw clone arguments matter only for a real clone; a fork-class
    // call carries none.  The restored registers show the recorded values.
    let parent_sysno = session.tasks[t].regs_ref().original_syscallno();
    let params = if parent_sysno == clone_number(m.arch) as i64 {
        extract_clone_parameters(session.tasks[t].regs_ref())
    } else {
        CloneParameters { stack: 0, ptid: 0, tls: 0, ctid: 0 }
    };
    let ghost s_attach = *session;
    let new_idx = session.clone_task(t, flagset, params.stack, m.new_tid, tte.tid);
    let ghost child0 = spec_clone_task_child(
        *old(session),
        t as int,
        spec_clone_flag_set(m.flags),
        params.stack as u64,
        m.new_tid,
        tte.tid,
    );
    proof {
        assert(spec_clone_task_child(
            s_attach,
            t as int,
            flagset,
            params.stack,
            m.new_tid,
            tte.tid,
        ) == child0);
        assert(session.tasks@ == old(session).tasks@.push(child0));
    }

    // Correct the child's registers to mask the same substituted fields.
    let rec = m.recorded_regs;
    let rec_orig = rec.original_syscallno();
    let rec_arg1 = rec.arg1();
    let rec_arg2 = rec.arg2();
    let child = &mut session.tasks[new_idx];
    let mut new_r = *child.regs_ref();
    new_r.set_original_syscallno(rec_orig);
    new_r.set_arg1(rec_arg1);
    new_r.set_arg2(rec_arg2);
    child.set_regs(&new_r);
    let ghost child1 = ReplayTask {
        registers: spec_fixed_clone_regs(parent.registers, m.recorded_regs),
        registers_dirty: true,
        ..child0
    };
    let ghost tasks1 = old(session).tasks@.push(child1);
    let ghost views1 = if spec_clone_flag_set(m.flags).share_vm {
        spec_space_views(old(session).spaces@)
    } else {
        spec_space_views(old(session).spaces@).push(Seq::<(u64, Seq<u8>)>::empty())
    };
    proof {
        crate::registers::lemma_reg_roundtrips();
        assert(rec_orig == rec.spec_original_syscallno() as i64);
        assert(new_r == spec_fixed_clone_regs(parent.registers, m.recorded_regs));
        assert(session.tasks@ =~= tasks1);
        assert(spec_space_views(session.spaces@) =~~= views1);
        assert forall|i: int|
            0 <= i < session.tasks@.len() implies (#[trigger] session.tasks@[i]).wf()
            && session.tasks@[i].tg < session.groups@.len() && session.tasks@[i].vm
            < session.spaces@.len() by {}
        assert forall|g: int|
            0 <= g < session.groups@.len() implies (#[trigger] session.groups@[
            g]).members_in_bounds(session.tasks@) by {}
    }

    // Recorded memory blocks for the frame, the new task's included.
    session.apply_all_data_records_from_trace()?;

    let mut requests: Vec<crate::address_space::Mapping> = Vec::new();
    if !share_vm {
        let ghost v_applied = spec_space_views(session.spaces@);
        let child_vm = session.tasks[new_idx].vm;
        let space = &mut session.spaces[child_vm];
        space.remove_all_breakpoints();
        space.remove_all_watchpoints();
        let parent_vm_now = session.tasks[t].vm;
        requests = shared_mappings_to_recreate(&session.spaces[parent_vm_now]);
        proof {
            assert(spec_space_views(session.spaces@) =~~= v_applied);
            assert forall|g: int|
                0 <= g < session.groups@.len() implies (#[trigger] session.groups@[
                g]).members_in_bounds(session.tasks@) by {}
            assert forall|i: int|
                0 <= i < session.tasks@.len() implies (#[trigger] session.tasks@[i]).wf()
                && session.tasks@[i].tg < session.groups@.len() && session.tasks@[i].vm
                < session.spaces@.len() by {}
        }
    }

    // The child's scratch buffer, as the recording mapped it.
    let region = match session.trace.read_mapped_region() {
        Some(region) => region,
        None => {
            return Err(ReplayError::BadScratchMapping);
        },
    };
    let ghost v_before_scratch = spec_space_views(session.spaces@);
    let ghost tasks_before_scratch = session.tasks@;
    let scratch_req = init_scratch_memory(session, new_idx, &region.km, &region.data)?;
    proof {
        let kf = region.km.flags;
        assert((kf | 0x10u32) & 0x10u32 != 0) by (bit_vector);
        assert(session.tasks@ =~= old(session).tasks@.push(
            ReplayTask { scratch_ptr: region.km.start, scratch_size: region.km.size, ..child1 },
        ));
        assert(spec_space_views(session.spaces@) =~~= v_before_scratch);
    }
    Ok((new_idx, requests, scratch_req))
}

} // verus!
