use rd::errors::ReplayError;
use rd::kernel_abi::{
    SupportedArch, CLONE_NEWPID, CLONE_UNTRACED, CLONE_VM, PTRACE_EVENT_CLONE,
    RDCALL_NOTIFY_SYSCALL_HOOK_EXIT, SYSCALLBUF_HDR_NOTIFY_OFFSET, X64_CLONE, X64_RESTART_SYSCALL,
    X64_VFORK, X64_WRITE,
};
use rd::registers::{u64_of_i64, Registers, X64UserRegs, X86UserRegs};
use rd::replay_syscall::{
    clone_handle_exit_stop, clone_handle_stop, prepare_clone_start, rep_prepare_run_to_syscall,
    rep_process_syscall, CloneAction, ClonePhase, ReplayTraceStep, ReplayTraceStepData,
    ReplayTraceStepType,
};
use rd::replay_task::ReplayTask;
use rd::session::Session;
use rd::replay_syscall::maybe_noop_restore_syscallbuf_scratch;
use rd::trace::{RawDataRecord, SyscallEvent, TraceFrame, TraceReader};
use rd::wait_status::WaitStatus;

fn x64_frame(time: u64, number: i32, regs: Registers) -> TraceFrame {
    TraceFrame {
        time,
        tid: 10,
        ticks: 0,
        regs,
        ev: SyscallEvent { number, arch: SupportedArch::X64, failed_during_preparation: false },
    }
}

fn regs_with(f: impl FnOnce(&mut X64UserRegs)) -> Registers {
    let mut raw = X64UserRegs::zeroed();
    f(&mut raw);
    Registers::X64(raw)
}

fn session_with(frames: Vec<TraceFrame>) -> (Session, usize) {
    let tr = TraceReader::new(frames, Vec::new(), Vec::new(), Vec::new());
    let mut session = Session::new(tr);
    let t = session.create_initial_task(100, 10, SupportedArch::X64);
    (session, t)
}

#[test]
fn a_restart_syscall_frame_retires_without_entering_a_syscall() {
    let frame = x64_frame(1, X64_RESTART_SYSCALL, Registers::new(SupportedArch::X64));
    let (mut session, t) = session_with(vec![frame]);
    let step = rep_prepare_run_to_syscall(&mut session, t).unwrap();
    assert_eq!(step.action, ReplayTraceStepType::TstepRetire);
    assert_eq!(step.data, ReplayTraceStepData::NoData);
    // the recorded registers were restored into the task, pending a flush
    assert!(session.tasks[t].registers_dirty);
}

#[test]
fn a_restart_frame_with_diverged_ticks_is_fatal() {
    let mut frame = x64_frame(1, X64_RESTART_SYSCALL, Registers::new(SupportedArch::X64));
    frame.ticks = 5;
    let (mut session, t) = session_with(vec![frame]);
    let err = rep_prepare_run_to_syscall(&mut session, t).unwrap_err();
    assert_eq!(err, ReplayError::TickMismatch { expected: 5, observed: 0 });
}

#[test]
fn an_ordinary_frame_emits_a_syscall_entry_step() {
    let frame = x64_frame(1, X64_WRITE, Registers::new(SupportedArch::X64));
    let (mut session, t) = session_with(vec![frame]);
    let step = rep_prepare_run_to_syscall(&mut session, t).unwrap();
    assert_eq!(step.action, ReplayTraceStepType::TstepEnterSyscall);
    match step.data {
        ReplayTraceStepData::Syscall(s) => {
            assert_eq!(s.number, X64_WRITE);
            assert_eq!(s.arch, SupportedArch::X64);
        },
        _ => panic!("expected a syscall step"),
    }
}

#[test]
fn the_hook_exit_pseudo_call_flags_the_syscall_buffer() {
    let frame = x64_frame(1, RDCALL_NOTIFY_SYSCALL_HOOK_EXIT, Registers::new(SupportedArch::X64));
    let (mut session, t) = session_with(vec![frame]);
    session.tasks[t].syscallbuf_child = 0x9000;
    let step = rep_prepare_run_to_syscall(&mut session, t).unwrap();
    assert_eq!(step.action, ReplayTraceStepType::TstepEnterSyscall);
    let vm = session.tasks[t].vm;
    assert_eq!(session.spaces[vm].writes.len(), 1);
    assert_eq!(session.spaces[vm].writes[0].addr, 0x9000 + SYSCALLBUF_HDR_NOTIFY_OFFSET);
    assert_eq!(session.spaces[vm].writes[0].data, vec![1u8]);
}

#[test]
fn the_hook_exit_pseudo_call_requires_a_buffer() {
    let frame = x64_frame(1, RDCALL_NOTIFY_SYSCALL_HOOK_EXIT, Registers::new(SupportedArch::X64));
    let (mut session, t) = session_with(vec![frame]);
    let err = rep_prepare_run_to_syscall(&mut session, t).unwrap_err();
    assert_eq!(err, ReplayError::MissingSyscallBuffer);
}

#[test]
fn disallowed_clone_flags_are_masked_before_the_issue() {
    let live = regs_with(|r| {
        r.rdi = CLONE_VM | CLONE_UNTRACED | CLONE_NEWPID;
        r.orig_rax = X64_CLONE as u64;
        r.rip = 0x1000;
    });
    let frame = x64_frame(1, X64_CLONE, live);
    let mut task = ReplayTask::new(100, 10, 1, SupportedArch::X64, 0, 0);
    task.set_regs(&live);
    let m = prepare_clone_start(&mut task, &frame).unwrap().unwrap();
    assert_eq!(m.flags, CLONE_VM);
    assert_eq!(m.entry_regs.clone_flags_arg(), CLONE_VM);
    assert_eq!(m.entry_regs.syscallno(), X64_CLONE as i64);
    // rewound onto the syscall instruction
    assert_eq!(m.entry_regs.ip(), 0x1000 - 2);
    assert_eq!(m.phase, ClonePhase::AwaitingCloneEvent);
    // the doctored registers sit in the task, pending a flush
    assert_eq!(task.registers.clone_flags_arg(), CLONE_VM);
    assert!(task.registers_dirty);
}

#[test]
fn a_vfork_is_issued_as_a_vm_sharing_clone() {
    let live = regs_with(|r| {
        r.orig_rax = X64_VFORK as u64;
        r.rsi = 0xdead;
        r.rip = 0x1000;
    });
    let mut frame = x64_frame(1, X64_VFORK, live);
    frame.ev.number = X64_VFORK;
    let mut task = ReplayTask::new(100, 10, 1, SupportedArch::X64, 0, 0);
    task.set_regs(&live);
    let m = prepare_clone_start(&mut task, &frame).unwrap().unwrap();
    assert_eq!(m.sys, X64_CLONE);
    assert_eq!(m.flags, CLONE_VM);
    assert_eq!(m.entry_regs.clone_flags_arg(), CLONE_VM);
    assert_eq!(m.entry_regs.arg2(), 0);
}

#[test]
fn a_recorded_failed_clone_needs_no_reexecution() {
    let live = regs_with(|r| {
        r.orig_rax = X64_CLONE as u64;
        r.rip = 0x1000;
    });
    let mut frame = x64_frame(1, X64_CLONE, live);
    frame.ev.failed_during_preparation = true;
    let mut task = ReplayTask::new(100, 10, 1, SupportedArch::X64, 0, 0);
    task.set_regs(&live);
    assert!(prepare_clone_start(&mut task, &frame).unwrap().is_none());
}

#[test]
fn masking_on_the_narrow_layout_touches_only_the_flag_register() {
    let mut raw = X86UserRegs {
        ebx: 0,
        ecx: 0,
        edx: 0,
        esi: 0,
        edi: 0,
        ebp: 0,
        eax: 0,
        xds: 0,
        xes: 0,
        xfs: 0,
        xgs: 0,
        orig_eax: 0,
        eip: 0,
        xcs: 0,
        eflags: 0,
        esp: 0,
        xss: 0,
    };
    raw.ebx = (CLONE_VM | CLONE_UNTRACED | CLONE_NEWPID) as u32;
    raw.orig_eax = rd::kernel_abi::X86_CLONE as u32;
    raw.eip = 0x0804_8002;
    raw.esp = 0xbfff_0000;
    let live = Registers::X86(raw);
    let frame = TraceFrame {
        time: 1,
        tid: 10,
        ticks: 0,
        regs: live,
        ev: SyscallEvent {
            number: rd::kernel_abi::X86_CLONE,
            arch: SupportedArch::X86,
            failed_during_preparation: false,
        },
    };
    let mut task = ReplayTask::new(100, 10, 1, SupportedArch::X86, 0, 0);
    task.set_regs(&live);
    let m = prepare_clone_start(&mut task, &frame).unwrap().unwrap();
    assert_eq!(m.flags, CLONE_VM);
    assert_eq!(m.entry_regs.clone_flags_arg(), CLONE_VM);
    assert_eq!(m.entry_regs.syscallno(), rd::kernel_abi::X86_CLONE as i64);
    assert_eq!(m.entry_regs.ip(), 0x0804_8000);
    // the untouched registers still widen losslessly
    let wide = m.entry_regs.get_ptrace();
    assert_eq!(wide.rsp, 0xbfff_0000u64);
}

fn machine_awaiting_event() -> (rd::replay_syscall::CloneMachine, ReplayTask) {
    let live = regs_with(|r| {
        r.rdi = CLONE_VM | CLONE_UNTRACED;
        r.orig_rax = X64_CLONE as u64;
        r.rip = 0x1000;
    });
    let frame = x64_frame(1, X64_CLONE, live);
    let mut task = ReplayTask::new(100, 10, 1, SupportedArch::X64, 0, 0);
    task.set_regs(&live);
    let m = prepare_clone_start(&mut task, &frame).unwrap().unwrap();
    task.flush_regs();
    task.will_resume();
    (m, task)
}

#[test]
fn transient_contention_retries_from_the_entry_registers() {
    let (mut m, mut task) = machine_awaiting_event();
    let entry = m.entry_regs;
    // the kernel reports the clone failing with the try-again error
    let stopped_regs = regs_with(|r| {
        r.orig_rax = X64_CLONE as u64;
        r.rax = u64_of_i64(-11);
        r.rip = 0x1002;
    });
    task.did_waitpid(WaitStatus::for_stop(0x85, 0), 0, &stopped_regs);
    let action = clone_handle_stop(&mut m, &mut task, None).unwrap();
    assert_eq!(action, CloneAction::Resume);
    // the task was reset to exactly the saved entry registers ...
    assert_eq!(task.registers, entry);
    // ... and the machine did not advance
    assert_eq!(m.phase, ClonePhase::AwaitingCloneEvent);
    assert_eq!(m.entry_regs, entry);
}

#[test]
fn an_ignored_signal_is_resumed_past() {
    let (mut m, mut task) = machine_awaiting_event();
    let regs = task.registers;
    task.did_waitpid(WaitStatus::for_stop(17, 0), 0, &regs);
    let action = clone_handle_stop(&mut m, &mut task, None).unwrap();
    assert_eq!(action, CloneAction::Resume);
    assert_eq!(m.phase, ClonePhase::AwaitingCloneEvent);
}

#[test]
fn an_unexpected_signal_is_fatal() {
    let (mut m, mut task) = machine_awaiting_event();
    let regs = task.registers;
    task.did_waitpid(WaitStatus::for_stop(11, 0), 0, &regs);
    let err = clone_handle_stop(&mut m, &mut task, None).unwrap_err();
    assert_eq!(err, ReplayError::PendingSignal { tid: 100, sig: 11 });
}

#[test]
fn a_diverged_syscall_number_is_fatal_with_both_numbers() {
    let (mut m, mut task) = machine_awaiting_event();
    let stopped_regs = regs_with(|r| {
        r.orig_rax = X64_WRITE as u64;
    });
    task.did_waitpid(WaitStatus::for_stop(0x85, 0), 0, &stopped_regs);
    let err = clone_handle_stop(&mut m, &mut task, None).unwrap_err();
    assert_eq!(
        err,
        ReplayError::SyscallMismatch {
            arch: SupportedArch::X64,
            expected: X64_CLONE as i64,
            observed: X64_WRITE as i64,
        }
    );
}

#[test]
fn an_unexpected_exit_is_terminal_for_the_task() {
    let (mut m, mut task) = machine_awaiting_event();
    let regs = task.registers;
    task.did_waitpid(WaitStatus::for_exit(0), 0, &regs);
    let err = clone_handle_stop(&mut m, &mut task, None).unwrap_err();
    assert_eq!(err, ReplayError::UnexpectedExit { tid: 100 });
}

#[test]
fn an_irrecoverable_clone_failure_is_reported_with_its_error() {
    let (mut m, mut task) = machine_awaiting_event();
    let stopped_regs = regs_with(|r| {
        r.orig_rax = X64_CLONE as u64;
        r.rax = u64_of_i64(-12); // out of memory: not transient contention
    });
    task.did_waitpid(WaitStatus::for_stop(0x85, 0), 0, &stopped_regs);
    let err = clone_handle_stop(&mut m, &mut task, None).unwrap_err();
    assert_eq!(err, ReplayError::CloneFailed { result: -12 });
}

#[test]
fn a_clone_event_without_its_message_is_out_of_order() {
    let (mut m, mut task) = machine_awaiting_event();
    let regs = task.registers;
    task.did_waitpid(WaitStatus::for_stop(5, PTRACE_EVENT_CLONE as u32), 0, &regs);
    let err = clone_handle_stop(&mut m, &mut task, None).unwrap_err();
    assert_eq!(err, ReplayError::BadMachineState);
}

#[test]
fn a_frame_with_the_wrong_architecture_tag_is_fatal() {
    let live = regs_with(|r| {
        r.orig_rax = X64_CLONE as u64;
        r.rip = 0x1000;
    });
    let mut frame = x64_frame(1, X64_CLONE, live);
    frame.ev.arch = SupportedArch::X86;
    frame.ev.number = rd::kernel_abi::X86_CLONE;
    let mut task = ReplayTask::new(100, 10, 1, SupportedArch::X64, 0, 0);
    task.set_regs(&live);
    let err = prepare_clone_start(&mut task, &frame).unwrap_err();
    assert_eq!(
        err,
        ReplayError::ArchMismatch { expected: SupportedArch::X64, found: SupportedArch::X86 }
    );
}

#[test]
fn the_clone_event_carries_the_new_task_id() {
    let (mut m, mut task) = machine_awaiting_event();
    let regs = task.registers;
    task.did_waitpid(WaitStatus::for_stop(5, PTRACE_EVENT_CLONE as u32), 0, &regs);
    let action = clone_handle_stop(&mut m, &mut task, Some(777)).unwrap();
    assert_eq!(action, CloneAction::ResumeSyscall);
    assert_eq!(m.phase, ClonePhase::AwaitingExit);
    assert_eq!(m.new_tid, 777);
}

#[test]
fn completion_restores_the_recorded_argument_values() {
    let (mut m, mut task) = machine_awaiting_event();
    let regs = task.registers;
    task.did_waitpid(WaitStatus::for_stop(5, PTRACE_EVENT_CLONE as u32), 0, &regs);
    clone_handle_stop(&mut m, &mut task, Some(777)).unwrap();
    task.flush_regs();
    task.will_resume();
    let exit_regs = regs_with(|r| {
        r.orig_rax = X64_CLONE as u64;
        r.rax = 777;
        r.rdi = CLONE_VM; // the kernel still sees the masked value
    });
    task.did_waitpid(WaitStatus::for_stop(0x85, 0), 0, &exit_regs);
    let action = clone_handle_exit_stop(&mut m, &mut task).unwrap();
    assert_eq!(action, CloneAction::Finish);
    assert_eq!(m.phase, ClonePhase::Completed);
    // a later validation pass sees the recorded value, not the masked one
    assert_eq!(task.registers.arg1(), CLONE_VM | CLONE_UNTRACED);
    // and the task looks still inside the syscall
    assert_eq!(task.registers.syscall_result_signed(), -38);
}

#[test]
fn a_syscall_exit_step_replays_the_recorded_result() {
    let rec_regs = regs_with(|r| {
        r.rax = u64_of_i64(-11);
        r.orig_rax = X64_WRITE as u64;
    });
    let frame = x64_frame(1, X64_WRITE, rec_regs);
    let (mut session, t) = session_with(vec![frame]);
    let step = ReplayTraceStep {
        action: ReplayTraceStepType::TstepExitSyscall,
        data: ReplayTraceStepData::NoData,
    };
    rep_process_syscall(&mut session, t, &step).unwrap();
    assert_eq!(session.tasks[t].registers.syscall_result_signed(), -11);
    assert_eq!(session.tasks[t].registers.original_syscallno(), X64_WRITE as i64);
}

#[test]
fn entering_and_retiring_need_no_body_specific_work() {
    let frame = x64_frame(1, X64_WRITE, Registers::new(SupportedArch::X64));
    let (mut session, t) = session_with(vec![frame]);
    let before_writes = session.spaces[session.tasks[t].vm].writes.len();
    let enter = ReplayTraceStep {
        action: ReplayTraceStepType::TstepEnterSyscall,
        data: ReplayTraceStepData::NoData,
    };
    rep_process_syscall(&mut session, t, &enter).unwrap();
    let retire = ReplayTraceStep {
        action: ReplayTraceStepType::TstepRetire,
        data: ReplayTraceStepData::NoData,
    };
    rep_process_syscall(&mut session, t, &retire).unwrap();
    assert_eq!(session.spaces[session.tasks[t].vm].writes.len(), before_writes);
    assert_eq!(session.trace.raw_pos, 0);
    assert_eq!(session.current_frame_time(), 1);
}

#[test]
fn scratch_restore_is_a_noop_outside_untraced_syscalls() {
    let frame = x64_frame(1, X64_WRITE, Registers::new(SupportedArch::X64));
    let tr = rd::trace::TraceReader::new(
        vec![frame],
        Vec::new(),
        vec![RawDataRecord { time: 1, rec_tid: 10, addr: 0x3000, data: vec![9] }],
        Vec::new(),
    );
    let mut session = Session::new(tr);
    let t = session.create_initial_task(100, 10, SupportedArch::X64);
    // not desched'd: nothing restored
    assert_eq!(maybe_noop_restore_syscallbuf_scratch(&mut session, false).unwrap(), false);
    assert_eq!(session.trace.raw_pos, 0);
    // desched'd write-only buffered syscall: one chunk restored in sync
    assert_eq!(maybe_noop_restore_syscallbuf_scratch(&mut session, true).unwrap(), true);
    assert_eq!(session.trace.raw_pos, 1);
    let vm = session.tasks[t].vm;
    assert_eq!(session.spaces[vm].writes.len(), 1);
    assert_eq!(session.spaces[vm].writes[0].addr, 0x3000);
}

#[test]
fn a_validated_exit_with_diverged_registers_is_fatal() {
    let rec_regs = regs_with(|r| {
        r.rbx = 7; // the live task will not have this
    });
    let frame = x64_frame(1, X64_WRITE, rec_regs);
    let (mut session, t) = session_with(vec![frame]);
    session.done_initial_exec = true;
    let step = ReplayTraceStep {
        action: ReplayTraceStepType::TstepExitSyscall,
        data: ReplayTraceStepData::NoData,
    };
    let err = rep_process_syscall(&mut session, t, &step).unwrap_err();
    assert_eq!(err, ReplayError::RegisterMismatch);
}
